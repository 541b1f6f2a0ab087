use polk::backup::{
    backup_failure, decimal, random_token, restore_failure, temp_path, token, Action,
    RestoreStep, Signal, Stage, Transaction, Verdict,
};
use polk::Error;

fn run(signals: &[Signal]) -> (Vec<Action>, Stage) {
    let (mut tx, first) = Transaction::begin("/cache/users/jenny/dotfiles", "42");
    let mut actions = vec![first];
    for signal in signals {
        actions.push(tx.advance(*signal));
    }
    (actions, tx.stage)
}

#[test]
fn nothing_to_protect_runs_at_once() {
    let (actions, stage) = run(&[Signal::Missing, Signal::Succeeded]);
    assert_eq!(actions, vec![Action::Probe, Action::Run, Action::Finish(Verdict::Completed)]);
    assert_eq!(stage, Stage::Done(Verdict::Completed));
    let (actions, _) = run(&[Signal::Missing, Signal::Failed]);
    assert_eq!(actions, vec![Action::Probe, Action::Run, Action::Finish(Verdict::Failed)]);
}

#[test]
fn success_leaves_the_backup_alone() {
    let (actions, _) = run(&[Signal::FoundDirectory, Signal::Succeeded, Signal::Succeeded]);
    assert_eq!(
        actions,
        vec![Action::Probe, Action::MoveAside, Action::Run, Action::Finish(Verdict::Completed)]
    );
}

#[test]
fn failed_backup_never_runs_the_replacement() {
    let (actions, _) = run(&[Signal::FoundFile, Signal::Failed]);
    assert_eq!(
        actions,
        vec![Action::Probe, Action::MoveAside, Action::Finish(Verdict::BackupFailed)]
    );
}

#[test]
fn failure_restores_over_a_leftover_directory() {
    let (actions, _) = run(&[
        Signal::FoundDirectory,
        Signal::Succeeded,
        Signal::Failed,
        Signal::FoundDirectory,
        Signal::Succeeded,
        Signal::Succeeded,
    ]);
    assert_eq!(
        actions,
        vec![
            Action::Probe,
            Action::MoveAside,
            Action::Run,
            Action::Probe,
            Action::ClearDirectory,
            Action::MoveBack,
            Action::Finish(Verdict::Restored),
        ]
    );
}

#[test]
fn failure_restores_over_a_leftover_file_or_nothing() {
    let (actions, _) = run(&[
        Signal::FoundDirectory,
        Signal::Succeeded,
        Signal::Failed,
        Signal::FoundFile,
        Signal::Succeeded,
        Signal::Succeeded,
    ]);
    assert_eq!(actions[4], Action::ClearFile);
    assert_eq!(actions[6], Action::Finish(Verdict::Restored));
    let (actions, _) = run(&[
        Signal::FoundDirectory,
        Signal::Succeeded,
        Signal::Failed,
        Signal::Missing,
        Signal::Succeeded,
    ]);
    assert_eq!(actions[4], Action::MoveBack);
    assert_eq!(actions[5], Action::Finish(Verdict::Restored));
}

#[test]
fn failed_restore_is_reported_by_step() {
    let (_, stage) = run(&[
        Signal::FoundDirectory,
        Signal::Succeeded,
        Signal::Failed,
        Signal::FoundDirectory,
        Signal::Failed,
    ]);
    assert_eq!(stage, Stage::Done(Verdict::RestoreFailed(RestoreStep::ClearDirectory)));
    let (_, stage) = run(&[
        Signal::FoundDirectory,
        Signal::Succeeded,
        Signal::Failed,
        Signal::FoundFile,
        Signal::Failed,
    ]);
    assert_eq!(stage, Stage::Done(Verdict::RestoreFailed(RestoreStep::ClearFile)));
    let (_, stage) = run(&[
        Signal::FoundDirectory,
        Signal::Succeeded,
        Signal::Failed,
        Signal::Missing,
        Signal::Failed,
    ]);
    assert_eq!(stage, Stage::Done(Verdict::RestoreFailed(RestoreStep::MoveBack)));
}

#[test]
fn unexpected_reports_change_nothing() {
    let (actions, stage) = run(&[Signal::Succeeded, Signal::Failed]);
    assert_eq!(actions, vec![Action::Probe, Action::Probe, Action::Probe]);
    assert_eq!(stage, Stage::Start);
    let (actions, stage) = run(&[Signal::Missing, Signal::Succeeded, Signal::Failed]);
    assert_eq!(actions[3], Action::Finish(Verdict::Completed));
    assert_eq!(stage, Stage::Done(Verdict::Completed));
}

#[test]
fn temp_path_sits_beside_the_original() {
    assert_eq!(
        temp_path("/cache/users/jenny/dotfiles", "12"),
        "/cache/users/jenny/.dotfiles.12.backup"
    );
    assert_eq!(temp_path("/foo", "1"), "/.foo.1.backup");
    assert_eq!(temp_path("foo", "1"), ".foo.1.backup");
    let (tx, _) = Transaction::begin("/a/b", "77");
    assert_eq!(tx.path, "/a/b");
    assert_eq!(tx.temp_path, "/a/.b.77.backup");
}

#[test]
fn decimal_writes_numbers() {
    assert_eq!(decimal(0), "0");
    assert_eq!(decimal(7), "7");
    assert_eq!(decimal(10), "10");
    assert_eq!(decimal(1234567890), "1234567890");
    assert_eq!(decimal(u32::MAX), "4294967295");
    assert_eq!(token(12, 345), "12345");
    assert_eq!(token(0, 0), "00");
}

#[test]
fn random_token_is_made_of_digits() {
    let token = random_token();
    assert!(token.len() >= 2 && token.len() <= 20);
    assert!(token.chars().all(|c| c.is_ascii_digit()));
    let (tx, first) = Transaction::begin_random("/a/b");
    assert_eq!(first, Action::Probe);
    assert!(tx.temp_path.starts_with("/a/.b."));
    assert!(tx.temp_path.ends_with(".backup"));
}

#[test]
fn failures_carry_their_context() {
    let error = backup_failure(Error::msg("disk full"));
    assert_eq!(
        error.messages,
        vec!["failed to move file to temporary path".to_owned(), "disk full".to_owned()]
    );
    let error = restore_failure(RestoreStep::MoveBack, "/a/b", Error::msg("gone"));
    assert_eq!(
        error.messages,
        vec![
            "could not restore backed up file '/a/b'".to_owned(),
            "could not move backup file to original path".to_owned(),
            "gone".to_owned(),
        ]
    );
    let error = restore_failure(RestoreStep::ClearDirectory, "p", Error::msg("x"));
    assert_eq!(error.messages[1], "could not remove dirty directory");
    let error = restore_failure(RestoreStep::ClearFile, "p", Error::msg("x"));
    assert_eq!(error.messages[1], "could not remove dirty file");
    assert_eq!(error.to_string(), "could not restore backed up file 'p'");
}
