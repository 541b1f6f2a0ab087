//! Replacing a directory without losing it.
//!
//! What is at a path is moved aside before it is replaced, and moved back
//! if the replacement fails. The caller does the moving and the replacing;
//! the transaction here tells it what comes next after each step.

use vstd::prelude::*;
use vstd::string::*;
use crate::errors::Error;
use crate::paths::{file_name, file_name_of, join_path, joined, parent, parent_of};

verus! {

/// What the caller reports after a step.
#[derive(Clone, Copy, Debug, PartialEq, Eq, Structural)]
pub enum Signal {
    /// Nothing is at the path.
    Missing,
    /// A directory is at the path.
    FoundDirectory,
    /// Something that is no directory is at the path.
    FoundFile,
    /// The step was carried out.
    Succeeded,
    /// The step failed.
    Failed,
}

/// The steps of restoring, each of which can fail.
#[derive(Clone, Copy, Debug, PartialEq, Eq, Structural)]
pub enum RestoreStep {
    /// Removing the directory that the failed replacement left behind.
    ClearDirectory,
    /// Removing the file that the failed replacement left behind.
    ClearFile,
    /// Moving the old content back to its path.
    MoveBack,
}

/// How a transaction ended.
#[derive(Clone, Copy, Debug, PartialEq, Eq, Structural)]
pub enum Verdict {
    /// The replacement was made. What was moved aside stays where it is.
    Completed,
    /// The old content could not be moved aside; the replacement was not tried.
    BackupFailed,
    /// The replacement failed where nothing had to be protected.
    Failed,
    /// The replacement failed and the old content is back at its path.
    Restored,
    /// The replacement failed and the old content could not be put back.
    RestoreFailed(RestoreStep),
}

/// What the caller is to do next.
#[derive(Clone, Copy, Debug, PartialEq, Eq, Structural)]
pub enum Action {
    /// Report whether something is at the path, and whether it is a
    /// directory.
    Probe,
    /// Move what is at the path to the temporary path.
    MoveAside,
    /// Run the replacement.
    Run,
    /// Remove the directory at the path with all that is in it.
    ClearDirectory,
    /// Remove the file at the path.
    ClearFile,
    /// Move what is at the temporary path back to the path.
    MoveBack,
    /// Stop: the transaction has ended.
    Finish(Verdict),
}

/// Where a transaction stands.
#[derive(Clone, Copy, Debug, PartialEq, Eq, Structural)]
pub enum Stage {
    /// Waiting to hear whether there is anything to protect.
    Start,
    /// Waiting for the old content to be moved aside.
    MovingAside,
    /// Waiting for the replacement, with nothing moved aside.
    RunningBare,
    /// Waiting for the replacement, with the old content moved aside.
    Running,
    /// Waiting to hear what the failed replacement left at the path.
    Inspecting,
    /// Waiting for the leftover directory to be removed.
    ClearingDirectory,
    /// Waiting for the leftover file to be removed.
    ClearingFile,
    /// Waiting for the old content to be moved back.
    MovingBack,
    /// Ended.
    Done(Verdict),
}

/// The action that a stage waits for.
pub open spec fn pending(stage: Stage) -> Action {
    match stage {
        Stage::Start => Action::Probe,
        Stage::MovingAside => Action::MoveAside,
        Stage::RunningBare => Action::Run,
        Stage::Running => Action::Run,
        Stage::Inspecting => Action::Probe,
        Stage::ClearingDirectory => Action::ClearDirectory,
        Stage::ClearingFile => Action::ClearFile,
        Stage::MovingBack => Action::MoveBack,
        Stage::Done(verdict) => Action::Finish(verdict),
    }
}

/// The stage that follows `stage` when the caller reports `signal`. A
/// report that the stage does not wait for leaves it where it is.
pub open spec fn next_stage(stage: Stage, signal: Signal) -> Stage {
    match (stage, signal) {
        (Stage::Start, Signal::Missing) => Stage::RunningBare,
        (Stage::Start, Signal::FoundDirectory) => Stage::MovingAside,
        (Stage::Start, Signal::FoundFile) => Stage::MovingAside,
        (Stage::MovingAside, Signal::Succeeded) => Stage::Running,
        (Stage::MovingAside, Signal::Failed) => Stage::Done(Verdict::BackupFailed),
        (Stage::RunningBare, Signal::Succeeded) => Stage::Done(Verdict::Completed),
        (Stage::RunningBare, Signal::Failed) => Stage::Done(Verdict::Failed),
        (Stage::Running, Signal::Succeeded) => Stage::Done(Verdict::Completed),
        (Stage::Running, Signal::Failed) => Stage::Inspecting,
        (Stage::Inspecting, Signal::Missing) => Stage::MovingBack,
        (Stage::Inspecting, Signal::FoundDirectory) => Stage::ClearingDirectory,
        (Stage::Inspecting, Signal::FoundFile) => Stage::ClearingFile,
        (Stage::ClearingDirectory, Signal::Succeeded) => Stage::MovingBack,
        (Stage::ClearingDirectory, Signal::Failed) => Stage::Done(
            Verdict::RestoreFailed(RestoreStep::ClearDirectory),
        ),
        (Stage::ClearingFile, Signal::Succeeded) => Stage::MovingBack,
        (Stage::ClearingFile, Signal::Failed) => Stage::Done(
            Verdict::RestoreFailed(RestoreStep::ClearFile),
        ),
        (Stage::MovingBack, Signal::Succeeded) => Stage::Done(Verdict::Restored),
        (Stage::MovingBack, Signal::Failed) => Stage::Done(
            Verdict::RestoreFailed(RestoreStep::MoveBack),
        ),
        _ => stage,
    }
}

/// The name under which the old content is kept while it is replaced: in the
/// same directory, its file name between a leading dot and the token, with
/// `.backup` at the end.
pub open spec fn temp_path_of(path: Seq<char>, token: Seq<char>) -> Seq<char> {
    joined(parent_of(path), seq!['.'] + file_name_of(path) + seq!['.'] + token + ".backup"@)
}

/// The decimal digit for a number below ten.
pub open spec fn digit_of(d: nat) -> char {
    if d == 0 {
        '0'
    } else if d == 1 {
        '1'
    } else if d == 2 {
        '2'
    } else if d == 3 {
        '3'
    } else if d == 4 {
        '4'
    } else if d == 5 {
        '5'
    } else if d == 6 {
        '6'
    } else if d == 7 {
        '7'
    } else if d == 8 {
        '8'
    } else {
        '9'
    }
}

/// A number written in decimal, without leading zeros.
pub open spec fn decimal_of(n: nat) -> Seq<char>
    decreases n,
{
    if n < 10 {
        seq![digit_of(n)]
    } else {
        decimal_of(n / 10).push(digit_of(n % 10))
    }
}

/// The token made of two numbers: their decimal forms one after the other.
pub open spec fn token_of(a: u32, b: u32) -> Seq<char> {
    decimal_of(a as nat) + decimal_of(b as nat)
}

/// A transaction around the replacement of what is at `path`.
#[derive(Debug, PartialEq, Eq)]
pub struct Transaction {
    /// The path that is replaced.
    pub path: String,
    /// Where the old content is kept meanwhile.
    pub temp_path: String,
    /// Where the transaction stands.
    pub stage: Stage,
}

/// A number drawn by `rand::random`. It differs from call to call, and
/// nothing is claimed of it.
#[verifier::external_body]
fn random_number() -> (n: u32) {
    rand::random::<u32>()
}

/// The string of one decimal digit.
fn digit_str(d: u32) -> (s: &'static str)
    requires
        d < 10,
    ensures
        s@ == seq![digit_of(d as nat)],
{
    proof {
        reveal_strlit("0");
        reveal_strlit("1");
        reveal_strlit("2");
        reveal_strlit("3");
        reveal_strlit("4");
        reveal_strlit("5");
        reveal_strlit("6");
        reveal_strlit("7");
        reveal_strlit("8");
        reveal_strlit("9");
    }
    let s = if d == 0 {
        "0"
    } else if d == 1 {
        "1"
    } else if d == 2 {
        "2"
    } else if d == 3 {
        "3"
    } else if d == 4 {
        "4"
    } else if d == 5 {
        "5"
    } else if d == 6 {
        "6"
    } else if d == 7 {
        "7"
    } else if d == 8 {
        "8"
    } else {
        "9"
    };
    assert(s@ =~= seq![digit_of(d as nat)]);
    s
}

/// Writes a number in decimal.
pub fn decimal(n: u32) -> (text: String)
    ensures
        text@ == decimal_of(n as nat),
    decreases n,
{
    if n < 10 {
        String::from_str(digit_str(n))
    } else {
        let mut text = decimal(n / 10);
        text.append(digit_str(n % 10));
        assert(text@ =~= decimal_of((n / 10) as nat).push(digit_of((n % 10) as nat)));
        text
    }
}

/// The token made of two numbers.
pub fn token(a: u32, b: u32) -> (text: String)
    ensures
        text@ == token_of(a, b),
{
    let mut text = decimal(a);
    let second = decimal(b);
    text.append(second.as_str());
    text
}

/// A token that tells one transaction's temporary path from another's:
/// two random numbers written one after the other.
pub fn random_token() -> (text: String)
    ensures
        exists|a: u32, b: u32| text@ == token_of(a, b),
{
    let a = random_number();
    let b = random_number();
    let text = token(a, b);
    assert(text@ == token_of(a, b));
    text
}

/// The name under which what is at `path` is kept while it is replaced.
pub fn temp_path(path: &str, token: &str) -> (temp: String)
    ensures
        temp@ == temp_path_of(path@, token@),
{
    proof {
        reveal_strlit(".");
        assert("."@ =~= seq!['.']);
    }
    let mut name = String::from_str(".");
    let own = file_name(path);
    name.append(own.as_str());
    name.append(".");
    name.append(token);
    name.append(".backup");
    let dir = parent(path);
    join_path(dir.as_str(), name.as_str())
}

impl Transaction {
    /// Starts a transaction around `path`, keeping the old content under a
    /// name made with `token`. The first thing to do is to look at the
    /// path.
    pub fn begin(path: &str, token: &str) -> (started: (Transaction, Action))
        ensures
            started.0.path@ == path@,
            started.0.temp_path@ == temp_path_of(path@, token@),
            started.0.stage == Stage::Start,
            started.1 == Action::Probe,
    {
        let temp = temp_path(path, token);
        (Transaction { path: String::from_str(path), temp_path: temp, stage: Stage::Start }, Action::Probe)
    }

    /// Starts a transaction around `path` with a random token.
    pub fn begin_random(path: &str) -> (started: (Transaction, Action))
        ensures
            started.0.path@ == path@,
            exists|a: u32, b: u32| started.0.temp_path@ == temp_path_of(path@, token_of(a, b)),
            started.0.stage == Stage::Start,
            started.1 == Action::Probe,
    {
        let token = random_token();
        Transaction::begin(path, token.as_str())
    }

    /// Takes the caller's report on the last action and says what comes
    /// next.
    pub fn advance(&mut self, signal: Signal) -> (action: Action)
        ensures
            final(self).stage == next_stage(old(self).stage, signal),
            final(self).path == old(self).path,
            final(self).temp_path == old(self).temp_path,
            action == pending(final(self).stage),
    {
        let stage = match (self.stage, signal) {
            (Stage::Start, Signal::Missing) => Stage::RunningBare,
            (Stage::Start, Signal::FoundDirectory) => Stage::MovingAside,
            (Stage::Start, Signal::FoundFile) => Stage::MovingAside,
            (Stage::MovingAside, Signal::Succeeded) => Stage::Running,
            (Stage::MovingAside, Signal::Failed) => Stage::Done(Verdict::BackupFailed),
            (Stage::RunningBare, Signal::Succeeded) => Stage::Done(Verdict::Completed),
            (Stage::RunningBare, Signal::Failed) => Stage::Done(Verdict::Failed),
            (Stage::Running, Signal::Succeeded) => Stage::Done(Verdict::Completed),
            (Stage::Running, Signal::Failed) => Stage::Inspecting,
            (Stage::Inspecting, Signal::Missing) => Stage::MovingBack,
            (Stage::Inspecting, Signal::FoundDirectory) => Stage::ClearingDirectory,
            (Stage::Inspecting, Signal::FoundFile) => Stage::ClearingFile,
            (Stage::ClearingDirectory, Signal::Succeeded) => Stage::MovingBack,
            (Stage::ClearingDirectory, Signal::Failed) => Stage::Done(
                Verdict::RestoreFailed(RestoreStep::ClearDirectory),
            ),
            (Stage::ClearingFile, Signal::Succeeded) => Stage::MovingBack,
            (Stage::ClearingFile, Signal::Failed) => Stage::Done(
                Verdict::RestoreFailed(RestoreStep::ClearFile),
            ),
            (Stage::MovingBack, Signal::Succeeded) => Stage::Done(Verdict::Restored),
            (Stage::MovingBack, Signal::Failed) => Stage::Done(
                Verdict::RestoreFailed(RestoreStep::MoveBack),
            ),
            (stage, _) => stage,
        };
        self.stage = stage;
        match stage {
            Stage::Start => Action::Probe,
            Stage::MovingAside => Action::MoveAside,
            Stage::RunningBare => Action::Run,
            Stage::Running => Action::Run,
            Stage::Inspecting => Action::Probe,
            Stage::ClearingDirectory => Action::ClearDirectory,
            Stage::ClearingFile => Action::ClearFile,
            Stage::MovingBack => Action::MoveBack,
            Stage::Done(verdict) => Action::Finish(verdict),
        }
    }
}

/// The error to report when the old content could not be moved aside.
pub fn backup_failure(cause: Error) -> (error: Error)
    ensures
        error@ == seq!["failed to move file to temporary path"@] + cause@,
        error.kind == cause.kind,
{
    cause.chain_err("failed to move file to temporary path")
}

/// The context that a failed step of restoring adds to its cause.
pub open spec fn restore_context(step: RestoreStep) -> Seq<char> {
    match step {
        RestoreStep::ClearDirectory => "could not remove dirty directory"@,
        RestoreStep::ClearFile => "could not remove dirty file"@,
        RestoreStep::MoveBack => "could not move backup file to original path"@,
    }
}

/// The error to report when restoring failed at `step` for the reason
/// `cause`. It takes the place of the error that the replacement itself
/// ended with.
pub fn restore_failure(step: RestoreStep, path: &str, cause: Error) -> (error: Error)
    ensures
        error@ == seq![
            "could not restore backed up file '"@ + path@ + "'"@,
            restore_context(step),
        ] + cause@,
        error.kind == cause.kind,
{
    let inner = match step {
        RestoreStep::ClearDirectory => cause.chain_err("could not remove dirty directory"),
        RestoreStep::ClearFile => cause.chain_err("could not remove dirty file"),
        RestoreStep::MoveBack => cause.chain_err("could not move backup file to original path"),
    };
    let mut context = String::from_str("could not restore backed up file '");
    context.append(path);
    context.append("'");
    let error = inner.chain_err(context.as_str());
    assert(error@ =~= seq![
        "could not restore backed up file '"@ + path@ + "'"@,
        restore_context(step),
    ] + cause@);
    error
}

/// What is kept at the path and at the temporary path, each content under a
/// number that stands for it.
pub struct Disk {
    /// The content at the path, if anything is there.
    pub at_path: Option<int>,
    /// The content at the temporary path, if anything is there.
    pub at_temp: Option<int>,
}

/// The disk after `action` was carried out with success. The replacement
/// may leave anything at the path: `written` says what.
pub open spec fn carried_out(action: Action, disk: Disk, written: Option<int>) -> Disk {
    match action {
        Action::MoveAside => Disk { at_path: None, at_temp: disk.at_path },
        Action::Run => Disk { at_path: written, at_temp: disk.at_temp },
        Action::ClearDirectory => Disk { at_path: None, at_temp: disk.at_temp },
        Action::ClearFile => Disk { at_path: None, at_temp: disk.at_temp },
        Action::MoveBack => Disk { at_path: disk.at_temp, at_temp: None },
        Action::Probe => disk,
        Action::Finish(_) => disk,
    }
}

/// What a probe of the path reports.
pub open spec fn probed(disk: Disk, is_dir: bool) -> Signal {
    if disk.at_path is None {
        Signal::Missing
    } else if is_dir {
        Signal::FoundDirectory
    } else {
        Signal::FoundFile
    }
}

/// Where the old content is safe at each stage of a transaction that
/// had something to protect: at the path before it is moved aside and
/// after it is restored, at the temporary path in between.
pub open spec fn protects(stage: Stage, disk: Disk, content: int) -> bool {
    match stage {
        Stage::Start => disk.at_path == Some(content),
        Stage::MovingAside => disk.at_path == Some(content),
        Stage::RunningBare => false,
        Stage::Running => disk.at_temp == Some(content),
        Stage::Inspecting => disk.at_temp == Some(content),
        Stage::ClearingDirectory => disk.at_temp == Some(content),
        Stage::ClearingFile => disk.at_temp == Some(content),
        Stage::MovingBack => disk.at_temp == Some(content) && disk.at_path is None,
        Stage::Done(Verdict::Restored) => disk.at_path == Some(content),
        Stage::Done(Verdict::BackupFailed) => disk.at_path == Some(content),
        Stage::Done(Verdict::Completed) => disk.at_temp == Some(content),
        Stage::Done(Verdict::RestoreFailed(_)) => disk.at_temp == Some(content),
        Stage::Done(Verdict::Failed) => false,
    }
}

/// Whether `signal` is a report that the caller can give at `stage` on
/// this disk: a probe reports what is there, a step succeeds or fails.
pub open spec fn reportable(stage: Stage, disk: Disk, signal: Signal) -> bool {
    match pending(stage) {
        Action::Probe => exists|is_dir: bool| signal == probed(disk, is_dir),
        Action::Finish(_) => true,
        _ => signal is Succeeded || signal is Failed,
    }
}

/// The disk after the caller carried out the pending action of `stage` and
/// came to report `signal`: a step that failed changed nothing.
pub open spec fn disk_after(stage: Stage, disk: Disk, signal: Signal, written: Option<int>) -> Disk {
    if signal is Succeeded {
        carried_out(pending(stage), disk, written)
    } else if pending(stage) is Run {
        carried_out(Action::Run, disk, written)
    } else {
        disk
    }
}

/// The old content is never lost: at every step of a transaction
/// that found something at the path, it is kept where `protects` says,
/// whatever the replacement writes and whichever steps fail.
pub proof fn lemma_old_content_is_kept(
    stage: Stage,
    disk: Disk,
    content: int,
    signal: Signal,
    written: Option<int>,
)
    requires
        protects(stage, disk, content),
        reportable(stage, disk, signal),
    ensures
        protects(next_stage(stage, signal), disk_after(stage, disk, signal, written), content),
{
}

/// A replacement that fails after writing to the path is undone: when
/// every step of restoring succeeds, the transaction ends with the
/// old content at the path, whatever the replacement left there.
pub proof fn lemma_failed_replacement_is_undone(content: int, written: Option<int>, is_dir: bool)
    ensures
        ({
            let before = Disk { at_path: Some(content), at_temp: None };
            let s1 = next_stage(Stage::Start, probed(before, is_dir));
            let d1 = carried_out(pending(s1), before, written);
            let s2 = next_stage(s1, Signal::Succeeded);
            let d2 = carried_out(pending(s2), d1, written);
            let s3 = next_stage(s2, Signal::Failed);
            let s4 = next_stage(s3, probed(d2, is_dir));
            let d4 = carried_out(pending(s4), d2, written);
            let s5 = if s4 == Stage::MovingBack {
                s4
            } else {
                next_stage(s4, Signal::Succeeded)
            };
            let d5 = if s4 == Stage::MovingBack {
                d4
            } else {
                carried_out(pending(s5), d4, written)
            };
            let s6 = next_stage(s5, Signal::Succeeded);
            &&& pending(s1) == Action::MoveAside
            &&& pending(s2) == Action::Run
            &&& pending(s3) == Action::Probe
            &&& s5 == Stage::MovingBack
            &&& s6 == Stage::Done(Verdict::Restored)
            &&& d5.at_path == Some(content)
        }),
{
}

} // verus!
