use polk::symlink::{
    build, classify, destroy, link_exists, path, Config, Conflict, LinkAction, Probe, Removal,
    TargetState,
};
use polk::Dotfile;

fn dotfile() -> Dotfile {
    Dotfile {
        full_path: "/cache/users/jenny/dotfiles/.config/app.conf".to_owned(),
        relative_path: ".config/app.conf".to_owned(),
    }
}

fn config() -> Config {
    Config { home_path: "/home/jenny".to_owned() }
}

fn probe(exists: bool, is_dir: bool, is_symlink: bool, points_at_dotfile: bool) -> Probe {
    Probe { exists, is_dir, is_symlink, points_at_dotfile }
}

#[test]
fn path_joins_home_and_relative_path() {
    assert_eq!(path(&dotfile(), &config()), "/home/jenny/.config/app.conf");
}

#[test]
fn classify_asks_in_order() {
    assert_eq!(classify(&probe(false, false, false, false)), TargetState::Absent);
    assert_eq!(classify(&probe(false, true, true, true)), TargetState::Absent);
    assert_eq!(classify(&probe(true, true, false, false)), TargetState::Directory);
    assert_eq!(classify(&probe(true, true, true, false)), TargetState::Directory);
    assert_eq!(classify(&probe(true, false, true, true)), TargetState::LinkToDotfile);
    assert_eq!(classify(&probe(true, false, true, false)), TargetState::LinkElsewhere);
    assert_eq!(classify(&probe(true, false, false, false)), TargetState::RegularFile);
}

#[test]
fn build_creates_where_nothing_is() {
    let plan = build(&dotfile(), &config(), &probe(false, false, false, false));
    assert_eq!(plan.action, LinkAction::Create);
    assert_eq!(plan.path, "/home/jenny/.config/app.conf");
    assert_eq!(plan.target, "/cache/users/jenny/dotfiles/.config/app.conf");
    assert_eq!(plan.parent, "/home/jenny/.config");
}

#[test]
fn build_refuses_directories_and_files() {
    let plan = build(&dotfile(), &config(), &probe(true, true, false, false));
    assert_eq!(plan.action, LinkAction::Refuse(Conflict::Directory));
    let plan = build(&dotfile(), &config(), &probe(true, false, false, false));
    assert_eq!(plan.action, LinkAction::Refuse(Conflict::RegularFile));
}

#[test]
fn build_replaces_links() {
    let plan = build(&dotfile(), &config(), &probe(true, false, true, true));
    assert_eq!(plan.action, LinkAction::Recreate);
    let plan = build(&dotfile(), &config(), &probe(true, false, true, false));
    assert_eq!(plan.action, LinkAction::ReplaceStale);
}

#[test]
fn destroy_forgives_a_missing_link() {
    assert_eq!(destroy(Removal::Removed), Ok(()));
    assert_eq!(destroy(Removal::NotFound), Ok(()));
    let failed = destroy(Removal::Failed("permission denied".to_owned())).unwrap_err();
    assert_eq!(failed.messages, vec!["permission denied".to_owned()]);
    assert_eq!(failed.kind, polk::errors::ErrorKind::Io);
}

#[test]
fn link_exists_wants_a_symlink() {
    assert!(link_exists(&probe(true, false, true, true)));
    assert!(link_exists(&probe(true, false, true, false)));
    assert!(!link_exists(&probe(true, false, false, false)));
    assert!(!link_exists(&probe(false, false, true, false)));
    assert!(!link_exists(&probe(false, false, false, false)));
}
