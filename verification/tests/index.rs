use polk::index::{
    any_listed, any_marked, candidate, directory_blacklist_names, dotfile_file_blacklist,
    nested_repo_probes, scan, strip_root, WalkEntry,
};

const ROOT: &str = "/cache/users/jenny/dotfiles";

fn file(path: &str) -> WalkEntry {
    let markers = nested_repo_probes(ROOT, path).iter().map(|_| false).collect();
    WalkEntry { path: path.to_owned(), is_file: true, nested_markers: markers }
}

#[test]
fn plain_file_is_a_dotfile() {
    let found = candidate(ROOT, &file("/cache/users/jenny/dotfiles/.vimrc")).unwrap();
    assert_eq!(found.relative_path, ".vimrc");
    assert_eq!(found.full_path, "/cache/users/jenny/dotfiles/.vimrc");
}

#[test]
fn nested_file_keeps_its_directories() {
    let found = candidate(ROOT, &file("/cache/users/jenny/dotfiles/.config/nvim/init.vim")).unwrap();
    assert_eq!(found.relative_path, ".config/nvim/init.vim");
}

#[test]
fn git_directory_is_excluded() {
    assert_eq!(candidate(ROOT, &file("/cache/users/jenny/dotfiles/.git/config")), None);
    assert_eq!(candidate(ROOT, &file("/cache/users/jenny/dotfiles/vendor/.git/sub.conf")), None);
}

#[test]
fn blacklisted_file_names_are_excluded() {
    assert_eq!(candidate(ROOT, &file("/cache/users/jenny/dotfiles/.gitignore")), None);
    assert_eq!(candidate(ROOT, &file("/cache/users/jenny/dotfiles/sub/.gitignore")), None);
    assert_eq!(candidate(ROOT, &file("/cache/users/jenny/dotfiles/worktree/.git")), None);
    assert!(candidate(ROOT, &file("/cache/users/jenny/dotfiles/.gitconfig")).is_some());
}

#[test]
fn nested_repository_is_excluded() {
    let path = "/cache/users/jenny/dotfiles/vendor/lib/sub.conf";
    let mut entry = file(path);
    assert_eq!(entry.nested_markers.len(), 2);
    assert!(candidate(ROOT, &entry).is_some());
    entry.nested_markers = vec![false, true];
    assert_eq!(candidate(ROOT, &entry), None);
    entry.nested_markers = vec![true, false];
    assert_eq!(candidate(ROOT, &entry), None);
}

#[test]
fn directories_and_strangers_are_no_dotfiles() {
    let mut dir = file("/cache/users/jenny/dotfiles/.config");
    dir.is_file = false;
    assert_eq!(candidate(ROOT, &dir), None);
    assert_eq!(candidate(ROOT, &file("/elsewhere/.vimrc")), None);
    assert_eq!(candidate(ROOT, &file(ROOT)), None);
    assert_eq!(candidate(ROOT, &file("/cache/users/jenny/dotfiles")), None);
    assert_eq!(candidate(ROOT, &file("/cache/users/jenny/dotfilesx/.vimrc")), None);
}

#[test]
fn escaping_paths_are_no_dotfiles() {
    assert_eq!(candidate(ROOT, &file("/cache/users/jenny/dotfiles/../secret")), None);
    assert_eq!(candidate(ROOT, &file("/cache/users/jenny/dotfiles/a/../../b")), None);
    assert_eq!(candidate(ROOT, &file("/cache/users/jenny/dotfiles//etc/passwd")), None);
}

#[test]
fn probes_name_every_directory_in_between() {
    let probes = nested_repo_probes(ROOT, "/cache/users/jenny/dotfiles/vendor/lib/x.conf");
    assert_eq!(
        probes,
        vec![
            "/cache/users/jenny/dotfiles/vendor/lib/.git".to_owned(),
            "/cache/users/jenny/dotfiles/vendor/.git".to_owned(),
        ]
    );
    assert!(nested_repo_probes(ROOT, "/cache/users/jenny/dotfiles/.vimrc").is_empty());
    assert!(nested_repo_probes(ROOT, "/elsewhere/a/b").is_empty());
}

#[test]
fn strip_root_gives_the_relative_path() {
    assert_eq!(strip_root("/a/b", "/a/b/c/d"), Some("c/d".to_owned()));
    assert_eq!(strip_root("/a/b/", "/a/b/c"), Some("c".to_owned()));
    assert_eq!(strip_root("/a/b", "/a/b"), None);
    assert_eq!(strip_root("/a/b", "/a/b/"), None);
    assert_eq!(strip_root("/a/b", "/a/bc/d"), None);
}

#[test]
fn scan_keeps_the_order_of_the_walk() {
    let entries = vec![
        file("/cache/users/jenny/dotfiles/.vimrc"),
        file("/cache/users/jenny/dotfiles/.git/config"),
        file("/cache/users/jenny/dotfiles/.gitignore"),
        file("/cache/users/jenny/dotfiles/.bashrc"),
    ];
    let found = scan(ROOT, &entries);
    let names: Vec<&str> = found.iter().map(|d| d.relative_path.as_str()).collect();
    assert_eq!(names, vec![".vimrc", ".bashrc"]);
    assert!(scan(ROOT, &Vec::new()).is_empty());
}

#[test]
fn blacklists_hold_the_control_names() {
    assert_eq!(dotfile_file_blacklist(), vec![".gitignore", ".git"]);
    assert_eq!(directory_blacklist_names(), vec![".git"]);
    assert!(any_listed(&vec!["a".to_owned(), ".git".to_owned()], &vec![".git"]));
    assert!(!any_listed(&vec!["a".to_owned()], &vec![".git"]));
    assert!(any_marked(&vec![false, true]));
    assert!(!any_marked(&vec![false, false]));
    assert!(!any_marked(&Vec::new()));
}
