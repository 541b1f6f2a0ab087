use polk::paths::{file_name, join_path, parent, with_file_name};
use polk::text::{join_first, join_strs, split_str, str_eq};

fn strings(parts: &[&str]) -> Vec<String> {
    parts.iter().map(|p| p.to_string()).collect()
}

#[test]
fn split_keeps_empty_pieces() {
    assert_eq!(split_str("", '.'), strings(&[""]));
    assert_eq!(split_str("abc", '.'), strings(&["abc"]));
    assert_eq!(split_str(".tmux.linux.conf", '.'), strings(&["", "tmux", "linux", "conf"]));
    assert_eq!(split_str("a..b.", '.'), strings(&["a", "", "b", ""]));
    assert_eq!(split_str("/a/b", '/'), strings(&["", "a", "b"]));
}

#[test]
fn join_undoes_split() {
    for text in ["", "abc", ".tmux.linux.conf", "a..b.", "...", "é.ü"] {
        assert_eq!(join_strs(&split_str(text, '.'), "."), text);
    }
    assert_eq!(join_strs(&strings(&["a", "b", "c"]), "/"), "a/b/c");
    assert_eq!(join_strs(&Vec::new(), "/"), "");
}

#[test]
fn join_first_takes_a_prefix() {
    let parts = strings(&["a", "b", "c"]);
    assert_eq!(join_first(&parts, 0, "/"), "");
    assert_eq!(join_first(&parts, 1, "/"), "a");
    assert_eq!(join_first(&parts, 2, "/"), "a/b");
    assert_eq!(join_first(&parts, 3, "/"), "a/b/c");
}

#[test]
fn str_eq_compares_characters() {
    assert!(str_eq("linux", "linux"));
    assert!(!str_eq("linux", "linu"));
    assert!(str_eq("", ""));
}

#[test]
fn file_name_is_the_last_component() {
    assert_eq!(file_name("a/b/.vimrc"), ".vimrc");
    assert_eq!(file_name(".vimrc"), ".vimrc");
    assert_eq!(file_name("/abs/x.conf"), "x.conf");
    assert_eq!(file_name("dir/"), "");
}

#[test]
fn with_file_name_replaces_the_last_component() {
    assert_eq!(with_file_name("a/b/.vimrc", ".bashrc"), "a/b/.bashrc");
    assert_eq!(with_file_name(".vimrc", ".bashrc"), ".bashrc");
    assert_eq!(with_file_name("/x", "y"), "/y");
}

#[test]
fn join_path_follows_the_path_rules() {
    assert_eq!(join_path("/home/u", ".vimrc"), "/home/u/.vimrc");
    assert_eq!(join_path("/home/u/", "a/b"), "/home/u/a/b");
    assert_eq!(join_path("/home/u", "/etc/passwd"), "/etc/passwd");
    assert_eq!(join_path("", "a"), "a");
    assert_eq!(join_path("/home/u", ""), "/home/u/");
}

#[test]
fn parent_drops_the_last_component() {
    assert_eq!(parent("/home/u/.config/x"), "/home/u/.config");
    assert_eq!(parent("/foo"), "/");
    assert_eq!(parent("foo"), "");
    assert_eq!(parent("a/b"), "a");
}
