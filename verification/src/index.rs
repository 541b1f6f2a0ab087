//! Which files of a cache are dotfiles.
//!
//! The caller walks the dotfiles directory and reports each entry; the
//! rules here pick the dotfiles among them. Files of the version control
//! system and files of repositories nested in the cache are left out.

use vstd::prelude::*;
use vstd::string::*;
use crate::dotfile::Dotfile;
use crate::paths::{components, file_name_of, is_absolute, join_path, joined};
use crate::text::{
    join, join_first, lemma_split_nonempty, position, split_str, str_eq, str_views, views,
};

verus! {

/// One entry that a walk of the dotfiles directory came across.
#[derive(Debug, PartialEq, Eq)]
pub struct WalkEntry {
    /// The path of the entry, starting with the directory that was walked.
    pub path: String,
    /// Whether the entry is a regular file.
    pub is_file: bool,
    /// For each path of `nested_repo_probes`, in that order, whether
    /// something exists there.
    pub nested_markers: Vec<bool>,
}

/// The names of files that are never dotfiles.
pub open spec fn file_blacklist() -> Seq<Seq<char>> {
    seq![".gitignore"@, ".git"@]
}

/// The names of directories whose contents are never dotfiles.
pub open spec fn directory_blacklist() -> Seq<Seq<char>> {
    seq![".git"@]
}

/// What every path below `root` starts with: `root` and a slash.
pub open spec fn root_prefix(root: Seq<char>) -> Seq<char> {
    joined(root, Seq::<char>::empty())
}

/// Whether `path` names something below `root`.
pub open spec fn under(root: Seq<char>, path: Seq<char>) -> bool {
    let prefix = root_prefix(root);
    path.len() > prefix.len() && path.subrange(0, prefix.len() as int) == prefix
}

/// The path of something below `root`, seen from `root`.
pub open spec fn relative_to(root: Seq<char>, path: Seq<char>) -> Seq<char> {
    path.subrange(root_prefix(root).len() as int, path.len() as int)
}

/// Whether a component of `path` is a blacklisted directory name.
pub open spec fn in_blacklisted_directory(path: Seq<char>) -> bool {
    exists|i: int|
        0 <= i < components(path).len() && directory_blacklist().contains(
            #[trigger] components(path)[i],
        )
}

/// Whether the file name of `path` is blacklisted.
pub open spec fn is_blacklisted_file(path: Seq<char>) -> bool {
    file_blacklist().contains(file_name_of(path))
}

/// Whether a relative path would lead out of the directory it is relative
/// to.
pub open spec fn escapes(rel: Seq<char>) -> bool {
    is_absolute(rel) || components(rel).contains(".."@)
}

/// Whether one of the directories between an entry and the root holds a
/// repository of its own.
pub open spec fn in_nested_repository(markers: Seq<bool>) -> bool {
    markers.contains(true)
}

/// Whether an entry of the walk is a dotfile of the cache rooted at `root`.
pub open spec fn is_dotfile(root: Seq<char>, entry: WalkEntry) -> bool {
    &&& entry.is_file
    &&& under(root, entry.path@)
    &&& !escapes(relative_to(root, entry.path@))
    &&& !in_blacklisted_directory(entry.path@)
    &&& !is_blacklisted_file(entry.path@)
    &&& !in_nested_repository(entry.nested_markers@)
}

/// The predicate that picks the dotfiles out of the entries of a walk.
pub open spec fn dotfile_pred(root: Seq<char>) -> spec_fn(WalkEntry) -> bool {
    |entry: WalkEntry| is_dotfile(root, entry)
}

/// The place to look for a nested repository in the directory that is `depth`
/// components below the root on the way to `path`.
pub open spec fn nested_probe(root: Seq<char>, path: Seq<char>, depth: int) -> Seq<char> {
    root_prefix(root) + join(components(relative_to(root, path)).take(depth), '/') + "/.git"@
}

/// The places to look for a nested repository: one in every directory
/// strictly between `path` and `root`, the nearest to `path` first.
pub open spec fn nested_probes_of(root: Seq<char>, path: Seq<char>) -> Seq<Seq<char>> {
    if under(root, path) {
        let n = components(relative_to(root, path)).len();
        Seq::new((n - 1) as nat, |j: int| nested_probe(root, path, n - 1 - j))
    } else {
        Seq::<Seq<char>>::empty()
    }
}

/// The names of files that are never dotfiles.
pub fn dotfile_file_blacklist() -> (names: Vec<&'static str>)
    ensures
        str_views(names@) == file_blacklist(),
{
    let names = vec![".gitignore", ".git"];
    assert(str_views(names@) =~= file_blacklist());
    names
}

/// The names of directories whose contents are never dotfiles.
pub fn directory_blacklist_names() -> (names: Vec<&'static str>)
    ensures
        str_views(names@) == directory_blacklist(),
{
    let names = vec![".git"];
    assert(str_views(names@) =~= directory_blacklist());
    names
}

/// The path of `path` seen from `root`, if `path` lies below `root`.
pub fn strip_root(root: &str, path: &str) -> (rel: Option<String>)
    ensures
        rel is Some <==> under(root@, path@),
        rel is Some ==> rel.unwrap()@ == relative_to(root@, path@),
{
    let prefix = join_path(root, "");
    proof {
        reveal_strlit("");
        assert(""@ =~= Seq::<char>::empty());
    }
    let prefix_len: usize = prefix.as_str().unicode_len();
    let path_len: usize = path.unicode_len();
    if path_len <= prefix_len {
        return None;
    }
    let head = path.substring_char(0, prefix_len);
    if !str_eq(head, prefix.as_str()) {
        return None;
    }
    Some(String::from_str(path.substring_char(prefix_len, path_len)))
}

/// Whether one of `parts` is in `list`.
pub fn any_listed(parts: &Vec<String>, list: &Vec<&'static str>) -> (found: bool)
    ensures
        found == exists|i: int|
            0 <= i < parts@.len() && str_views(list@).contains(#[trigger] views(parts@)[i]),
{
    let mut i: usize = 0;
    while i < parts.len()
        invariant
            i <= parts.len(),
            forall|k: int| 0 <= k < i ==> !str_views(list@).contains(#[trigger] views(parts@)[k]),
        decreases parts.len() - i,
    {
        if position(list, parts[i].as_str()).is_some() {
            assert(str_views(list@).contains(views(parts@)[i as int]));
            return true;
        }
        i = i + 1;
    }
    false
}

/// Whether one of `markers` is set.
pub fn any_marked(markers: &Vec<bool>) -> (marked: bool)
    ensures
        marked == in_nested_repository(markers@),
{
    let mut i: usize = 0;
    while i < markers.len()
        invariant
            i <= markers.len(),
            forall|k: int| 0 <= k < i ==> !markers@[k],
        decreases markers.len() - i,
    {
        if markers[i] {
            return true;
        }
        i = i + 1;
    }
    false
}

/// The places to look for a repository nested between `path` and `root`,
/// the nearest to `path` first. The caller reports for each whether
/// something exists there.
pub fn nested_repo_probes(root: &str, path: &str) -> (probes: Vec<String>)
    ensures
        views(probes@) == nested_probes_of(root@, path@),
{
    let mut probes: Vec<String> = Vec::new();
    match strip_root(root, path) {
        None => {
            assert(views(probes@) =~= nested_probes_of(root@, path@));
        },
        Some(rel) => {
            let prefix = join_path(root, "");
            proof {
                reveal_strlit("");
                reveal_strlit("/");
                assert(""@ =~= Seq::<char>::empty());
                lemma_split_nonempty(rel@, '/');
            }
            let parts = split_str(rel.as_str(), '/');
            let n: usize = parts.len();
            let mut j: usize = 0;
            while j + 1 < n
                invariant
                    n == parts@.len(),
                    n >= 1,
                    j + 1 <= n,
                    "/"@.len() == 1,
                    "/"@[0] == '/',
                    prefix@ == root_prefix(root@),
                    views(parts@) == components(relative_to(root@, path@)),
                    probes@.len() == j,
                    forall|k: int|
                        0 <= k < j ==> #[trigger] views(probes@)[k] == nested_probe(
                            root@,
                            path@,
                            n - 1 - k,
                        ),
                decreases n - j,
            {
                let depth: usize = n - 1 - j;
                let dir = join_first(&parts, depth, "/");
                let mut probe = prefix.clone();
                probe.append(dir.as_str());
                probe.append("/.git");
                let ghost before = views(probes@);
                probes.push(probe);
                proof {
                    assert(views(probes@) =~= before.push(probe@));
                }
                j = j + 1;
            }
            assert(views(probes@) =~= nested_probes_of(root@, path@));
        },
    }
    probes
}

/// The dotfile that an entry of the walk stands for, if it is one.
pub fn candidate(root: &str, entry: &WalkEntry) -> (dotfile: Option<Dotfile>)
    ensures
        dotfile is Some <==> is_dotfile(root@, *entry),
        dotfile is Some ==> {
            &&& dotfile.unwrap().full_path@ == entry.path@
            &&& dotfile.unwrap().relative_path@ == relative_to(root@, entry.path@)
            &&& dotfile.unwrap().wf()
        },
{
    if !entry.is_file {
        return None;
    }
    let rel = match strip_root(root, entry.path.as_str()) {
        Some(rel) => rel,
        None => {
            return None;
        },
    };
    if rel.as_str().unicode_len() > 0 && rel.as_str().get_char(0) == '/' {
        return None;
    }
    let rel_parts = split_str(rel.as_str(), '/');
    let upward = vec![".."];
    proof {
        assert(str_views(upward@) =~= seq![".."@]);
        assert(forall|t: Seq<char>| seq![".."@].contains(t) <==> t == ".."@) by {
            assert(seq![".."@][0] == ".."@);
        }
    }
    if any_listed(&rel_parts, &upward) {
        proof {
            let i = choose|i: int|
                0 <= i < rel_parts@.len() && str_views(upward@).contains(
                    #[trigger] views(rel_parts@)[i],
                );
            assert(components(rel@)[i] == ".."@);
        }
        return None;
    }
    let parts = split_str(entry.path.as_str(), '/');
    let directories = directory_blacklist_names();
    if any_listed(&parts, &directories) {
        return None;
    }
    proof {
        lemma_split_nonempty(entry.path@, '/');
    }
    let files = dotfile_file_blacklist();
    if position(&files, parts[parts.len() - 1].as_str()).is_some() {
        assert(views(parts@).last() == parts@[parts@.len() - 1]@);
        return None;
    }
    assert(views(parts@).last() == parts@[parts@.len() - 1]@);
    if any_marked(&entry.nested_markers) {
        return None;
    }
    Some(Dotfile { full_path: entry.path.clone(), relative_path: rel })
}

/// The dotfiles among the entries of a walk of `root`, in the order of the
/// walk.
pub fn scan(root: &str, entries: &Vec<WalkEntry>) -> (dotfiles: Vec<Dotfile>)
    ensures
        dotfiles@.len() == entries@.filter(dotfile_pred(root@)).len(),
        forall|i: int|
            0 <= i < dotfiles@.len() ==> {
                &&& (#[trigger] dotfiles@[i]).full_path@ == entries@.filter(
                    dotfile_pred(root@),
                )[i].path@
                &&& dotfiles@[i].relative_path@ == relative_to(root@, dotfiles@[i].full_path@)
                &&& dotfiles@[i].wf()
            },
{
    let mut dotfiles: Vec<Dotfile> = Vec::new();
    let mut i: usize = 0;
    proof {
        reveal(Seq::filter);
        assert(entries@.take(0) =~= Seq::<WalkEntry>::empty());
    }
    while i < entries.len()
        invariant
            i <= entries.len(),
            dotfiles@.len() == entries@.take(i as int).filter(dotfile_pred(root@)).len(),
            forall|k: int|
                0 <= k < dotfiles@.len() ==> {
                    &&& (#[trigger] dotfiles@[k]).full_path@ == entries@.take(i as int).filter(
                        dotfile_pred(root@),
                    )[k].path@
                    &&& dotfiles@[k].relative_path@ == relative_to(root@, dotfiles@[k].full_path@)
                    &&& dotfiles@[k].wf()
                },
        decreases entries.len() - i,
    {
        proof {
            reveal(Seq::filter);
            let t = entries@.take(i as int + 1);
            assert(t.drop_last() =~= entries@.take(i as int));
            assert(t.last() == entries@[i as int]);
        }
        match candidate(root, &entries[i]) {
            Some(dotfile) => {
                dotfiles.push(dotfile);
            },
            None => {},
        }
        i = i + 1;
    }
    assert(entries@.take(entries@.len() as int) =~= entries@);
    dotfiles
}

/// Nothing below a directory named `.git` is a dotfile, and neither is a
/// file named `.git` or `.gitignore`.
pub proof fn lemma_control_files_excluded(root: Seq<char>, entry: WalkEntry)
    requires
        components(entry.path@).contains(".git"@) || file_name_of(entry.path@) == ".gitignore"@,
    ensures
        !is_dotfile(root, entry),
{
    if components(entry.path@).contains(".git"@) {
        let i = choose|i: int|
            0 <= i < components(entry.path@).len() && components(entry.path@)[i] == ".git"@;
        assert(directory_blacklist()[0] == ".git"@);
        assert(directory_blacklist().contains(components(entry.path@)[i]));
    } else {
        assert(file_blacklist()[0] == ".gitignore"@);
    }
}

/// No file of a repository nested in the cache is a dotfile.
pub proof fn lemma_nested_repository_excluded(root: Seq<char>, entry: WalkEntry, i: int)
    requires
        0 <= i < entry.nested_markers@.len(),
        entry.nested_markers@[i],
    ensures
        !is_dotfile(root, entry),
{
}

} // verus!
