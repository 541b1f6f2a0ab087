//! Paths as slash-separated character sequences.
//!
//! The library never touches the filesystem, so a path is only a name: a
//! string whose components are the pieces between slashes.

use vstd::prelude::*;
use vstd::string::*;
use crate::text::{join, split, views, split_str, join_strs, lemma_split_nonempty};

verus! {

/// The components of a path: the pieces between slashes.
pub open spec fn components(path: Seq<char>) -> Seq<Seq<char>> {
    split(path, '/')
}

/// The last component of a path.
pub open spec fn file_name_of(path: Seq<char>) -> Seq<char> {
    components(path).last()
}

/// The path with its last component replaced by `name`.
pub open spec fn with_file_name_of(path: Seq<char>, name: Seq<char>) -> Seq<char> {
    join(components(path).drop_last().push(name), '/')
}

/// Whether a path starts at the root of the filesystem.
pub open spec fn is_absolute(path: Seq<char>) -> bool {
    path.len() > 0 && path[0] == '/'
}

/// `rel` resolved against `base`: an absolute `rel` stands alone, otherwise
/// it follows `base`, with a slash between the two unless `base` is empty or
/// already ends in one.
pub open spec fn joined(base: Seq<char>, rel: Seq<char>) -> Seq<char> {
    if is_absolute(rel) {
        rel
    } else if base.len() == 0 || base.last() == '/' {
        base + rel
    } else {
        base.push('/') + rel
    }
}

/// The path without its last component: the directory that holds it.
pub open spec fn parent_of(path: Seq<char>) -> Seq<char> {
    let dir = join(components(path).drop_last(), '/');
    if dir.len() == 0 && is_absolute(path) {
        seq!['/']
    } else {
        dir
    }
}

/// The last component of `path`.
pub fn file_name(path: &str) -> (name: String)
    ensures
        name@ == file_name_of(path@),
{
    let mut parts = split_str(path, '/');
    proof {
        lemma_split_nonempty(path@, '/');
    }
    let ghost all = parts@;
    let last = parts.pop();
    match last {
        Some(name) => {
            assert(name@ == views(all).last());
            name
        },
        None => String::new(),
    }
}

/// `path` with its last component replaced by `name`.
pub fn with_file_name(path: &str, name: &str) -> (renamed: String)
    ensures
        renamed@ == with_file_name_of(path@, name@),
{
    let mut parts = split_str(path, '/');
    proof {
        lemma_split_nonempty(path@, '/');
    }
    let ghost all = parts@;
    let _ = parts.pop();
    parts.push(String::from_str(name));
    proof {
        reveal_strlit("/");
        assert(views(parts@) =~= views(all).drop_last().push(name@));
    }
    join_strs(&parts, "/")
}

/// `path` without its last component.
pub fn parent(path: &str) -> (dir: String)
    ensures
        dir@ == parent_of(path@),
{
    let mut parts = split_str(path, '/');
    proof {
        lemma_split_nonempty(path@, '/');
    }
    let ghost all = parts@;
    let _ = parts.pop();
    proof {
        reveal_strlit("/");
        assert("/"@ =~= seq!['/']);
        assert(views(parts@) =~= views(all).drop_last());
    }
    let dir = join_strs(&parts, "/");
    if dir.as_str().unicode_len() == 0 && path.unicode_len() > 0 && path.get_char(0) == '/' {
        String::from_str("/")
    } else {
        dir
    }
}

/// `rel` resolved against `base`.
pub fn join_path(base: &str, rel: &str) -> (path: String)
    ensures
        path@ == joined(base@, rel@),
{
    let base_len: usize = base.unicode_len();
    let rel_len: usize = rel.unicode_len();
    if rel_len > 0 && rel.get_char(0) == '/' {
        return String::from_str(rel);
    }
    let mut path = String::from_str(base);
    if base_len > 0 && base.get_char(base_len - 1) != '/' {
        proof {
            reveal_strlit("/");
            assert("/"@ =~= seq!['/']);
        }
        path.append("/");
        assert(path@ =~= base@.push('/'));
    }
    path.append(rel);
    path
}

} // verus!
