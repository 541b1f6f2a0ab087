//! A single dotfile of the cache.

use vstd::prelude::*;
use crate::paths::components;

verus! {

/// Whether a relative path is fit for a dotfile: it is not empty, does not
/// start at the root of the filesystem, and never steps upward.
pub open spec fn is_contained(rel: Seq<char>) -> bool {
    &&& rel.len() > 0
    &&& !crate::paths::is_absolute(rel)
    &&& !components(rel).contains(".."@)
}

/// A configuration file kept in the cache and shown in the home directory
/// through a symbolic link.
#[derive(Clone, Debug, PartialEq, Eq)]
pub struct Dotfile {
    /// The path of the file inside the cache.
    pub full_path: String,
    /// The path relative to the dotfiles directory of the cache, which is
    /// also its path relative to the home directory once linked.
    pub relative_path: String,
}

impl Dotfile {
    /// A dotfile's relative path is never empty and never leaves the
    /// directory it is relative to.
    pub open spec fn wf(&self) -> bool {
        is_contained(self.relative_path@)
    }

    /// A copy of the dotfile.
    pub fn duplicate(&self) -> (copy: Dotfile)
        ensures
            copy.full_path@ == self.full_path@,
            copy.relative_path@ == self.relative_path@,
    {
        Dotfile { full_path: self.full_path.clone(), relative_path: self.relative_path.clone() }
    }
}

} // verus!
