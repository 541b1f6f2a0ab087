//! The symbolic link that shows one dotfile in the home directory.
//!
//! The caller looks at the place where the link belongs and reports what it
//! found; the functions here decide what is to be done there, so that no
//! directory and no regular file of the user is ever replaced.

use vstd::prelude::*;
use vstd::string::*;
use crate::dotfile::{is_contained, Dotfile};
use crate::errors::{Error, ErrorKind};
use crate::index::{relative_to, under};
use crate::paths::{join_path, joined, parent, parent_of};

verus! {

/// Configuration for symlinking.
#[derive(Debug)]
pub struct Config {
    /// The home directory under which links are created.
    pub home_path: String,
}

/// What the caller saw at the place where a link belongs.
#[derive(Clone, Copy, Debug, PartialEq, Eq)]
pub struct Probe {
    /// Something is there; a link counts only if it leads somewhere.
    pub exists: bool,
    /// A directory is there, directly or at the end of a link.
    pub is_dir: bool,
    /// The entry itself is a symbolic link.
    pub is_symlink: bool,
    /// The entry is a link that resolves to the dotfile in the cache.
    pub points_at_dotfile: bool,
}

/// The state of the place where a link belongs.
#[derive(Clone, Copy, Debug, PartialEq, Eq, Structural)]
pub enum TargetState {
    /// Nothing is there.
    Absent,
    /// A directory is there.
    Directory,
    /// A link to the dotfile is there already.
    LinkToDotfile,
    /// A link to some other place is there.
    LinkElsewhere,
    /// A regular file is there.
    RegularFile,
}

/// What stands in the way of a link and is never touched.
#[derive(Clone, Copy, Debug, PartialEq, Eq, Structural)]
pub enum Conflict {
    /// A directory.
    Directory,
    /// A regular file.
    RegularFile,
}

/// What is to be done at the place where a link belongs.
#[derive(Clone, Copy, Debug, PartialEq, Eq, Structural)]
pub enum LinkAction {
    /// Create missing parent directories, then the link.
    Create,
    /// Remove the link that is there and create it again.
    Recreate,
    /// Remove the link that leads elsewhere, say so, and create the link.
    ReplaceStale,
    /// Touch nothing, warn, and go on as after a success.
    Refuse(Conflict),
}

/// The decision for one dotfile.
#[derive(Debug, PartialEq, Eq)]
pub struct BuildPlan {
    /// Where the link belongs.
    pub path: String,
    /// What the link leads to: the dotfile in the cache.
    pub target: String,
    /// The directory that has to exist before the link is created.
    pub parent: String,
    /// What to do.
    pub action: LinkAction,
}

/// How an attempt to remove a link ended.
#[derive(Debug, PartialEq, Eq)]
pub enum Removal {
    /// The entry was removed.
    Removed,
    /// There was nothing to remove.
    NotFound,
    /// The removal failed for the reason given.
    Failed(String),
}

/// The state that a probe describes. The questions are asked in this
/// order: is anything there, is it a directory, is it a link, and where
/// does the link lead.
pub open spec fn state_of(probe: Probe) -> TargetState {
    if !probe.exists {
        TargetState::Absent
    } else if probe.is_dir {
        TargetState::Directory
    } else if !probe.is_symlink {
        TargetState::RegularFile
    } else if probe.points_at_dotfile {
        TargetState::LinkToDotfile
    } else {
        TargetState::LinkElsewhere
    }
}

/// The action that each state calls for.
pub open spec fn action_for(state: TargetState) -> LinkAction {
    match state {
        TargetState::Absent => LinkAction::Create,
        TargetState::Directory => LinkAction::Refuse(Conflict::Directory),
        TargetState::LinkToDotfile => LinkAction::Recreate,
        TargetState::LinkElsewhere => LinkAction::ReplaceStale,
        TargetState::RegularFile => LinkAction::Refuse(Conflict::RegularFile),
    }
}

/// Whether a probe shows a link of this library's making: something is
/// there, and it is a symbolic link.
pub open spec fn shows_link(probe: Probe) -> bool {
    probe.exists && probe.is_symlink
}

/// Whether carrying out the action changes anything on disk.
pub open spec fn touches_disk(action: LinkAction) -> bool {
    !(action is Refuse)
}

/// What is at the place where a link belongs.
pub enum Entry {
    /// Nothing.
    Nothing,
    /// A directory.
    Directory,
    /// A regular file with the given content.
    File(Seq<u8>),
    /// A symbolic link to `target`. `leads_to` says what the link ends at:
    /// nothing where it dangles, else whether that is a directory.
    Link { target: Seq<char>, leads_to: Option<bool> },
}

/// What a probe of an entry shows for the dotfile kept at `dotfile`.
pub open spec fn probe_of(entry: Entry, dotfile: Seq<char>) -> Probe {
    match entry {
        Entry::Nothing => Probe {
            exists: false,
            is_dir: false,
            is_symlink: false,
            points_at_dotfile: false,
        },
        Entry::Directory => Probe {
            exists: true,
            is_dir: true,
            is_symlink: false,
            points_at_dotfile: false,
        },
        Entry::File(_) => Probe {
            exists: true,
            is_dir: false,
            is_symlink: false,
            points_at_dotfile: false,
        },
        Entry::Link { target, leads_to } => Probe {
            exists: leads_to is Some,
            is_dir: leads_to == Some(true),
            is_symlink: true,
            points_at_dotfile: leads_to is Some && target == dotfile,
        },
    }
}

/// The link to the dotfile kept at `dotfile`, which is a file of the cache.
pub open spec fn link_to(dotfile: Seq<char>) -> Entry {
    Entry::Link { target: dotfile, leads_to: Some(false) }
}

/// The entry after the caller carried out `action`: a link is created
/// only where nothing is, and replaced only where a link is; a refusal
/// touches nothing.
pub open spec fn entry_after(action: LinkAction, entry: Entry, dotfile: Seq<char>) -> Entry {
    match action {
        LinkAction::Create => if entry is Nothing {
            link_to(dotfile)
        } else {
            entry
        },
        LinkAction::Recreate => if entry is Link {
            link_to(dotfile)
        } else {
            entry
        },
        LinkAction::ReplaceStale => if entry is Link {
            link_to(dotfile)
        } else {
            entry
        },
        LinkAction::Refuse(_) => entry,
    }
}

/// The entry after a build: the action that the decision calls for,
/// carried out.
pub open spec fn entry_after_build(entry: Entry, dotfile: Seq<char>) -> Entry {
    entry_after(action_for(state_of(probe_of(entry, dotfile))), entry, dotfile)
}

/// Whether `removal` is how removing the entry as a file ends: nothing
/// can be removed where nothing is, and a directory is not removed as a
/// file is.
pub open spec fn removal_of(entry: Entry, removal: Removal) -> bool {
    match entry {
        Entry::Nothing => removal is NotFound,
        Entry::Directory => removal is Failed,
        _ => removal is Removed,
    }
}

/// The entry after an attempt to remove it as a file.
pub open spec fn entry_after_removal(entry: Entry) -> Entry {
    if entry is Directory {
        entry
    } else {
        Entry::Nothing
    }
}

/// Whether destroying a link counts as done after `removal`.
pub open spec fn destroyed(removal: Removal) -> bool {
    !(removal is Failed)
}

/// The state of the place where a link belongs.
pub fn classify(probe: &Probe) -> (state: TargetState)
    ensures
        state == state_of(*probe),
{
    if !probe.exists {
        TargetState::Absent
    } else if probe.is_dir {
        TargetState::Directory
    } else if !probe.is_symlink {
        TargetState::RegularFile
    } else if probe.points_at_dotfile {
        TargetState::LinkToDotfile
    } else {
        TargetState::LinkElsewhere
    }
}

/// Decides how the link to a dotfile is made, given what is at its place
/// now.
pub fn build(dotfile: &Dotfile, config: &Config, probe: &Probe) -> (plan: BuildPlan)
    ensures
        plan.path@ == joined(config.home_path@, dotfile.relative_path@),
        plan.target@ == dotfile.full_path@,
        plan.parent@ == parent_of(plan.path@),
        plan.action == action_for(state_of(*probe)),
{
    let dest_path = path(dotfile, config);
    let parent_path = parent(dest_path.as_str());
    let action = match classify(probe) {
        TargetState::Absent => LinkAction::Create,
        TargetState::Directory => LinkAction::Refuse(Conflict::Directory),
        TargetState::LinkToDotfile => LinkAction::Recreate,
        TargetState::LinkElsewhere => LinkAction::ReplaceStale,
        TargetState::RegularFile => LinkAction::Refuse(Conflict::RegularFile),
    };
    BuildPlan { path: dest_path, target: dotfile.full_path.clone(), parent: parent_path, action }
}

/// The result of destroying a link, given how its removal ended: a link
/// that was gone already is no failure, any other failure is reported.
pub fn destroy(removal: Removal) -> (result: Result<(), Error>)
    ensures
        result is Ok <==> destroyed(removal),
        removal matches Removal::Failed(reason) ==> result is Err && result->Err_0@ == seq![
            reason@,
        ] && result->Err_0.kind == ErrorKind::Io,
{
    match removal {
        Removal::Removed => Ok(()),
        Removal::NotFound => Ok(()),
        Removal::Failed(reason) => Err(Error::new(ErrorKind::Io, reason.as_str())),
    }
}

/// Whether the link of a dotfile is there: something is at its place, and
/// it is a symbolic link.
pub fn link_exists(probe: &Probe) -> (linked: bool)
    ensures
        linked == shows_link(*probe),
{
    probe.exists && probe.is_symlink
}

/// The path where the link of a dotfile belongs.
pub fn path(dotfile: &Dotfile, config: &Config) -> (link: String)
    ensures
        link@ == joined(config.home_path@, dotfile.relative_path@),
{
    join_path(config.home_path.as_str(), dotfile.relative_path.as_str())
}

/// After a build, the link is there and leads to the dotfile, where
/// nothing or a link to a file was at its place before.
pub proof fn lemma_build_then_exists(entry: Entry, dotfile: Seq<char>)
    requires
        entry is Nothing || (entry matches Entry::Link { target, leads_to } && leads_to == Some(
            false,
        )),
    ensures
        entry_after_build(entry, dotfile) == link_to(dotfile),
        shows_link(probe_of(entry_after_build(entry, dotfile), dotfile)),
        probe_of(entry_after_build(entry, dotfile), dotfile).points_at_dotfile,
{
}

/// After a link is destroyed it is gone, and destroying it once more is
/// no failure.
pub proof fn lemma_destroy_then_gone(entry: Entry, dotfile: Seq<char>, first: Removal, second: Removal)
    requires
        entry is Link,
        removal_of(entry, first),
        removal_of(entry_after_removal(entry), second),
    ensures
        destroyed(first),
        !shows_link(probe_of(entry_after_removal(entry), dotfile)),
        second is NotFound,
        destroyed(second),
        !shows_link(probe_of(entry_after_removal(entry_after_removal(entry)), dotfile)),
{
}

/// A regular file or a directory at the link's place is refused and left
/// exactly as it was: a file keeps its content.
pub proof fn lemma_conflict_is_refused(entry: Entry, dotfile: Seq<char>)
    requires
        entry is File || entry is Directory,
    ensures
        action_for(state_of(probe_of(entry, dotfile))) is Refuse,
        !touches_disk(action_for(state_of(probe_of(entry, dotfile)))),
        entry_after_build(entry, dotfile) == entry,
{
}

/// Whatever is at the link's place, a build leaves there either what was
/// there or the link to the dotfile; and it changes nothing but links and
/// empty places.
pub proof fn lemma_build_replaces_only_links(entry: Entry, dotfile: Seq<char>)
    ensures
        entry_after_build(entry, dotfile) == entry || entry_after_build(entry, dotfile) == link_to(
            dotfile,
        ),
        entry_after_build(entry, dotfile) != entry ==> entry is Nothing || entry is Link,
{
}

/// Building a second time changes nothing that the first build made.
pub proof fn lemma_build_is_idempotent(entry: Entry, dotfile: Seq<char>)
    ensures
        entry_after_build(entry_after_build(entry, dotfile), dotfile) == entry_after_build(
            entry,
            dotfile,
        ),
{
}

/// Where a probe shows a link, a link is there: what is destroyed on the
/// strength of such a probe is never a regular file or a directory.
pub proof fn lemma_only_links_are_destroyed(entry: Entry, dotfile: Seq<char>)
    requires
        shows_link(probe_of(entry, dotfile)),
    ensures
        entry is Link,
{
}

/// The link of a dotfile lies below the home directory, at the dotfile's
/// relative path: a relative path that is fit for a dotfile never leads
/// out of the home directory's name.
pub proof fn lemma_link_is_under_home(home: Seq<char>, rel: Seq<char>)
    requires
        is_contained(rel),
    ensures
        under(home, joined(home, rel)),
        relative_to(home, joined(home, rel)) == rel,
{
    let prefix = joined(home, Seq::<char>::empty());
    let path = joined(home, rel);
    assert(path =~= prefix + rel);
    assert(path.subrange(0, prefix.len() as int) =~= prefix);
    assert(path.subrange(prefix.len() as int, path.len() as int) =~= rel);
}

} // verus!
