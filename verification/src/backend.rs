//! Bringing a fetched repository up to date.
//!
//! Fetching is the caller's work. What is decided here: whether a
//! repository may be updated at all, which remote branch it follows, and
//! how the commits that came in are reported.

use vstd::prelude::*;
use vstd::string::*;
use crate::errors::{Error, ErrorKind};
use crate::text::{split, split_str, lemma_split_nonempty, views};

verus! {

/// What `HEAD` of a repository refers to.
#[derive(Clone, Copy, Debug, PartialEq, Eq, Structural)]
pub enum HeadKind {
    /// A local branch.
    Branch,
    /// A note.
    Note,
    /// A remote-tracking branch.
    Remote,
    /// A tag.
    Tag,
    /// A commit that no reference names.
    Detached,
}

/// Why a repository cannot be updated.
#[derive(Clone, Copy, Debug, PartialEq, Eq, Structural)]
pub enum Refusal {
    /// The working tree holds changes.
    DirtyWorktree,
    /// `HEAD` is not a branch.
    HeadNotBranch(HeadKind),
    /// No remote is set up.
    NoRemotes,
}

/// What to fetch and which reference to move the branch to.
#[derive(Debug, PartialEq, Eq)]
pub struct FetchPlan {
    /// The remote to fetch from: the first one set up.
    pub remote: String,
    /// The branch that is checked out.
    pub branch: String,
    /// The reference that holds the remote's state of the branch.
    pub remote_ref: String,
}

/// One commit as it is reported: a short id and the first line of its
/// message.
#[derive(Debug, PartialEq, Eq)]
pub struct CommitSummary {
    /// The first seven characters of the commit's id.
    pub id: String,
    /// The first line of the commit's message.
    pub message: String,
}

/// The commits between two states of a branch, oldest first.
#[derive(Debug, PartialEq, Eq)]
pub struct CommitRange {
    /// The commits, oldest first. Empty when nothing came in.
    pub commits: Vec<CommitSummary>,
}

/// Why a repository in the given state cannot be updated, if it cannot.
/// The working tree is looked at first, then `HEAD`, then the remotes.
pub open spec fn refusal_of(dirty: bool, head: HeadKind, remotes: nat) -> Option<Refusal> {
    if dirty {
        Some(Refusal::DirtyWorktree)
    } else if head != HeadKind::Branch {
        Some(Refusal::HeadNotBranch(head))
    } else if remotes == 0 {
        Some(Refusal::NoRemotes)
    } else {
        None
    }
}

/// The name of the reference that tracks `branch` on `remote`.
pub open spec fn remote_ref_of(remote: Seq<char>, branch: Seq<char>) -> Seq<char> {
    "refs/remotes/"@ + remote + "/"@ + branch
}

/// The short form of a commit id: its first seven characters, or all of
/// it where it has fewer.
pub open spec fn short_id_of(id: Seq<char>) -> Seq<char> {
    if id.len() <= 7 {
        id
    } else {
        id.subrange(0, 7)
    }
}

/// The first line of a message.
pub open spec fn first_line_of(message: Seq<char>) -> Seq<char> {
    split(message, '\n')[0]
}

/// The message that tells the user of a refusal.
pub open spec fn refusal_text(refusal: Refusal) -> Seq<char> {
    match refusal {
        Refusal::DirtyWorktree => "dotfiles repository needs to have a clean worktree"@,
        Refusal::HeadNotBranch(HeadKind::Note) => "HEAD is a note!"@,
        Refusal::HeadNotBranch(HeadKind::Remote) => "HEAD is a remote!"@,
        Refusal::HeadNotBranch(HeadKind::Tag) => "HEAD is a tag!"@,
        Refusal::HeadNotBranch(_) => "an arbitrary commit is checked out"@,
        Refusal::NoRemotes => "repository has no remotes set up"@,
    }
}

/// The error that tells the user of a refusal.
pub fn refusal_error(refusal: Refusal) -> (error: Error)
    ensures
        error@ == seq![refusal_text(refusal)],
        error.kind == ErrorKind::Git,
{
    match refusal {
        Refusal::DirtyWorktree => Error::new(
            ErrorKind::Git,
            "dotfiles repository needs to have a clean worktree",
        ),
        Refusal::HeadNotBranch(HeadKind::Note) => Error::new(ErrorKind::Git, "HEAD is a note!"),
        Refusal::HeadNotBranch(HeadKind::Remote) => Error::new(ErrorKind::Git, "HEAD is a remote!"),
        Refusal::HeadNotBranch(HeadKind::Tag) => Error::new(ErrorKind::Git, "HEAD is a tag!"),
        Refusal::HeadNotBranch(_) => Error::new(
            ErrorKind::Git,
            "an arbitrary commit is checked out",
        ),
        Refusal::NoRemotes => Error::new(ErrorKind::Git, "repository has no remotes set up"),
    }
}

/// Decides whether a repository can be updated and from where: only a
/// clean working tree on a branch with a remote is updated, from the first
/// remote.
pub fn plan_update(dirty: bool, head: HeadKind, branch: &str, remotes: &Vec<String>) -> (plan:
    Result<FetchPlan, Refusal>)
    ensures
        match refusal_of(dirty, head, remotes@.len()) {
            Some(refusal) => plan == Err::<FetchPlan, Refusal>(refusal),
            None => {
                &&& plan is Ok
                &&& plan->Ok_0.remote@ == remotes@[0]@
                &&& plan->Ok_0.branch@ == branch@
                &&& plan->Ok_0.remote_ref@ == remote_ref_of(remotes@[0]@, branch@)
            },
        },
{
    if dirty {
        return Err(Refusal::DirtyWorktree);
    }
    match head {
        HeadKind::Branch => {},
        _ => {
            return Err(Refusal::HeadNotBranch(head));
        },
    }
    if remotes.len() == 0 {
        return Err(Refusal::NoRemotes);
    }
    let remote = remotes[0].clone();
    let mut remote_ref = String::from_str("refs/remotes/");
    remote_ref.append(remote.as_str());
    remote_ref.append("/");
    remote_ref.append(branch);
    Ok(FetchPlan { remote, branch: String::from_str(branch), remote_ref })
}

/// The short form of a commit id.
pub fn short_id(id: &str) -> (short: String)
    ensures
        short@ == short_id_of(id@),
{
    let n: usize = id.unicode_len();
    if n <= 7 {
        String::from_str(id)
    } else {
        String::from_str(id.substring_char(0, 7))
    }
}

/// One commit as it is reported.
pub fn summarize(id: &str, message: &str) -> (summary: CommitSummary)
    ensures
        summary.id@ == short_id_of(id@),
        summary.message@ == first_line_of(message@),
{
    let lines = split_str(message, '\n');
    proof {
        lemma_split_nonempty(message@, '\n');
        assert(views(lines@)[0] == lines@[0]@);
    }
    CommitSummary { id: short_id(id), message: lines[0].clone() }
}

/// The commits that came in, oldest first, given their ids and messages
/// as a walk from the new state back to the old one came across them.
pub fn commit_range(walked: &Vec<(String, String)>) -> (range: CommitRange)
    ensures
        range.commits@.len() == walked@.len(),
        forall|i: int|
            0 <= i < walked@.len() ==> {
                &&& (#[trigger] range.commits@[i]).id@ == short_id_of(
                    walked@[walked@.len() - 1 - i].0@,
                )
                &&& range.commits@[i].message@ == first_line_of(walked@[walked@.len() - 1 - i].1@)
            },
{
    let mut commits: Vec<CommitSummary> = Vec::new();
    let n: usize = walked.len();
    let mut i: usize = 0;
    while i < n
        invariant
            n == walked@.len(),
            i <= n,
            commits@.len() == i,
            forall|k: int|
                0 <= k < i ==> {
                    &&& (#[trigger] commits@[k]).id@ == short_id_of(walked@[n - 1 - k].0@)
                    &&& commits@[k].message@ == first_line_of(walked@[n - 1 - k].1@)
                },
        decreases n - i,
    {
        let entry = &walked[n - 1 - i];
        commits.push(summarize(entry.0.as_str(), entry.1.as_str()));
        i = i + 1;
    }
    CommitRange { commits }
}

} // verus!
