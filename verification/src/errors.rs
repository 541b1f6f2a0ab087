//! The error that the library's operations report.

use vstd::prelude::*;
use vstd::string::*;
use crate::text::views;

verus! {

/// Where a failure comes from.
#[derive(Clone, Copy, Debug, PartialEq, Eq, Structural)]
pub enum ErrorKind {
    /// A rule of this library was broken, or no more is known than the
    /// message.
    Msg,
    /// The filesystem.
    Io,
    /// A variable of the process.
    Var,
    /// A walk through a directory.
    WalkDir,
    /// The terminal.
    Term,
    /// The version control system.
    Git,
}

/// A failure with the contexts it passed through: the outermost context
/// first, the root cause last.
#[derive(Clone, Debug, PartialEq, Eq)]
pub struct Error {
    /// Where the root cause comes from.
    pub kind: ErrorKind,
    /// The messages, outermost first. Never empty for an error made by this
    /// library.
    pub messages: Vec<String>,
}

impl Error {
    /// The messages as character sequences, outermost first.
    pub open spec fn view(&self) -> Seq<Seq<char>> {
        views(self.messages@)
    }

    /// An error of the given kind with a single message.
    pub fn new(kind: ErrorKind, text: &str) -> (error: Error)
        ensures
            error.kind == kind,
            error@ == seq![text@],
    {
        let mut messages: Vec<String> = Vec::new();
        messages.push(String::from_str(text));
        let error = Error { kind, messages };
        assert(error@ =~= seq![text@]);
        error
    }

    /// An error with a single message, of which no more is known.
    pub fn msg(text: &str) -> (error: Error)
        ensures
            error.kind == ErrorKind::Msg,
            error@ == seq![text@],
    {
        Error::new(ErrorKind::Msg, text)
    }

    /// The same failure seen from one level further out: `context` is put
    /// in front of the messages.
    pub fn chain_err(self, context: &str) -> (error: Error)
        ensures
            error.kind == self.kind,
            error@ == seq![context@] + self@,
    {
        let ghost before = self@;
        let kind = self.kind;
        let mut messages = self.messages;
        messages.insert(0, String::from_str(context));
        let error = Error { kind, messages };
        assert(error@ =~= seq![context@] + before);
        error
    }

    /// The outermost message, or nothing for an error without messages.
    pub fn to_string(&self) -> (text: String)
        ensures
            text@ == if self@.len() > 0 {
                self@[0]
            } else {
                Seq::<char>::empty()
            },
    {
        if self.messages.len() > 0 {
            self.messages[0].clone()
        } else {
            String::new()
        }
    }
}

} // verus!
