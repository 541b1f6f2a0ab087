//! Where dotfiles come from.

use vstd::prelude::*;
use vstd::string::*;

verus! {

/// A source of dotfiles as the user names it.
#[derive(Clone, Debug, PartialEq, Eq)]
pub enum SourceSpec {
    /// A GitHub dotfiles repository.
    GitHub {
        /// The user that owns the repository.
        username: String,
        /// The name of the repository; `dotfiles` where none is given.
        repository: Option<String>,
    },
    /// An arbitrary URL.
    Url(String),
}

/// A source of dotfiles that can be fetched from.
#[derive(Clone, Debug, PartialEq, Eq)]
pub enum Source {
    /// A Git repository.
    Git {
        /// The URL to clone from.
        url: String,
    },
}

/// The characters of an optional string.
pub open spec fn opt_view(text: Option<String>) -> Option<Seq<char>> {
    match text {
        Some(t) => Some(t@),
        None => None,
    }
}

/// The text that capture group `index` of `pattern` matched in the
/// leftmost match within `text`; nothing where `pattern` is no valid
/// expression, where `text` holds no match, or where the group took no part
/// in the match. Group zero is the whole match.
pub uninterp spec fn regex_group(pattern: Seq<char>, text: Seq<char>, index: usize) -> Option<
    Seq<char>,
>;

/// Matches `text` against `pattern` with `regex::Regex::new` and
/// `Regex::captures`, and hands out what `Captures::get` gives for the
/// group `index`. The contract only gives that result its name.
#[verifier::external_body]
fn capture_group(pattern: &str, text: &str, index: usize) -> (group: Option<String>)
    ensures
        opt_view(group) == regex_group(pattern@, text@, index),
{
    let re = match regex::Regex::new(pattern) {
        Ok(re) => re,
        Err(_) => return None,
    };
    let caps = match re.captures(text) {
        Some(caps) => caps,
        None => return None,
    };
    match caps.get(index) {
        Some(m) => Some(m.as_str().to_owned()),
        None => None,
    }
}

/// The expression that finds a GitHub shorthand: `github:`, a user name,
/// and after an optional slash an optional repository name.
pub open spec fn github_pattern() -> Seq<char> {
    "github:(\\w+)/?(\\w+)?"@
}

/// The URL of a repository on GitHub.
pub open spec fn github_url(username: Seq<char>, repository: Seq<char>) -> Seq<char> {
    "https://github.com"@ + "/"@ + username + "/"@ + repository + ".git"@
}

impl SourceSpec {
    /// The URL that the source is fetched from.
    pub open spec fn canonical_url(&self) -> Seq<char> {
        match self {
            SourceSpec::GitHub { username, repository } => match repository {
                Some(name) => github_url(username@, name@),
                None => github_url(username@, "dotfiles"@),
            },
            SourceSpec::Url(url) => url@,
        }
    }

    /// The description of the source in words.
    pub open spec fn description_text(&self) -> Seq<char> {
        match self {
            SourceSpec::GitHub { username, repository } => match repository {
                Some(name) => "the GitHub repository owned by '"@ + username@ + "' "@ + "named '"@
                    + name@ + "'"@,
                None => "the GitHub repository owned by '"@ + username@ + "' "@
                    + ", assuming repository named '"@ + "dotfiles"@ + "'"@,
            },
            SourceSpec::Url(url) => "the url at "@ + url@,
        }
    }

    /// The source as the user writes it.
    pub open spec fn written(&self) -> Seq<char> {
        match self {
            SourceSpec::GitHub { username, repository } => match repository {
                Some(name) => "github:"@ + username@ + "/"@ + name@,
                None => "github:"@ + username@,
            },
            SourceSpec::Url(url) => url@,
        }
    }

    /// Whether this is the source that `text` names, given what the groups
    /// of the GitHub shorthand matched in it: a shorthand where the
    /// expression matched with a user name, the text as a URL otherwise.
    pub open spec fn names(
        &self,
        text: Seq<char>,
        whole: Option<Seq<char>>,
        username: Option<Seq<char>>,
        repository: Option<Seq<char>>,
    ) -> bool {
        if whole is Some && username is Some {
            &&& *self matches SourceSpec::GitHub { username: u, repository: r }
            &&& u@ == username.unwrap()
            &&& opt_view(r) == repository
        } else {
            &&& *self matches SourceSpec::Url(url)
            &&& url@ == text
        }
    }

    /// The source that can be fetched from.
    pub fn canonical(&self) -> (source: Source)
        ensures
            source matches Source::Git { url } && url@ == self.canonical_url(),
    {
        match self {
            SourceSpec::GitHub { username, repository } => {
                let mut url = String::from_str("https://github.com");
                url.append("/");
                url.append(username.as_str());
                url.append("/");
                match repository {
                    Some(name) => url.append(name.as_str()),
                    None => url.append("dotfiles"),
                }
                url.append(".git");
                Source::Git { url }
            },
            SourceSpec::Url(url) => Source::Git { url: url.clone() },
        }
    }

    /// A description of the source in words.
    pub fn description(&self) -> (text: String)
        ensures
            text@ == self.description_text(),
    {
        match self {
            SourceSpec::GitHub { username, repository } => {
                let mut text = String::from_str("the GitHub repository owned by '");
                text.append(username.as_str());
                text.append("' ");
                match repository {
                    Some(name) => {
                        text.append("named '");
                        text.append(name.as_str());
                        text.append("'");
                        assert(text@ =~= self.description_text());
                    },
                    None => {
                        text.append(", assuming repository named '");
                        text.append("dotfiles");
                        text.append("'");
                        assert(text@ =~= self.description_text());
                    },
                }
                text
            },
            SourceSpec::Url(url) => {
                let mut text = String::from_str("the url at ");
                text.append(url.as_str());
                text
            },
        }
    }

    /// The source as the user writes it.
    pub fn to_string(&self) -> (text: String)
        ensures
            text@ == self.written(),
    {
        match self {
            SourceSpec::GitHub { username, repository } => {
                let mut text = String::from_str("github:");
                text.append(username.as_str());
                match repository {
                    Some(name) => {
                        text.append("/");
                        text.append(name.as_str());
                    },
                    None => {},
                }
                text
            },
            SourceSpec::Url(url) => url.clone(),
        }
    }

    /// The source that `text` names, given what the groups of the GitHub
    /// shorthand matched in it.
    pub fn from_groups(
        text: &str,
        whole: Option<String>,
        username: Option<String>,
        repository: Option<String>,
    ) -> (spec: SourceSpec)
        ensures
            spec.names(text@, opt_view(whole), opt_view(username), opt_view(repository)),
    {
        match (whole, username) {
            (Some(_), Some(name)) => SourceSpec::GitHub { username: name, repository },
            _ => SourceSpec::Url(String::from_str(text)),
        }
    }

    /// Reads a source as the user writes it. Every text names a source: a
    /// text without a GitHub shorthand is taken as a URL.
    pub fn from_str(text: &str) -> (parsed: Result<SourceSpec, &'static str>)
        ensures
            parsed is Ok,
            parsed->Ok_0.names(
                text@,
                regex_group(github_pattern(), text@, 0),
                regex_group(github_pattern(), text@, 1),
                regex_group(github_pattern(), text@, 2),
            ),
    {
        let pattern = "github:(\\w+)/?(\\w+)?";
        let whole = capture_group(pattern, text, 0);
        let username = capture_group(pattern, text, 1);
        let repository = capture_group(pattern, text, 2);
        Ok(SourceSpec::from_groups(text, whole, username, repository))
    }

    /// A copy of the source.
    pub fn duplicate(&self) -> (copy: SourceSpec)
        ensures
            copy.written() == self.written(),
            copy.canonical_url() == self.canonical_url(),
            copy.description_text() == self.description_text(),
    {
        match self {
            SourceSpec::GitHub { username, repository } => SourceSpec::GitHub {
                username: username.clone(),
                repository: match repository {
                    Some(name) => Some(name.clone()),
                    None => None,
                },
            },
            SourceSpec::Url(url) => SourceSpec::Url(url.clone()),
        }
    }
}

} // verus!
