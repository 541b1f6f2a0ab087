//! A shell that runs in a home directory of its own, with a user's
//! dotfiles linked into it.

use vstd::prelude::*;
use vstd::string::*;
use crate::cache::{is_step_for, LinkStep, UserCache};
use crate::dotfile::Dotfile;
use crate::errors::Error;
use crate::feature::FeatureSet;
use crate::paths::joined;
use crate::symlink;

verus! {

/// Configuration for shell creation.
#[derive(Debug, PartialEq, Eq)]
pub struct Config {
    /// The program to run as the shell.
    pub shell_path: String,
}

/// A shell.
#[derive(Debug)]
pub struct Shell<'a> {
    /// The user's cache.
    pub user_cache: &'a UserCache<'a>,
    /// Shell configuration.
    pub config: Config,
}

/// How the shell is started.
#[derive(Debug, PartialEq, Eq)]
pub struct Launch {
    /// The program to run.
    pub program: String,
    /// The directory to run it in.
    pub directory: String,
    /// The value of `HOME` for the program.
    pub home: String,
}

impl Config {
    /// The configuration for the shell that the user has set, or for
    /// `/bin/sh` where none is set.
    pub fn new(shell: Option<String>) -> (config: Config)
        ensures
            config.shell_path@ == match shell {
                Some(path) => path@,
                None => "/bin/sh"@,
            },
    {
        match shell {
            Some(path) => Config { shell_path: path },
            None => Config { shell_path: String::from_str("/bin/sh") },
        }
    }
}

impl<'a> Shell<'a> {
    /// Creates a new shell for the user, and names the home directory
    /// that has to be created for it, if it is missing.
    pub fn create(user_cache: &'a UserCache<'a>, config: Config, home_exists: bool) -> (created: (
        Shell<'a>,
        Option<String>,
    ))
        ensures
            created.0.user_cache == user_cache,
            created.0.config == config,
            created.1 is None <==> home_exists,
            !home_exists ==> created.1.unwrap()@ == joined(user_cache.base(), "home"@),
    {
        let missing = if home_exists {
            None
        } else {
            Some(user_cache.home_path())
        };
        (Shell { user_cache, config }, missing)
    }

    /// How the shell is started: in the user's home directory of the
    /// cache, which is also its `HOME`.
    pub fn exec(&self) -> (launch: Launch)
        ensures
            launch.program@ == self.config.shell_path@,
            launch.directory@ == joined(self.user_cache.base(), "home"@),
            launch.home@ == joined(self.user_cache.base(), "home"@),
    {
        Launch {
            program: self.config.shell_path.clone(),
            directory: self.user_cache.home_path(),
            home: self.user_cache.home_path(),
        }
    }

    /// The error to report when the shell could not be started.
    pub fn exec_failure(cause: Error) -> (error: Error)
        ensures
            error@ == seq!["could not exec into shell"@] + cause@,
            error.kind == cause.kind,
    {
        cause.chain_err("could not exec into shell")
    }

    /// What is to be done with each dotfile to link it into the shell's
    /// home directory.
    pub fn build_symlinks(&self, features: &FeatureSet, dotfiles: &Vec<Dotfile>) -> (steps: Vec<
        LinkStep,
    >)
        ensures
            steps@.len() == dotfiles@.len(),
            forall|i: int|
                0 <= i < dotfiles@.len() ==> is_step_for(
                    features.enabled(),
                    joined(self.user_cache.base(), "home"@),
                    dotfiles@[i],
                    #[trigger] steps@[i],
                ),
    {
        let config = symlink::Config { home_path: self.user_cache.home_path() };
        self.user_cache.link_ext(features, dotfiles, &config)
    }
}

} // verus!
