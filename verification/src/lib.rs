//! Dotfile synchronization engine.
//!
//! The library holds the rules by which cached dotfiles are selected for a
//! machine, named, and projected into a home directory as symbolic links,
//! together with the decisions that keep user data safe while doing so.
//! Every rule is stated as a contract over plain values; touching the
//! filesystem is left to the caller, which reports what it saw and carries
//! out what the library decided.

pub mod backend;
pub mod backup;
pub mod cache;
pub mod dotfile;
pub mod errors;
pub mod feature;
pub mod index;
pub mod paths;
pub mod shell;
pub mod source;
pub mod symlink;
pub mod text;

pub use cache::{Cache, UserCache};
pub use dotfile::Dotfile;
pub use errors::Error;
pub use feature::FeatureSet;
pub use source::{Source, SourceSpec};
