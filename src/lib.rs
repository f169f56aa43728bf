//! Manages a store of dotfile repositories: infers a repository's name from
//! its URL, decides how a configuration entry is replaced by a symlink into
//! the store, and tallies a bulk update of the stored repositories.
pub mod command;
pub mod error;
pub mod layout;
pub mod link;
pub mod name;
