//! The errors that the commands of the library report.
use vstd::prelude::*;

verus! {

/// Why a command did not complete.
#[derive(Clone, Copy, Debug, PartialEq, Eq, Structural)]
pub enum DotmanError {
    /// No repository name can be inferred from the URL.
    InvalidRepoUrl,
    /// The user's home directory could not be determined.
    NoHomeDirectory,
    /// The store directory could not be created.
    StoreUnwritable,
    /// The parent directory of a link target could not be created.
    TargetDirUnwritable,
    /// The repository to link does not exist in the store.
    SourceNotFound,
    /// The entry standing at a link target could not be removed.
    RemovalFailed,
    /// The symlink could not be created.
    SymlinkCreationFailed,
    /// The version-control tool reported a failed clone.
    CloneFailed,
    /// The version-control tool is not on the search path.
    ToolNotFound,
    /// A fast-forward pull failed in one repository.
    PullFailed,
}

} // verus!
