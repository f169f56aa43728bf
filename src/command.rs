//! The decisions of the install and update commands. The version-control
//! tool is run by the caller, who hands back whether it succeeded.
use vstd::prelude::*;

use crate::error::DotmanError;

verus! {

/// What install does once the repository's name is known.
#[derive(Clone, Copy, Debug, PartialEq, Eq, Structural)]
pub enum InstallStep {
    /// The repository is in the store already: nothing is cloned.
    AlreadyInstalled,
    /// Clone the repository into its place in the store.
    Clone,
}

/// Decides the install step from whether the destination exists and whether
/// the version-control tool was found. An existing destination is never
/// cloned again, whether or not the tool is there.
pub fn install_step(dest_exists: bool, tool_found: bool) -> (r: Result<InstallStep, DotmanError>)
    ensures
        dest_exists ==> r == Ok::<InstallStep, DotmanError>(InstallStep::AlreadyInstalled),
        !dest_exists && !tool_found ==> r == Err::<InstallStep, DotmanError>(
            DotmanError::ToolNotFound,
        ),
        !dest_exists && tool_found ==> r == Ok::<InstallStep, DotmanError>(InstallStep::Clone),
{
    if dest_exists {
        Ok(InstallStep::AlreadyInstalled)
    } else if !tool_found {
        Err(DotmanError::ToolNotFound)
    } else {
        Ok(InstallStep::Clone)
    }
}

/// The result of a clone, from whether the tool exited successfully. A
/// failed clone leaves whatever it wrote in place.
pub fn clone_status(success: bool) -> (r: Result<(), DotmanError>)
    ensures
        success <==> r is Ok,
        !success ==> r == Err::<(), DotmanError>(DotmanError::CloneFailed),
{
    if success {
        Ok(())
    } else {
        Err(DotmanError::CloneFailed)
    }
}

/// What update does with one entry of the store.
#[derive(Clone, Copy, Debug, PartialEq, Eq, Structural)]
pub enum UpdateAction {
    /// Not a directory: not a repository at all.
    Ignore,
    /// A directory without version-control metadata: counted as skipped.
    Skip,
    /// A checkout: pull it, fast-forward only.
    Pull,
}

pub open spec fn update_action_of(is_dir: bool, has_vcs: bool) -> UpdateAction {
    if !is_dir {
        UpdateAction::Ignore
    } else if !has_vcs {
        UpdateAction::Skip
    } else {
        UpdateAction::Pull
    }
}

/// The action for an entry of the store.
pub fn update_action(is_dir: bool, has_vcs: bool) -> (r: UpdateAction)
    ensures
        r == update_action_of(is_dir, has_vcs),
{
    if !is_dir {
        UpdateAction::Ignore
    } else if !has_vcs {
        UpdateAction::Skip
    } else {
        UpdateAction::Pull
    }
}

/// How one repository fared in an update.
#[derive(Clone, Copy, Debug, PartialEq, Eq, Structural)]
pub enum RepoOutcome {
    Updated,
    PullFailed,
    SkippedNoVcs,
}

/// The outcome of a pull, from whether the tool exited successfully.
pub fn pull_outcome(success: bool) -> (r: RepoOutcome)
    ensures
        success ==> r == RepoOutcome::Updated,
        !success ==> r == RepoOutcome::PullFailed,
{
    if success {
        RepoOutcome::Updated
    } else {
        RepoOutcome::PullFailed
    }
}

/// The counts that an update reports at its end. A failed pull is counted
/// and does not stop the run.
#[derive(Clone, Copy, Debug, PartialEq, Eq, Structural)]
pub struct UpdateTally {
    pub updated: usize,
    pub skipped: usize,
    pub failed: usize,
}

impl UpdateTally {
    pub open spec fn total(&self) -> nat {
        (self.updated + self.skipped + self.failed) as nat
    }

    /// A tally with nothing counted.
    pub fn new() -> (r: UpdateTally)
        ensures
            r == (UpdateTally { updated: 0, skipped: 0, failed: 0 }),
    {
        UpdateTally { updated: 0, skipped: 0, failed: 0 }
    }

    /// Counts one more outcome.
    pub fn record(&mut self, outcome: RepoOutcome)
        requires
            old(self).total() < usize::MAX,
        ensures
            final(self).updated == old(self).updated + if outcome == RepoOutcome::Updated {
                1int
            } else {
                0int
            },
            final(self).skipped == old(self).skipped + if outcome == RepoOutcome::SkippedNoVcs {
                1int
            } else {
                0int
            },
            final(self).failed == old(self).failed + if outcome == RepoOutcome::PullFailed {
                1int
            } else {
                0int
            },
    {
        match outcome {
            RepoOutcome::Updated => self.updated = self.updated + 1,
            RepoOutcome::SkippedNoVcs => self.skipped = self.skipped + 1,
            RepoOutcome::PullFailed => self.failed = self.failed + 1,
        }
    }

    /// Visits one entry of the store: counts it as skipped when it is a
    /// directory without version-control metadata, and returns the action,
    /// so that the caller pulls exactly where it is `Pull`.
    pub fn visit(&mut self, is_dir: bool, has_vcs: bool) -> (r: UpdateAction)
        requires
            old(self).total() < usize::MAX,
        ensures
            r == update_action_of(is_dir, has_vcs),
            r == UpdateAction::Skip ==> *final(self) == (UpdateTally {
                skipped: (old(self).skipped + 1) as usize,
                ..*old(self)
            }),
            r != UpdateAction::Skip ==> *final(self) == *old(self),
    {
        let action = update_action(is_dir, has_vcs);
        if let UpdateAction::Skip = action {
            self.record(RepoOutcome::SkippedNoVcs);
        }
        action
    }

    /// Counts the result of a pull that `visit` asked for.
    pub fn record_pull(&mut self, success: bool)
        requires
            old(self).total() < usize::MAX,
        ensures
            success ==> *final(self) == (UpdateTally {
                updated: (old(self).updated + 1) as usize,
                ..*old(self)
            }),
            !success ==> *final(self) == (UpdateTally {
                failed: (old(self).failed + 1) as usize,
                ..*old(self)
            }),
    {
        let o = pull_outcome(success);
        self.record(o);
    }
}

} // verus!
