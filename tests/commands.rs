use dotman::command::{
    clone_status, install_step, pull_outcome, update_action, InstallStep,
    RepoOutcome, UpdateAction, UpdateTally,
};
use dotman::error::DotmanError;

#[test]
fn install_existing_destination_does_not_clone() {
    assert_eq!(install_step(true, true), Ok(InstallStep::AlreadyInstalled));
    assert_eq!(install_step(true, false), Ok(InstallStep::AlreadyInstalled));
}

#[test]
fn install_new_destination() {
    assert_eq!(install_step(false, true), Ok(InstallStep::Clone));
    assert_eq!(install_step(false, false), Err(DotmanError::ToolNotFound));
    assert_eq!(clone_status(true), Ok(()));
    assert_eq!(clone_status(false), Err(DotmanError::CloneFailed));
}

#[test]
fn update_actions() {
    assert_eq!(update_action(false, true), UpdateAction::Ignore);
    assert_eq!(update_action(false, false), UpdateAction::Ignore);
    assert_eq!(update_action(true, false), UpdateAction::Skip);
    assert_eq!(update_action(true, true), UpdateAction::Pull);
    assert_eq!(pull_outcome(true), RepoOutcome::Updated);
    assert_eq!(pull_outcome(false), RepoOutcome::PullFailed);
}

/// Runs the update over `(is_dir, has_vcs)` entries with a stand-in for the
/// version-control tool; returns the tally and how many pulls were made.
fn run(entries: &[(bool, bool)], pull_succeeds: bool) -> (UpdateTally, usize) {
    let mut tally = UpdateTally::new();
    let mut pulls = 0;
    for &(is_dir, has_vcs) in entries {
        if tally.visit(is_dir, has_vcs) == UpdateAction::Pull {
            pulls += 1;
            tally.record_pull(pull_succeeds);
        }
    }
    (tally, pulls)
}

#[test]
fn update_counts_updated_and_skipped() {
    let (t, pulls) = run(&[(true, true), (true, false)], true);
    assert_eq!(t, UpdateTally { updated: 1, skipped: 1, failed: 0 });
    assert_eq!(pulls, 1);
}

#[test]
fn update_failed_pull_still_reaches_summary() {
    let (t, pulls) = run(&[(true, true), (true, false)], false);
    assert_eq!(t.updated, 0);
    assert_eq!(t.skipped, 1);
    assert_eq!(t.failed, 1);
    assert_eq!(pulls, 1);
}

#[test]
fn update_ignores_plain_files() {
    let (t, pulls) = run(&[(false, false), (false, true)], true);
    assert_eq!(t, UpdateTally { updated: 0, skipped: 0, failed: 0 });
    assert_eq!(pulls, 0);
}
