use label_branches::orchestrator::{
    any_conflicted, classify_merge, exit_code, Action, FatalReason, MergeOutcome, Phase,
    RunOutcome, Session,
};
use label_branches::resolver::ResolutionError;

fn session_after_setup(branches: Vec<&str>) -> Session {
    let mut session = Session::new("ready".to_string(), "release".to_string());
    assert_eq!(session.next_action(), Action::RunFetch);
    session.on_fetch_result(true);
    assert_eq!(session.next_action(), Action::RunCheckout);
    session.on_checkout_result(true);
    assert_eq!(session.next_action(), Action::RunResolve);
    session.on_resolution(Ok(branches.into_iter().map(String::from).collect()));
    session
}

#[test]
fn two_clean_merges_succeed() {
    let mut session = session_after_setup(vec!["feature-a", "feature-b"]);

    assert_eq!(session.next_action(), Action::RunMerge);
    assert_eq!(session.current_branch(), "feature-a");
    session.on_merge_result(true);

    assert_eq!(session.next_action(), Action::RunMerge);
    assert_eq!(session.current_branch(), "feature-b");
    session.on_merge_result(true);

    assert_eq!(session.next_action(), Action::Finish);
    assert_eq!(session.phase(), Phase::Done);
    let outcome = session.outcome();
    assert_eq!(outcome, RunOutcome::Success);
    assert_eq!(exit_code(&outcome), 0);
}

#[test]
fn conflict_halts_the_run_naming_the_branch() {
    let mut session = session_after_setup(vec!["feature-a"]);

    assert_eq!(session.current_branch(), "feature-a");
    session.on_merge_result(false);
    assert_eq!(session.next_action(), Action::CheckConflicts);
    session.on_conflicts_checked(true);

    assert_eq!(session.phase(), Phase::Aborted);
    assert_eq!(session.next_action(), Action::Finish);
    let outcome = session.outcome();
    assert_eq!(
        outcome,
        RunOutcome::Fatal(FatalReason::MergeConflict("feature-a".to_string()))
    );
    assert_eq!(exit_code(&outcome), 1);
}

#[test]
fn conflict_leaves_later_branches_unattempted() {
    let mut session = session_after_setup(vec!["feature-a", "feature-b"]);

    session.on_merge_result(false);
    session.on_conflicts_checked(true);

    // The run is over; the second branch is never owed a merge.
    assert_eq!(session.phase(), Phase::Aborted);
    assert_eq!(session.next_action(), Action::Finish);
    let outcome = session.outcome();
    assert_eq!(
        outcome,
        RunOutcome::Fatal(FatalReason::MergeConflict("feature-a".to_string()))
    );
}

#[test]
fn empty_resolution_completes_with_zero_merges() {
    let session = session_after_setup(vec![]);
    assert_eq!(session.phase(), Phase::Done);
    assert_eq!(session.next_action(), Action::Finish);
    let outcome = session.outcome();
    assert_eq!(outcome, RunOutcome::Success);
    assert_eq!(exit_code(&outcome), 0);
}

#[test]
fn finalizing_commit_turns_a_failed_merge_clean() {
    let mut session = session_after_setup(vec!["feature-a", "feature-b"]);

    session.on_merge_result(false);
    session.on_conflicts_checked(false);
    assert_eq!(session.next_action(), Action::FinalizeCommit);
    session.on_commit_result(true);

    // The sequence continues: the next branch is owed its merge.
    assert_eq!(session.phase(), Phase::Merging);
    assert_eq!(session.current_branch(), "feature-b");
    session.on_merge_result(true);
    assert_eq!(session.outcome(), RunOutcome::Success);
}

#[test]
fn failed_finalizing_commit_aborts_naming_the_branch() {
    let mut session = session_after_setup(vec!["feature-a"]);

    session.on_merge_result(false);
    session.on_conflicts_checked(false);
    session.on_commit_result(false);

    assert_eq!(session.phase(), Phase::Aborted);
    let outcome = session.outcome();
    assert_eq!(
        outcome,
        RunOutcome::Fatal(FatalReason::MergeCommitFailed("feature-a".to_string()))
    );
    assert_eq!(exit_code(&outcome), 1);
}

#[test]
fn fetch_failure_aborts_before_anything_else() {
    let mut session = Session::new("ready".to_string(), "release".to_string());
    session.on_fetch_result(false);
    assert_eq!(session.phase(), Phase::Aborted);
    let outcome = session.outcome();
    assert_eq!(outcome, RunOutcome::Fatal(FatalReason::FetchFailed));
    assert_eq!(exit_code(&outcome), 1);
}

#[test]
fn checkout_failure_aborts() {
    let mut session = Session::new("ready".to_string(), "release".to_string());
    session.on_fetch_result(true);
    session.on_checkout_result(false);
    assert_eq!(session.phase(), Phase::Aborted);
    assert_eq!(
        session.outcome(),
        RunOutcome::Fatal(FatalReason::CheckoutFailed)
    );
}

#[test]
fn resolution_error_aborts() {
    let mut session = Session::new("ready".to_string(), "release".to_string());
    session.on_fetch_result(true);
    session.on_checkout_result(true);
    session.on_resolution(Err(ResolutionError::Transport));
    assert_eq!(session.phase(), Phase::Aborted);
    let outcome = session.outcome();
    assert_eq!(
        outcome,
        RunOutcome::Fatal(FatalReason::ResolutionFailed(ResolutionError::Transport))
    );
    assert_eq!(exit_code(&outcome), 1);
}

#[test]
fn rerunning_with_the_same_inputs_reproduces_the_plan() {
    let first = session_after_setup(vec!["feature-a", "feature-b"]);
    let second = session_after_setup(vec!["feature-a", "feature-b"]);
    assert_eq!(first.phase(), second.phase());
    assert_eq!(first.dest_branch(), second.dest_branch());
    assert_eq!(first.label(), second.label());
    assert_eq!(first.current_branch(), second.current_branch());
}

#[test]
fn classification_reads_status_not_exit_code() {
    assert_eq!(classify_merge(true, false, false), MergeOutcome::Clean);
    assert_eq!(classify_merge(true, true, true), MergeOutcome::Clean);
    assert_eq!(classify_merge(false, true, true), MergeOutcome::Conflict);
    assert_eq!(classify_merge(false, true, false), MergeOutcome::Conflict);
    assert_eq!(classify_merge(false, false, true), MergeOutcome::Clean);
    assert_eq!(classify_merge(false, false, false), MergeOutcome::CommitFailed);
}

#[test]
fn conflicted_paths_are_found_anywhere_in_the_status() {
    assert!(!any_conflicted(&vec![]));
    assert!(!any_conflicted(&vec![false, false, false]));
    assert!(any_conflicted(&vec![false, true, false]));
    assert!(any_conflicted(&vec![true]));
}

#[test]
fn every_fatal_condition_exits_one() {
    assert_eq!(exit_code(&RunOutcome::Success), 0);
    for reason in [
        FatalReason::FetchFailed,
        FatalReason::CheckoutFailed,
        FatalReason::ResolutionFailed(ResolutionError::Decode),
        FatalReason::MergeConflict("feature-a".to_string()),
        FatalReason::MergeCommitFailed("feature-a".to_string()),
    ] {
        assert_eq!(exit_code(&RunOutcome::Fatal(reason)), 1);
    }
}
