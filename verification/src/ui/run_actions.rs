//! The actions offered on a run in the detail view, and what follows once
//! one of them was sent: the message shown and the cache refresh.
use crate::api::models::{is_pending_status, text_is, WorkflowRun};
use crate::cache::{cached_runs, law_runs_read_after_store, with_runs, DataCache, RepoCacheView};
use crate::ui::run_loading::runs_served_from_cache;
use vstd::prelude::*;

verus! {

/// The buttons of a run's row.
#[derive(Debug, Clone, Copy, PartialEq, Eq, Structural)]
pub struct RunButtons {
    /// Re-run the whole run: offered once it has completed.
    pub rerun: bool,
    /// Re-run only the failed jobs: offered when the run failed.
    pub rerun_failed: bool,
    /// Cancel the run: offered while it is queued, waiting or in progress.
    pub cancel: bool,
    /// Open the run on GitHub: offered for every run.
    pub open_in_github: bool,
}

/// The buttons a run's row offers.
pub open spec fn buttons_for(run: WorkflowRun) -> RunButtons {
    RunButtons {
        rerun: text_is(run.status, "completed"@),
        rerun_failed: text_is(run.conclusion, "failure"@),
        cancel: is_pending_status(run.status),
        open_in_github: true,
    }
}

/// Each button depends on one thing alone: re-run is offered exactly for a
/// completed run, whatever its conclusion; cancel exactly while the run is
/// queued, in progress or waiting; re-run-failed exactly when it concluded
/// in failure; open-in-GitHub always. So two runs with the same status offer
/// the same re-run and cancel buttons, and two runs with the same
/// conclusion the same re-run-failed button.
pub proof fn law_buttons_follow_the_run(a: WorkflowRun, b: WorkflowRun)
    ensures
        buttons_for(a).rerun <==> (a.status matches Some(s) && s@ == "completed"@),
        buttons_for(a).cancel <==> (a.status matches Some(s) && (s@ == "queued"@ || s@
            == "in_progress"@ || s@ == "waiting"@)),
        buttons_for(a).rerun_failed <==> (a.conclusion matches Some(c) && c@ == "failure"@),
        buttons_for(a).open_in_github,
        a.status == b.status ==> buttons_for(a).rerun == buttons_for(b).rerun && buttons_for(a).cancel
            == buttons_for(b).cancel,
        a.conclusion == b.conclusion ==> buttons_for(a).rerun_failed == buttons_for(b).rerun_failed,
{
}

/// Decides which buttons a run's row offers.
pub fn run_buttons(run: &WorkflowRun) -> (b: RunButtons)
    ensures
        b == buttons_for(*run),
{
    RunButtons {
        rerun: run.is_rerunnable(),
        rerun_failed: run.has_failed_jobs(),
        cancel: run.is_cancellable(),
        open_in_github: true,
    }
}

/// An action sent for a run.
#[derive(Debug, Clone, Copy, PartialEq, Eq, Structural)]
pub enum RunAction {
    Rerun,
    RerunFailedJobs,
    Cancel,
}

/// The message shown after an action: on success a check mark, what was
/// done and the run's title; on failure a cross and what failed.
pub open spec fn action_message(action: RunAction, ok: bool, run_title: Seq<char>) -> Seq<char> {
    if ok {
        match action {
            RunAction::Rerun => "✓ Re-running '"@ + run_title + "'"@,
            RunAction::RerunFailedJobs => "✓ Re-running failed jobs for '"@ + run_title + "'"@,
            RunAction::Cancel => "✓ Cancelled run '"@ + run_title + "'"@,
        }
    } else {
        match action {
            RunAction::Rerun => "✗ Failed to re-run workflow"@,
            RunAction::RerunFailedJobs => "✗ Failed to re-run failed jobs"@,
            RunAction::Cancel => "✗ Failed to cancel run"@,
        }
    }
}

/// How long a message stays, in seconds: three after a success, five after
/// a failure.
pub open spec fn action_message_seconds(ok: bool) -> u32 {
    if ok {
        3
    } else {
        5
    }
}

/// The message shown after an action and how many seconds it stays.
pub fn action_toast(action: RunAction, ok: bool, run_title: &str) -> (t: (String, u32))
    ensures
        t.0@ == action_message(action, ok, run_title@),
        t.1 == action_message_seconds(ok),
{
    if ok {
        let mut m = match action {
            RunAction::Rerun => String::from_str("✓ Re-running '"),
            RunAction::RerunFailedJobs => String::from_str("✓ Re-running failed jobs for '"),
            RunAction::Cancel => String::from_str("✓ Cancelled run '"),
        };
        m.append(run_title);
        m.append("'");
        (m, 3)
    } else {
        let m = match action {
            RunAction::Rerun => String::from_str("✗ Failed to re-run workflow"),
            RunAction::RerunFailedJobs => String::from_str("✗ Failed to re-run failed jobs"),
            RunAction::Cancel => String::from_str("✗ Failed to cancel run"),
        };
        (m, 5)
    }
}

/// After an action was sent: when it succeeded, the workflow's cached runs
/// are emptied (and with them its cached jobs), so that the next load asks
/// the API; when it failed, the cache stays as it was.
pub fn after_run_action(cache: &mut DataCache, key: &str, workflow_id: i64, ok: bool)
    ensures
        ok ==> final(cache)@ == with_runs(old(cache)@, key@, workflow_id, Seq::empty()),
        !ok ==> final(cache)@ == old(cache)@,
{
    if ok {
        let empty: Vec<WorkflowRun> = Vec::new();
        proof {
            assert(empty@ =~= Seq::<WorkflowRun>::empty());
        }
        cache.store_runs(empty, key, workflow_id);
    }
}

/// After a successful action the next load of the workflow's runs asks the
/// API instead of showing the cached runs.
pub proof fn law_action_forces_fresh_runs(
    m: Map<Seq<char>, RepoCacheView>,
    key: Seq<char>,
    workflow_id: i64,
)
    ensures
        runs_served_from_cache(
            cached_runs(with_runs(m, key, workflow_id, Seq::empty()), key, workflow_id),
            false,
        ) is None,
{
    law_runs_read_after_store(m, key, workflow_id, Seq::empty());
}

} // verus!
