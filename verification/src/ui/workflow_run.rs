//! Classification of workflow runs for the views.
use crate::api::models::{field_is, is_pending_status, text_is, WorkflowRun};
use vstd::prelude::*;

verus! {

/// A run concluded unsuccessfully: it failed, was cancelled or timed out.
pub open spec fn is_failed_run(run: WorkflowRun) -> bool {
    text_is(run.conclusion, "failure"@) || text_is(run.conclusion, "cancelled"@) || text_is(
        run.conclusion,
        "timed_out"@,
    )
}

/// Whether a workflow run is currently active (queued, waiting or in
/// progress).
pub fn is_run_active(run: &WorkflowRun) -> (active: bool)
    ensures
        active == is_pending_status(run.status),
{
    run.is_active()
}

/// Whether a workflow run has failed, was cancelled or timed out.
pub fn is_run_failure(run: &WorkflowRun) -> (failed: bool)
    ensures
        failed == is_failed_run(*run),
{
    field_is(&run.conclusion, "failure") || field_is(&run.conclusion, "cancelled") || field_is(
        &run.conclusion,
        "timed_out",
    )
}

} // verus!
