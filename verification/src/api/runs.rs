//! Workflow-run endpoints: listing runs, re-running and cancelling them.
use crate::api::error::{fails_with_message, GitHubError};
use crate::api::http::{
    is_status_code, is_success_status, query_pair, repo_endpoint, repo_id_url, status_display,
    status_error,
};
use crate::text::decimal_text;
use vstd::prelude::*;

verus! {

/// Runs requested per workflow.
pub const RUNS_PAGE_SIZE: usize = 50;

/// `<base>/repos/<owner>/<repo>/actions/workflows/<id>/runs`.
pub fn workflow_runs_url(owner: &str, repo: &str, workflow_id: i64) -> (url: String)
    ensures
        url@ == repo_endpoint(owner@, repo@) + "/actions/workflows/"@ + decimal_text(
            workflow_id as int,
        ) + "/runs"@,
{
    repo_id_url(owner, repo, "/actions/workflows/", workflow_id, "/runs")
}

/// The query of the run list: the fifty most recent runs.
pub fn list_runs_query() -> (q: Vec<(String, String)>)
    ensures
        q@.len() == 1,
        q@[0].0@ == "per_page"@ && q@[0].1@ == "50"@,
{
    let mut q: Vec<(String, String)> = Vec::new();
    q.push(query_pair("per_page", "50"));
    q
}

/// `<base>/repos/<owner>/<repo>/actions/runs/<id>/rerun`.
pub fn rerun_workflow_url(owner: &str, repo: &str, run_id: i64) -> (url: String)
    ensures
        url@ == repo_endpoint(owner@, repo@) + "/actions/runs/"@ + decimal_text(run_id as int)
            + "/rerun"@,
{
    repo_id_url(owner, repo, "/actions/runs/", run_id, "/rerun")
}

/// `<base>/repos/<owner>/<repo>/actions/runs/<id>/rerun-failed-jobs`.
pub fn rerun_failed_jobs_url(owner: &str, repo: &str, run_id: i64) -> (url: String)
    ensures
        url@ == repo_endpoint(owner@, repo@) + "/actions/runs/"@ + decimal_text(run_id as int)
            + "/rerun-failed-jobs"@,
{
    repo_id_url(owner, repo, "/actions/runs/", run_id, "/rerun-failed-jobs")
}

/// `<base>/repos/<owner>/<repo>/actions/runs/<id>/cancel`.
pub fn cancel_run_url(owner: &str, repo: &str, run_id: i64) -> (url: String)
    ensures
        url@ == repo_endpoint(owner@, repo@) + "/actions/runs/"@ + decimal_text(run_id as int)
            + "/cancel"@,
{
    repo_id_url(owner, repo, "/actions/runs/", run_id, "/cancel")
}

/// A re-run request succeeded with any 2xx status; otherwise the error says
/// `Failed to rerun workflow: <status>`.
pub fn rerun_workflow_outcome(status: u16) -> (r: Result<(), GitHubError>)
    requires
        is_status_code(status),
    ensures
        is_success_status(status) ==> r is Ok,
        !is_success_status(status) ==> fails_with_message(
            r,
            "Failed to rerun workflow: "@ + status_display(status),
        ),
{
    if 200 <= status && status <= 299 {
        Ok(())
    } else {
        Err(status_error("Failed to rerun workflow: ", status))
    }
}

/// Re-running failed jobs succeeded with any 2xx status; otherwise the error
/// says `Failed to rerun failed jobs: <status>`.
pub fn rerun_failed_jobs_outcome(status: u16) -> (r: Result<(), GitHubError>)
    requires
        is_status_code(status),
    ensures
        is_success_status(status) ==> r is Ok,
        !is_success_status(status) ==> fails_with_message(
            r,
            "Failed to rerun failed jobs: "@ + status_display(status),
        ),
{
    if 200 <= status && status <= 299 {
        Ok(())
    } else {
        Err(status_error("Failed to rerun failed jobs: ", status))
    }
}

/// A cancellation succeeded only with 202 Accepted; otherwise the error says
/// `Failed to cancel run: <status>`.
pub fn cancel_run_outcome(status: u16) -> (r: Result<(), GitHubError>)
    requires
        is_status_code(status),
    ensures
        status == 202 ==> r is Ok,
        status != 202 ==> fails_with_message(
            r,
            "Failed to cancel run: "@ + status_display(status),
        ),
{
    if status == 202 {
        Ok(())
    } else {
        Err(status_error("Failed to cancel run: ", status))
    }
}

} // verus!
