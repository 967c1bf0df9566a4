//! Job endpoints: the jobs of a run and the logs of a job.
use crate::api::error::{fails_with_message, GitHubError};
use crate::api::http::{
    is_status_code, is_success_status, repo_endpoint, repo_id_url, status_display, status_error,
};
use crate::text::decimal_text;
use vstd::prelude::*;

verus! {

/// `<base>/repos/<owner>/<repo>/actions/runs/<id>/jobs`.
pub fn run_jobs_url(owner: &str, repo: &str, run_id: i64) -> (url: String)
    ensures
        url@ == repo_endpoint(owner@, repo@) + "/actions/runs/"@ + decimal_text(run_id as int)
            + "/jobs"@,
{
    repo_id_url(owner, repo, "/actions/runs/", run_id, "/jobs")
}

/// `<base>/repos/<owner>/<repo>/actions/jobs/<id>/logs`.
pub fn job_logs_url(owner: &str, repo: &str, job_id: i64) -> (url: String)
    ensures
        url@ == repo_endpoint(owner@, repo@) + "/actions/jobs/"@ + decimal_text(job_id as int)
            + "/logs"@,
{
    repo_id_url(owner, repo, "/actions/jobs/", job_id, "/logs")
}

/// Logs are read from any 2xx response; otherwise the error says
/// `Failed to fetch logs: <status>`.
pub fn job_logs_outcome(status: u16) -> (r: Result<(), GitHubError>)
    requires
        is_status_code(status),
    ensures
        is_success_status(status) ==> r is Ok,
        !is_success_status(status) ==> fails_with_message(
            r,
            "Failed to fetch logs: "@ + status_display(status),
        ),
{
    if 200 <= status && status <= 299 {
        Ok(())
    } else {
        Err(status_error("Failed to fetch logs: ", status))
    }
}

} // verus!
