use actioneer::api::error::GitHubError;
use actioneer::api::http::{api_error, auth_header_value, handle_status, ResponseAction, ResponseHandler};
use actioneer::api::jobs::{job_logs_outcome, job_logs_url, run_jobs_url};
use actioneer::api::models::{RateLimitInfo, Repo, User};
use actioneer::api::repos::{
    actions_permissions_url, is_actions_enabled_step, list_repos_query, permissions_from_cache,
    permissions_parse_error, user_repos_url, PermissionsStep, RepoListing,
};
use actioneer::api::runs::{
    cancel_run_outcome, cancel_run_url, list_runs_query, rerun_failed_jobs_outcome, rerun_failed_jobs_url,
    rerun_workflow_outcome, rerun_workflow_url, workflow_runs_url,
};
use actioneer::api::workflows::{dispatch_body, dispatch_workflow_outcome, dispatch_workflow_url, workflows_url};

fn repo(id: i64) -> Repo {
    Repo {
        id,
        name: format!("repo{}", id),
        full_name: format!("owner/repo{}", id),
        owner: User { login: "owner".to_string() },
        is_private: false,
        permissions: None,
    }
}

#[test]
fn endpoint_urls() {
    assert_eq!(user_repos_url(), "https://api.github.com/user/repos");
    assert_eq!(actions_permissions_url("o", "r"), "https://api.github.com/repos/o/r/actions/permissions");
    assert_eq!(workflows_url("o", "r"), "https://api.github.com/repos/o/r/actions/workflows");
    assert_eq!(workflow_runs_url("o", "r", 456), "https://api.github.com/repos/o/r/actions/workflows/456/runs");
    assert_eq!(run_jobs_url("o", "r", 77), "https://api.github.com/repos/o/r/actions/runs/77/jobs");
    assert_eq!(job_logs_url("o", "r", 5), "https://api.github.com/repos/o/r/actions/jobs/5/logs");
    assert_eq!(rerun_workflow_url("o", "r", 9), "https://api.github.com/repos/o/r/actions/runs/9/rerun");
    assert_eq!(
        rerun_failed_jobs_url("o", "r", 9),
        "https://api.github.com/repos/o/r/actions/runs/9/rerun-failed-jobs"
    );
    assert_eq!(cancel_run_url("o", "r", -3), "https://api.github.com/repos/o/r/actions/runs/-3/cancel");
    assert_eq!(
        dispatch_workflow_url("o", "r", "ci.yml"),
        "https://api.github.com/repos/o/r/actions/workflows/ci.yml/dispatches"
    );
}

#[test]
fn query_parameters() {
    let q = list_repos_query(3);
    let pairs: Vec<(&str, &str)> = q.iter().map(|(a, b)| (a.as_str(), b.as_str())).collect();
    assert_eq!(
        pairs,
        vec![
            ("per_page", "100"),
            ("page", "3"),
            ("affiliation", "owner,collaborator,organization_member"),
            ("sort", "updated")
        ]
    );
    assert_eq!(list_runs_query(), vec![("per_page".to_string(), "50".to_string())]);
}

#[test]
fn bearer_header() {
    assert_eq!(auth_header_value(&Some("abc".to_string())), Some("Bearer abc".to_string()));
    assert_eq!(auth_header_value(&None), None);
}

#[test]
fn json_status_handling() {
    assert_eq!(handle_status(200), ResponseAction::Decode);
    assert_eq!(handle_status(201), ResponseAction::Decode);
    assert_eq!(handle_status(401), ResponseAction::Fail(GitHubError::AuthenticationFailed));
    assert_eq!(handle_status(403), ResponseAction::Fail(GitHubError::AuthenticationFailed));
    assert_eq!(handle_status(404), ResponseAction::Fail(GitHubError::NotFound));
    assert_eq!(handle_status(429), ResponseAction::Fail(GitHubError::RateLimitExceeded));
    assert_eq!(handle_status(500), ResponseAction::ReportBody);
    assert_eq!(handle_status(204), ResponseAction::ReportBody);
    assert_eq!(
        api_error(500, "boom"),
        GitHubError::ApiError("Status 500 Internal Server Error: boom".to_string())
    );
    assert_eq!(
        api_error(404, "missing"),
        GitHubError::ApiError("Status 404 Not Found: missing".to_string())
    );
    assert_eq!(
        api_error(799, ""),
        GitHubError::ApiError("Status 799 <unknown status code>: ".to_string())
    );
}

#[test]
fn action_outcomes() {
    assert_eq!(rerun_workflow_outcome(201), Ok(()));
    assert_eq!(
        rerun_workflow_outcome(403),
        Err(GitHubError::ApiError("Failed to rerun workflow: 403 Forbidden".to_string()))
    );
    assert_eq!(
        rerun_failed_jobs_outcome(500),
        Err(GitHubError::ApiError("Failed to rerun failed jobs: 500 Internal Server Error".to_string()))
    );
    assert_eq!(cancel_run_outcome(202), Ok(()));
    assert_eq!(
        cancel_run_outcome(200),
        Err(GitHubError::ApiError("Failed to cancel run: 200 OK".to_string()))
    );
    assert_eq!(dispatch_workflow_outcome(204), Ok(()));
    assert_eq!(
        dispatch_workflow_outcome(200),
        Err(GitHubError::ApiError("Failed to dispatch workflow: 200 OK".to_string()))
    );
    assert_eq!(job_logs_outcome(200), Ok(()));
    assert_eq!(
        job_logs_outcome(404),
        Err(GitHubError::ApiError("Failed to fetch logs: 404 Not Found".to_string()))
    );
}

#[test]
fn actions_permission_steps() {
    assert_eq!(is_actions_enabled_step(200), PermissionsStep::Decode);
    assert_eq!(is_actions_enabled_step(304), PermissionsStep::UseCached);
    assert_eq!(is_actions_enabled_step(404), PermissionsStep::Decided(Ok(true)));
    assert_eq!(is_actions_enabled_step(403), PermissionsStep::Decided(Ok(true)));
    assert_eq!(is_actions_enabled_step(401), PermissionsStep::Decided(Err(GitHubError::AuthenticationFailed)));
    assert_eq!(is_actions_enabled_step(502), PermissionsStep::ReportBody);
    assert_eq!(permissions_from_cache(Some(false)), Ok(false));
    assert_eq!(
        permissions_from_cache(None),
        Err(GitHubError::ApiError("Permissions response cache miss".to_string()))
    );
    assert_eq!(
        permissions_parse_error("missing field"),
        GitHubError::ApiError("Failed to parse permissions response: missing field".to_string())
    );
}

#[test]
fn rate_limit_headers() {
    let mut handler = ResponseHandler::new(None);
    assert_eq!(handler.get_rate_limit(), None);
    handler.update_rate_limit(Some("5000"), Some("4999"), Some("1700000000"));
    assert_eq!(handler.get_rate_limit(), Some(RateLimitInfo { limit: 5000, remaining: 4999, reset: 1700000000 }));
    // A missing or malformed header leaves the last information in place.
    handler.update_rate_limit(Some("5000"), None, Some("1"));
    handler.update_rate_limit(Some("5000"), Some("12x"), Some("1"));
    handler.update_rate_limit(Some(""), Some("1"), Some("1"));
    assert_eq!(handler.get_rate_limit().map(|i| i.remaining), Some(4999));
    handler.update_rate_limit(Some("+60"), Some("-1"), Some("0"));
    assert_eq!(handler.get_rate_limit(), Some(RateLimitInfo { limit: 60, remaining: -1, reset: 0 }));
}

#[test]
fn repository_pages_are_gathered_until_a_short_page() {
    let mut listing = RepoListing::new();
    assert_eq!(listing.next_page(), Some(1));
    listing.receive_page((0..100).map(repo).collect());
    assert_eq!(listing.next_page(), Some(2));
    listing.receive_page((100..130).map(repo).collect());
    assert_eq!(listing.next_page(), None);
    let all = listing.into_repos();
    assert_eq!(all.len(), 130);
    assert_eq!(all[0].id, 0);
    assert_eq!(all[129].id, 129);
}

fn serde_body(ref_name: &str, inputs: Option<serde_json::Value>) -> String {
    let mut map = serde_json::Map::new();
    map.insert("ref".to_string(), serde_json::Value::String(ref_name.to_string()));
    if let Some(inputs) = inputs {
        map.insert("inputs".to_string(), inputs);
    }
    serde_json::Value::Object(map).to_string()
}

#[test]
fn dispatch_body_is_the_json_serde_writes() {
    assert_eq!(dispatch_body("main", None), "{\"ref\":\"main\"}");
    for r in ["main", "fe\"at\\ure", "line\nbreak\ttab\r", "\u{1}\u{8}\u{c}\u{1f}", "naïve ✓"] {
        assert_eq!(dispatch_body(r, None), serde_body(r, None), "ref {:?}", r);
    }
    let mut inputs = serde_json::Map::new();
    inputs.insert("level".to_string(), serde_json::Value::String("debug".to_string()));
    let inputs = serde_json::Value::Object(inputs);
    let text = inputs.to_string();
    assert_eq!(dispatch_body("v1", Some(&text)), serde_body("v1", Some(inputs)));
    assert_eq!(dispatch_body("v1", Some(&text)), "{\"inputs\":{\"level\":\"debug\"},\"ref\":\"v1\"}");
}
