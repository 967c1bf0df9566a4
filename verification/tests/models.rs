use actioneer::api::models::{RateLimitInfo, WorkflowRun};
use actioneer::ui::{is_run_active, is_run_failure};

fn run_with(status: Option<&str>, conclusion: Option<&str>) -> WorkflowRun {
    WorkflowRun {
        id: 7,
        run_number: Some(3),
        name: Some("CI".to_string()),
        display_title: None,
        head_branch: Some("main".to_string()),
        status: status.map(|s| s.to_string()),
        conclusion: conclusion.map(|s| s.to_string()),
        run_started_at: None,
        event: Some("push".to_string()),
        created_at: None,
        updated_at: None,
        html_url: None,
    }
}

#[test]
fn test_rate_limit_is_low() {
    let high = RateLimitInfo { limit: 5000, remaining: 4500, reset: 1234567890 };
    assert!(!high.is_low());

    let low = RateLimitInfo { limit: 5000, remaining: 50, reset: 1234567890 };
    assert!(low.is_low());
}

#[test]
fn rate_limit_threshold_is_exclusive() {
    let at = RateLimitInfo { limit: 5000, remaining: 100, reset: 0 };
    assert!(!at.is_low());
    let below = RateLimitInfo { limit: 5000, remaining: 99, reset: 0 };
    assert!(below.is_low());
}

#[test]
fn waiting_and_queued_runs_are_active() {
    assert!(is_run_active(&run_with(Some("waiting"), None)));
    assert!(is_run_active(&run_with(Some("queued"), None)));
    assert!(!is_run_active(&run_with(None, None)));
}

#[test]
fn failure_cancelled_and_timed_out_count_as_failures() {
    assert!(is_run_failure(&run_with(Some("completed"), Some("failure"))));
    assert!(is_run_failure(&run_with(Some("completed"), Some("cancelled"))));
    assert!(is_run_failure(&run_with(Some("completed"), Some("timed_out"))));
    assert!(!is_run_failure(&run_with(Some("completed"), Some("success"))));
    assert!(!is_run_failure(&run_with(Some("in_progress"), None)));
}

#[test]
fn duplicate_copies_every_field() {
    let run = run_with(Some("completed"), Some("success"));
    let copy = run.duplicate();
    assert_eq!(copy.id, run.id);
    assert_eq!(copy.name, run.name);
    assert_eq!(copy.status, run.status);
    assert_eq!(copy.conclusion, run.conclusion);
    assert_eq!(copy.head_branch, run.head_branch);
}
