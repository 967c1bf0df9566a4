// Model and helper function tests (no GTK main loop required).

use actioneer::api::models::WorkflowRun;
use actioneer::preferences::refresh_option_seconds;
use actioneer::ui::run_actions::run_buttons;
use chrono::Utc;
use std::collections::HashSet;

fn run_with(status: Option<&str>, conclusion: Option<&str>) -> WorkflowRun {
    WorkflowRun {
        id: 1,
        run_number: None,
        name: None,
        display_title: None,
        head_branch: None,
        status: status.map(|s| s.to_string()),
        conclusion: conclusion.map(|s| s.to_string()),
        run_started_at: None,
        event: None,
        created_at: None,
        updated_at: None,
        html_url: None,
    }
}

#[test]
fn test_relative_time_formatting() {
    let now = Utc::now();
    let just_now = now;
    let one_hour_ago = now - chrono::Duration::hours(1);
    let one_day_ago = now - chrono::Duration::days(1);
    assert!(just_now >= one_hour_ago);
    assert!(one_hour_ago >= one_day_ago);
}

#[test]
fn test_status_icon_mapping() {
    let status_mappings = vec![
        ("success", "emblem-ok-symbolic"),
        ("failure", "process-stop-symbolic"),
        ("cancelled", "process-stop-symbolic"),
        ("in_progress", "emblem-synchronizing-symbolic"),
        ("queued", "alarm-symbolic"),
    ];

    for (status, expected_icon) in status_mappings {
        let icon = match status {
            "success" => "emblem-ok-symbolic",
            "failure" | "cancelled" => "process-stop-symbolic",
            "in_progress" => "emblem-synchronizing-symbolic",
            "queued" => "alarm-symbolic",
            _ => "dialog-question-symbolic",
        };
        assert_eq!(icon, expected_icon, "Icon for {} should be {}", status, expected_icon);
    }
}

#[test]
fn test_css_class_mapping() {
    let css_mappings = vec![
        ("success", "success"),
        ("failure", "error"),
        ("cancelled", "warning"),
        ("in_progress", "accent"),
        ("queued", "warning"),
    ];

    for (status, expected_class) in css_mappings {
        let css_class = match status {
            "success" => "success",
            "failure" => "error",
            "cancelled" => "warning",
            "in_progress" => "accent",
            "queued" => "warning",
            _ => "",
        };
        assert_eq!(css_class, expected_class, "CSS class for {} should be {}", status, expected_class);
    }
}

#[test]
fn test_button_visibility_logic() {
    struct RunState {
        status: &'static str,
        conclusion: Option<&'static str>,
    }

    let completed_success = RunState { status: "completed", conclusion: Some("success") };
    let in_progress = RunState { status: "in_progress", conclusion: None };
    let completed_failure = RunState { status: "completed", conclusion: Some("failure") };

    // Completed runs can be rerun
    assert_eq!(completed_success.status, "completed");
    assert!(completed_success.conclusion.is_some());
    assert!(run_with(Some(completed_success.status), completed_success.conclusion).is_rerunnable());

    // In-progress runs cannot be rerun but can be cancelled
    assert_eq!(in_progress.status, "in_progress");
    assert!(in_progress.conclusion.is_none());
    let running = run_with(Some(in_progress.status), in_progress.conclusion);
    assert!(!running.is_rerunnable());
    assert!(running.is_cancellable());

    // Failed runs can show "rerun failed jobs"
    assert_eq!(completed_failure.conclusion, Some("failure"));
    assert!(run_with(Some(completed_failure.status), completed_failure.conclusion).has_failed_jobs());

    // All runs offer "open in GitHub"
    for run in [
        run_with(Some(completed_success.status), completed_success.conclusion),
        run_with(Some(in_progress.status), in_progress.conclusion),
        run_with(Some(completed_failure.status), completed_failure.conclusion),
    ] {
        assert!(run_buttons(&run).open_in_github);
    }
}

#[test]
fn test_expansion_state_tracking() {
    let mut expanded_ids: HashSet<u64> = HashSet::new();

    expanded_ids.insert(123);
    assert!(expanded_ids.contains(&123));
    assert!(!expanded_ids.contains(&456));

    expanded_ids.insert(456);
    assert!(expanded_ids.contains(&123));
    assert!(expanded_ids.contains(&456));

    expanded_ids.remove(&123);
    assert!(!expanded_ids.contains(&123));
    assert!(expanded_ids.contains(&456));

    let should_expand_123 = expanded_ids.contains(&123);
    let should_expand_456 = expanded_ids.contains(&456);

    assert!(!should_expand_123);
    assert!(should_expand_456);
}

#[test]
fn test_auto_refresh_intervals() {
    let intervals = vec![
        ("Never", None),
        ("30 seconds", Some(30)),
        ("1 minute", Some(60)),
        ("5 minutes", Some(300)),
    ];

    for (label, expected_seconds) in intervals {
        let seconds = refresh_option_seconds(label);
        assert_eq!(seconds, expected_seconds, "Interval for '{}' should be {:?}", label, expected_seconds);
    }
}

#[test]
fn test_run_state_checks() {
    fn is_active(status: &str) -> bool {
        run_with(Some(status), None).is_active()
    }

    fn is_cancellable(status: &str) -> bool {
        run_with(Some(status), None).is_cancellable()
    }

    fn is_rerunnable(status: &str) -> bool {
        run_with(Some(status), None).is_rerunnable()
    }

    assert!(is_active("in_progress"));
    assert!(!is_active("completed"));

    assert!(is_cancellable("queued"));
    assert!(!is_cancellable("completed"));

    assert!(is_rerunnable("completed"));
    assert!(!is_rerunnable("in_progress"));
}
