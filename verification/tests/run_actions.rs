use actioneer::api::models::WorkflowRun;
use actioneer::cache::DataCache;
use actioneer::ui::run_actions::{action_toast, after_run_action, run_buttons, RunAction, RunButtons};
use actioneer::ui::run_loading::runs_from_cache;

fn run(id: i64, status: Option<&str>, conclusion: Option<&str>) -> WorkflowRun {
    WorkflowRun {
        id,
        run_number: None,
        name: None,
        display_title: None,
        head_branch: None,
        status: status.map(String::from),
        conclusion: conclusion.map(String::from),
        run_started_at: None,
        event: None,
        created_at: None,
        updated_at: None,
        html_url: None,
    }
}

#[test]
fn buttons_follow_the_run_state() {
    assert_eq!(
        run_buttons(&run(1, Some("completed"), Some("success"))),
        RunButtons { rerun: true, rerun_failed: false, cancel: false, open_in_github: true }
    );
    assert_eq!(
        run_buttons(&run(1, Some("in_progress"), None)),
        RunButtons { rerun: false, rerun_failed: false, cancel: true, open_in_github: true }
    );
    assert_eq!(
        run_buttons(&run(1, Some("completed"), Some("failure"))),
        RunButtons { rerun: true, rerun_failed: true, cancel: false, open_in_github: true }
    );
    assert!(run_buttons(&run(1, Some("queued"), None)).cancel);
    assert!(run_buttons(&run(1, Some("waiting"), None)).cancel);
}

#[test]
fn action_messages() {
    assert_eq!(action_toast(RunAction::Rerun, true, "CI #4"), ("✓ Re-running 'CI #4'".to_string(), 3));
    assert_eq!(
        action_toast(RunAction::RerunFailedJobs, true, "CI #4"),
        ("✓ Re-running failed jobs for 'CI #4'".to_string(), 3)
    );
    assert_eq!(action_toast(RunAction::Cancel, true, "CI #4"), ("✓ Cancelled run 'CI #4'".to_string(), 3));
    assert_eq!(action_toast(RunAction::Rerun, false, "x"), ("✗ Failed to re-run workflow".to_string(), 5));
    assert_eq!(action_toast(RunAction::RerunFailedJobs, false, "x"), ("✗ Failed to re-run failed jobs".to_string(), 5));
    assert_eq!(action_toast(RunAction::Cancel, false, "x"), ("✗ Failed to cancel run".to_string(), 5));
}

#[test]
fn a_successful_action_empties_the_cached_runs() {
    let mut cache = DataCache::new();
    cache.store_runs(vec![run(1, Some("completed"), Some("success"))], "o/r", 9);
    cache.store_jobs(Vec::new(), "o/r", 9, 1);
    after_run_action(&mut cache, "o/r", 9, false);
    assert_eq!(cache.runs("o/r", 9).map(|r| r.len()), Some(1));
    assert!(cache.jobs("o/r", 9, 1).is_some());
    after_run_action(&mut cache, "o/r", 9, true);
    assert_eq!(cache.runs("o/r", 9).map(|r| r.len()), Some(0));
    assert!(cache.jobs("o/r", 9, 1).is_none());
    assert!(runs_from_cache(&cache, "o/r", 9, false).is_none());
}
