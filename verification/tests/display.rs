use actioneer::api::error::GitHubError;
use actioneer::api::models::{Job, RateLimitInfo, Repo, RepoPermissions, User, Workflow, WorkflowRun};
use actioneer::collections::IdMap;
use actioneer::ui::rate_limit::rate_limit_label_text;
use actioneer::ui::run_display::{
    expanded_workflow_id, format_run_title, get_job_status_class, get_job_status_icon, get_run_status_class,
    get_run_status_icon, has_active_runs, job_display_name, mark_expander_name, recent_runs_label,
    run_row_details, run_row_status, runs_to_show, workflow_expander_name, workflows_differ,
};
use actioneer::ui::state::{
    actions_state_for, actions_state_from_check, reconcile_actions_states, reconcile_workflow_counts,
    record_actions_check, record_workflow_counts,
    status_check_batch, RepoActionsState, WorkflowStatusCounts,
};

fn run(status: Option<&str>, conclusion: Option<&str>) -> WorkflowRun {
    WorkflowRun {
        id: 1,
        run_number: None,
        name: None,
        display_title: None,
        head_branch: None,
        status: status.map(String::from),
        conclusion: conclusion.map(String::from),
        run_started_at: None,
        event: None,
        created_at: None,
        updated_at: None,
        html_url: None,
    }
}

fn job(status: Option<&str>, conclusion: Option<&str>) -> Job {
    Job {
        id: 1,
        run_id: 1,
        status: status.map(String::from),
        conclusion: conclusion.map(String::from),
        started_at: None,
        completed_at: None,
        name: None,
        html_url: None,
    }
}

fn wf(id: i64) -> Workflow {
    Workflow { id, name: "w".to_string(), path: "p".to_string() }
}

fn repo(id: i64, permissions: Option<RepoPermissions>) -> Repo {
    Repo {
        id,
        name: "r".to_string(),
        full_name: "o/r".to_string(),
        owner: User { login: "o".to_string() },
        is_private: true,
        permissions,
    }
}

#[test]
fn run_titles() {
    let mut r = run(None, None);
    assert_eq!(format_run_title(&r), "Workflow Run");
    r.name = Some("CI".to_string());
    assert_eq!(format_run_title(&r), "CI");
    r.display_title = Some("Fix bug".to_string());
    r.run_number = Some(17);
    assert_eq!(format_run_title(&r), "Fix bug #17");
}

#[test]
fn run_icons_and_classes() {
    assert_eq!(get_run_status_icon(&run(Some("completed"), Some("success"))), "emblem-ok-symbolic");
    assert_eq!(get_run_status_icon(&run(Some("completed"), Some("failure"))), "process-stop-symbolic");
    assert_eq!(get_run_status_icon(&run(Some("completed"), Some("cancelled"))), "process-stop-symbolic");
    assert_eq!(get_run_status_icon(&run(Some("completed"), Some("skipped"))), "dialog-question-symbolic");
    assert_eq!(get_run_status_icon(&run(Some("queued"), None)), "alarm-symbolic");
    assert_eq!(get_run_status_icon(&run(Some("waiting"), None)), "alarm-symbolic");
    assert_eq!(get_run_status_icon(&run(Some("in_progress"), None)), "emblem-synchronizing-symbolic");
    assert_eq!(get_run_status_icon(&run(None, None)), "dialog-question-symbolic");
    assert_eq!(get_run_status_class(&run(Some("completed"), Some("success"))), "success");
    assert_eq!(get_run_status_class(&run(Some("completed"), Some("failure"))), "error");
    assert_eq!(get_run_status_class(&run(Some("completed"), Some("cancelled"))), "warning");
    assert_eq!(get_run_status_class(&run(Some("in_progress"), Some("neutral"))), "");
    assert_eq!(get_run_status_class(&run(Some("in_progress"), None)), "accent");
    assert_eq!(get_run_status_class(&run(Some("queued"), None)), "warning");
    assert_eq!(get_run_status_class(&run(Some("waiting"), None)), "");
    assert_eq!(get_job_status_icon(&job(Some("in_progress"), None)), "emblem-synchronizing-symbolic");
    assert_eq!(get_job_status_class(&job(Some("queued"), None)), "warning");
    assert_eq!(get_job_status_icon(&job(Some("queued"), None)), "alarm-symbolic");
    assert_eq!(get_job_status_class(&job(Some("completed"), Some("failure"))), "error");
    assert_eq!(job_display_name(&job(None, None)), "Unnamed job");
}

#[test]
fn run_rows() {
    assert_eq!(run_row_status(&run(Some("completed"), Some("success"))), ("emblem-ok-symbolic", "success"));
    assert_eq!(run_row_status(&run(Some("in_progress"), Some("failure"))), ("emblem-synchronizing-symbolic", "accent"));
    assert_eq!(run_row_status(&run(Some("queued"), None)), ("alarm-symbolic", "warning"));
    assert_eq!(run_row_status(&run(Some("completed"), Some("failure"))), ("process-stop-symbolic", "error"));
    assert_eq!(run_row_status(&run(Some("waiting"), None)), ("help-about-symbolic", ""));
    let mut r = run(None, None);
    assert_eq!(run_row_details(&r), None);
    r.head_branch = Some("main".to_string());
    r.run_number = Some(5);
    assert_eq!(run_row_details(&r), Some("Branch: main • Run #5".to_string()));
    r.event = Some("push".to_string());
    assert_eq!(run_row_details(&r), Some("Branch: main • Event: push • Run #5".to_string()));
}

#[test]
fn workflow_lists() {
    assert!(!workflows_differ(&[wf(1), wf(2)], &[wf(2), wf(1)]));
    assert!(workflows_differ(&[wf(1)], &[wf(1), wf(2)]));
    assert!(workflows_differ(&[wf(1), wf(1)], &[wf(1), wf(2)]));
    assert!(!workflows_differ(&[], &[]));
    let shown = [wf(3), wf(4)];
    let fresh = [wf(4), wf(5)];
    assert!(!workflows_differ(&shown, &shown));
    assert_eq!(workflows_differ(&shown, &fresh), workflows_differ(&fresh, &shown));
}

#[test]
fn expander_names() {
    assert_eq!(workflow_expander_name(123), "workflow_123");
    assert_eq!(expanded_workflow_id("workflow_123"), Some(123));
    assert_eq!(expanded_workflow_id("workflow_123_ACTIVE"), None);
    assert_eq!(expanded_workflow_id("flow_1"), None);
    assert_eq!(mark_expander_name("workflow_5", true), "workflow_5_ACTIVE");
    assert_eq!(mark_expander_name("workflow_5_ACTIVE_ACTIVE", false), "workflow_5");
    assert_eq!(mark_expander_name("workflow_5_ACTIVE", true), "workflow_5_ACTIVE");
    assert_eq!(recent_runs_label(3), "Recent runs (3)");
}

#[test]
fn expander_marks_follow_the_latest_reload() {
    let name = workflow_expander_name(42);
    let active = mark_expander_name(&name, true);
    assert_eq!(active, "workflow_42_ACTIVE");
    assert_eq!(mark_expander_name(&active, true), mark_expander_name(&name, true));
    assert_eq!(mark_expander_name(&active, false), mark_expander_name(&name, false));
    let settled = mark_expander_name(&active, false);
    assert_eq!(expanded_workflow_id(&settled), Some(42));
    assert_eq!(expanded_workflow_id(&mark_expander_name(&workflow_expander_name(-7), false)), Some(-7));
}

#[test]
fn run_lists() {
    let runs: Vec<WorkflowRun> = (0..12).map(|_| run(Some("completed"), Some("success"))).collect();
    assert_eq!(runs_to_show(&runs), 10);
    assert!(!has_active_runs(&runs));
    let mut more = runs.clone();
    more.push(run(Some("waiting"), None));
    assert!(has_active_runs(&more));
}

#[test]
fn rate_limit_labels() {
    assert_eq!(rate_limit_label_text(None, 0, 0), "Rate limit: –");
    let info = RateLimitInfo { limit: 5000, remaining: 4321, reset: 1_000_000 };
    assert_eq!(rate_limit_label_text(Some(info), 1_000_000 - 30, 0), "Rate limit: 4321/5000 (resets in 30s)");
    assert_eq!(rate_limit_label_text(Some(info), 1_000_000 - 30, 500_000_000), "Rate limit: 4321/5000 (resets in 29s)");
    assert_eq!(rate_limit_label_text(Some(info), 1_000_000 - 600, 0), "Rate limit: 4321/5000 (resets in 10m)");
    assert_eq!(rate_limit_label_text(Some(info), 1_000_000 - 7300, 0), "Rate limit: 4321/5000 (resets in 2h)");
    assert_eq!(rate_limit_label_text(Some(info), 1_000_001, 0), "Rate limit: 4321/5000 (resets in now)");
    assert_eq!(rate_limit_label_text(Some(info), 1_000_000, 400), "Rate limit: 4321/5000 (resets in 0s)");
    let far = RateLimitInfo { limit: 1, remaining: 1, reset: i64::MAX };
    assert_eq!(rate_limit_label_text(Some(far), 0, 0), "Rate limit: 1/1 (resets in 0s)");
}

#[test]
fn repository_state_tables() {
    let push_only = Some(RepoPermissions { admin: false, push: true, pull: true });
    let read_only = Some(RepoPermissions { admin: false, push: false, pull: true });
    assert_eq!(actions_state_for(push_only), RepoActionsState::Enabled);
    assert_eq!(actions_state_for(read_only), RepoActionsState::Disabled);
    assert_eq!(actions_state_for(None), RepoActionsState::Unknown);
    assert_eq!(actions_state_from_check(false), RepoActionsState::Disabled);

    let mut states: IdMap<RepoActionsState> = IdMap::new();
    states.insert(1, RepoActionsState::Disabled);
    states.insert(2, RepoActionsState::Enabled);
    reconcile_actions_states(&mut states, &vec![repo(1, push_only), repo(3, read_only), repo(3, push_only)]);
    assert_eq!(states.get(&1), Some(&RepoActionsState::Disabled));
    assert_eq!(states.get(&2), None);
    assert_eq!(states.get(&3), Some(&RepoActionsState::Disabled));

    let mut counts: IdMap<WorkflowStatusCounts> = IdMap::new();
    counts.insert(9, WorkflowStatusCounts { active: 2, failed: 1 });
    counts.insert(8, WorkflowStatusCounts { active: 1, failed: 0 });
    reconcile_workflow_counts(&mut counts, &vec![repo(9, None), repo(4, None)]);
    assert_eq!(counts.get(&9).map(|c| (c.active, c.failed)), Some((2, 1)));
    assert_eq!(counts.get(&4).map(|c| (c.active, c.failed)), Some((0, 0)));
    assert!(counts.get(&8).is_none());

    let batch = status_check_batch((0..25).map(|i| repo(i, None)).collect());
    assert_eq!(batch.len(), 20);
    assert_eq!(batch[19].id, 19);
}

#[test]
fn refreshing_twice_with_the_same_list_changes_nothing() {
    let push_only = Some(RepoPermissions { admin: false, push: true, pull: true });
    let repos = vec![repo(1, push_only), repo(2, None)];
    let mut states: IdMap<RepoActionsState> = IdMap::new();
    states.insert(2, RepoActionsState::Disabled);
    states.insert(7, RepoActionsState::Enabled);
    reconcile_actions_states(&mut states, &repos);
    let first: Vec<(i64, Option<RepoActionsState>)> = (0..8).map(|id| (id, states.get(&id).copied())).collect();
    reconcile_actions_states(&mut states, &repos);
    let second: Vec<(i64, Option<RepoActionsState>)> = (0..8).map(|id| (id, states.get(&id).copied())).collect();
    assert_eq!(first, second);
    assert_eq!(states.get(&1), Some(&RepoActionsState::Enabled));
    assert_eq!(states.get(&2), Some(&RepoActionsState::Disabled));
    assert_eq!(states.get(&7), None);
}

#[test]
fn background_checks_update_only_on_success() {
    let mut states: IdMap<RepoActionsState> = IdMap::new();
    states.insert(1, RepoActionsState::Unknown);
    record_actions_check(&mut states, 1, &Ok(false));
    assert_eq!(states.get(&1), Some(&RepoActionsState::Disabled));
    record_actions_check(&mut states, 1, &Err(GitHubError::NotFound));
    assert_eq!(states.get(&1), Some(&RepoActionsState::Disabled));
    record_actions_check(&mut states, 2, &Ok(true));
    assert_eq!(states.get(&2), Some(&RepoActionsState::Enabled));

    let mut counts: IdMap<WorkflowStatusCounts> = IdMap::new();
    record_workflow_counts(&mut counts, 5, Ok(WorkflowStatusCounts { active: 3, failed: 1 }));
    record_workflow_counts(&mut counts, 5, Err(GitHubError::RateLimitExceeded));
    assert_eq!(counts.get(&5).map(|c| (c.active, c.failed)), Some((3, 1)));
}
