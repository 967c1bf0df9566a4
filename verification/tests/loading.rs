use actioneer::api::error::GitHubError;
use actioneer::api::models::WorkflowRun;
use actioneer::cache::DataCache;
use actioneer::ui::run_display::{mark_expander_name, workflow_expander_name};
use actioneer::ui::run_loading::{cache_key, expand_jobs, record_fetched_runs, runs_from_cache};
use actioneer::ui::workflow_list::{collect_expanded_ids, should_expand};

fn run(id: i64) -> WorkflowRun {
    WorkflowRun {
        id,
        run_number: Some(id),
        name: None,
        display_title: None,
        head_branch: None,
        status: Some("completed".to_string()),
        conclusion: Some("success".to_string()),
        run_started_at: None,
        event: None,
        created_at: None,
        updated_at: None,
        html_url: None,
    }
}

#[test]
fn cache_key_joins_owner_and_repo() {
    assert_eq!(cache_key("octo", "hello"), "octo/hello");
}

#[test]
fn cached_runs_are_used_only_when_present_and_not_bypassed() {
    let mut cache = DataCache::new();
    let key = cache_key("octo", "hello");
    assert!(runs_from_cache(&cache, &key, 7, false).is_none());

    cache.store_runs(Vec::new(), &key, 7);
    assert!(runs_from_cache(&cache, &key, 7, false).is_none());

    cache.store_runs(vec![run(1), run(2)], &key, 7);
    let served = runs_from_cache(&cache, &key, 7, false).expect("cached runs");
    assert_eq!(served.iter().map(|r| r.id).collect::<Vec<_>>(), vec![1, 2]);
    assert!(runs_from_cache(&cache, &key, 7, true).is_none());
    assert!(runs_from_cache(&cache, &key, 8, false).is_none());
}

#[test]
fn fetched_runs_are_cached_and_failures_leave_the_cache() {
    let mut cache = DataCache::new();
    let key = cache_key("octo", "hello");
    record_fetched_runs(&mut cache, &key, 3, &Err(GitHubError::NotFound));
    assert!(cache.runs(&key, 3).is_none());
    record_fetched_runs(&mut cache, &key, 3, &Ok(vec![run(9)]));
    assert_eq!(cache.runs(&key, 3).map(|rs| rs.len()), Some(1));
    record_fetched_runs(&mut cache, &key, 3, &Err(GitHubError::RateLimitExceeded));
    assert_eq!(cache.runs(&key, 3).map(|rs| rs[0].id), Some(9));
}

#[test]
fn expanded_runs_stay_expanded() {
    let expanded = vec![4, 6];
    assert!(expand_jobs(&expanded, 6));
    assert!(!expand_jobs(&expanded, 5));
}

#[test]
fn open_workflows_stay_open_after_a_rebuild() {
    let names = vec![
        workflow_expander_name(11),
        mark_expander_name(&workflow_expander_name(12), true),
        mark_expander_name(&mark_expander_name(&workflow_expander_name(13), true), false),
        "something_else".to_string(),
    ];
    let ids = collect_expanded_ids(&names);
    assert!(should_expand(&ids, 11));
    assert!(should_expand(&ids, 12));
    assert!(should_expand(&ids, 13));
    assert!(!should_expand(&ids, 14));
}

#[test]
fn marked_open_workflows_stay_open_too() {
    let names = vec![mark_expander_name(&workflow_expander_name(5), true)];
    assert_eq!(names[0], "workflow_5_ACTIVE");
    let ids = collect_expanded_ids(&names);
    assert!(should_expand(&ids, 5));
}
