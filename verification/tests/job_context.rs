use actioneer::ui::job_context::{retain_active_runs, take_job_context_run_ids, JobContextMap, JobRefreshContext};

fn context(workflow_id: i64, run_id: i64) -> JobRefreshContext {
    JobRefreshContext::new("owner".to_string(), "repo".to_string(), workflow_id, run_id)
}

#[test]
fn take_job_context_run_ids_removes_entries_for_workflow() {
    let mut job_contexts: JobContextMap = JobContextMap::new();
    job_contexts.insert(1, context(42, 1));
    job_contexts.insert(2, context(42, 2));
    job_contexts.insert(99, context(7, 99));

    let removed_ids = take_job_context_run_ids(&mut job_contexts, 42);
    assert_eq!(removed_ids.len(), 2);
    assert!(removed_ids.contains(&1));
    assert!(removed_ids.contains(&2));

    assert!(!job_contexts.contains_key(&1));
    assert!(!job_contexts.contains_key(&2));
    assert!(job_contexts.contains_key(&99));
}

#[test]
fn reloading_runs_keeps_only_active_contexts() {
    let mut job_contexts: JobContextMap = JobContextMap::new();
    job_contexts.insert(1, context(42, 1));
    job_contexts.insert(2, context(42, 2));
    job_contexts.insert(3, context(8, 3));
    retain_active_runs(&mut job_contexts, 42, &vec![2, 5]);
    assert!(!job_contexts.contains_key(&1));
    assert!(job_contexts.contains_key(&2));
    assert!(job_contexts.contains_key(&3));
    assert_eq!(job_contexts.get(&2).map(|c| c.workflow_id()), Some(42));
}

#[test]
fn contexts_keep_their_fields() {
    let c = context(4, 9);
    assert_eq!(c.workflow_id(), 4);
    assert_eq!(c.run_id(), 9);
    assert_eq!(c.owner(), "owner");
    assert_eq!(c.repo(), "repo");
}
