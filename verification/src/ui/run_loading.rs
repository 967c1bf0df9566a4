//! Loading the runs of a workflow in the detail view: when cached runs are
//! used, when the API is asked, and what is cached afterwards.
use crate::api::error::GitHubError;
use crate::api::models::WorkflowRun;
use crate::cache::{cached_runs, opt_seq, with_runs, DataCache};
use crate::collections::{is_listed, key_set};
use vstd::prelude::*;

verus! {

/// The cache key of a repository: `<owner>/<repo>`.
pub open spec fn repo_cache_key(owner: Seq<char>, repo: Seq<char>) -> Seq<char> {
    owner + "/"@ + repo
}

/// Builds the cache key of a repository.
pub fn cache_key(owner: &str, repo: &str) -> (key: String)
    ensures
        key@ == repo_cache_key(owner@, repo@),
{
    let mut key = String::from_str(owner);
    key.append("/");
    key.append(repo);
    key
}

/// The runs a load answers from the cache: the cached runs of the workflow,
/// unless the cache is bypassed, nothing is cached, or the cached list is
/// empty (an emptied list means the cache was invalidated).
pub open spec fn runs_served_from_cache(
    cached: Option<Seq<WorkflowRun>>,
    bypass_cache: bool,
) -> Option<Seq<WorkflowRun>> {
    match cached {
        Some(runs) => if !bypass_cache && runs.len() > 0 {
            Some(runs)
        } else {
            None
        },
        None => None,
    }
}

/// The runs to show without asking the API, or nothing when they must be
/// fetched.
pub fn runs_from_cache(cache: &DataCache, key: &str, workflow_id: i64, bypass_cache: bool) -> (r:
    Option<Vec<WorkflowRun>>)
    ensures
        opt_seq(r) == runs_served_from_cache(cached_runs(cache@, key@, workflow_id), bypass_cache),
{
    if bypass_cache {
        return None;
    }
    match cache.runs(key, workflow_id) {
        Some(runs) => if runs.len() > 0 {
            Some(runs)
        } else {
            None
        },
        None => None,
    }
}

/// Caches the runs a fetch returned; a failed fetch leaves the cache as it
/// was.
pub fn record_fetched_runs(
    cache: &mut DataCache,
    key: &str,
    workflow_id: i64,
    fetched: &Result<Vec<WorkflowRun>, GitHubError>,
)
    ensures
        match fetched {
            Ok(runs) => final(cache)@ == with_runs(old(cache)@, key@, workflow_id, runs@),
            Err(_) => final(cache)@ == old(cache)@,
        },
{
    match fetched {
        Ok(runs) => {
            let copy = crate::api::models::duplicate_runs(runs);
            cache.store_runs(copy, key, workflow_id);
        },
        Err(_) => {},
    }
}

/// Whether the jobs of a run start expanded: they were expanded before the
/// reload.
pub fn expand_jobs(expanded_run_ids: &Vec<i64>, run_id: i64) -> (expand: bool)
    ensures
        expand == key_set(expanded_run_ids@).contains(run_id),
{
    is_listed(expanded_run_ids, &run_id)
}

} // verus!
