//! Per-repository state of the repository list: whether Actions is enabled,
//! and how many workflow runs are active or failed.
use crate::api::error::GitHubError;
use crate::api::models::{Repo, RepoPermissions};
use crate::collections::{key_set, IdMap};
use vstd::prelude::*;

verus! {

/// Whether GitHub Actions is enabled for a repository.
#[derive(Clone, Copy, Debug, PartialEq, Eq, Structural)]
pub enum RepoActionsState {
    Enabled,
    Disabled,
    Unknown,
}

/// Workflow status counts for a repository.
#[derive(Clone, Debug)]
pub struct WorkflowStatusCounts {
    pub active: usize,
    pub failed: usize,
}

impl Default for WorkflowStatusCounts {
    fn default() -> (c: WorkflowStatusCounts)
        ensures
            c.active == 0,
            c.failed == 0,
    {
        WorkflowStatusCounts { active: 0, failed: 0 }
    }
}

/// At most this many repositories get their status checked in the
/// background.
pub const MAX_REPOS_FOR_STATUS: usize = 20;

/// The state a repository starts in, from its permissions: enabled with push
/// or admin rights, disabled with lesser rights, unknown without
/// permission data.
pub open spec fn initial_actions_state(permissions: Option<RepoPermissions>) -> RepoActionsState {
    match permissions {
        Some(p) => if p.push || p.admin {
            RepoActionsState::Enabled
        } else {
            RepoActionsState::Disabled
        },
        None => RepoActionsState::Unknown,
    }
}

pub fn actions_state_for(permissions: Option<RepoPermissions>) -> (s: RepoActionsState)
    ensures
        s == initial_actions_state(permissions),
{
    match permissions {
        Some(p) => if p.push || p.admin {
            RepoActionsState::Enabled
        } else {
            RepoActionsState::Disabled
        },
        None => RepoActionsState::Unknown,
    }
}

/// The state recorded after a background check of the Actions permission.
pub fn actions_state_from_check(enabled: bool) -> (s: RepoActionsState)
    ensures
        s == (if enabled {
            RepoActionsState::Enabled
        } else {
            RepoActionsState::Disabled
        }),
{
    if enabled {
        RepoActionsState::Enabled
    } else {
        RepoActionsState::Disabled
    }
}

/// The ids of a list of repositories.
pub open spec fn repo_ids(repos: Seq<Repo>) -> Set<i64> {
    Set::new(|id: i64| exists|i: int| 0 <= i < repos.len() && (#[trigger] repos[i]).id == id)
}

/// The position of the first repository with id `id`.
pub open spec fn first_with_id(repos: Seq<Repo>, id: i64) -> int {
    choose|i: int|
        0 <= i < repos.len() && repos[i].id == id && forall|j: int| 0 <= j < i ==> (#[trigger] repos[j]).id != id
}

/// The state table after a refresh of the repository list: only listed
/// repositories remain; known states are kept and new repositories start
/// from the permissions of their first listing.
pub open spec fn reconciled_actions(
    old: Map<i64, RepoActionsState>,
    repos: Seq<Repo>,
) -> Map<i64, RepoActionsState> {
    Map::new(
        |id: i64| repo_ids(repos).contains(id),
        |id: i64|
            if old.contains_key(id) {
                old[id]
            } else {
                initial_actions_state(repos[first_with_id(repos, id)].permissions)
            },
    )
}

/// The count table after a refresh: only listed repositories remain, and new
/// ones start at zero.
pub open spec fn reconciled_counts(
    old: Map<i64, WorkflowStatusCounts>,
    repos: Seq<Repo>,
) -> Map<i64, WorkflowStatusCounts> {
    Map::new(
        |id: i64| repo_ids(repos).contains(id),
        |id: i64|
            if old.contains_key(id) {
                old[id]
            } else {
                WorkflowStatusCounts { active: 0, failed: 0 }
            },
    )
}

/// Refreshing twice with the same repository list changes nothing the
/// second time, in either table.
pub proof fn law_reconcile_idempotent(
    states: Map<i64, RepoActionsState>,
    counts: Map<i64, WorkflowStatusCounts>,
    repos: Seq<Repo>,
)
    ensures
        reconciled_actions(reconciled_actions(states, repos), repos) == reconciled_actions(
            states,
            repos,
        ),
        reconciled_counts(reconciled_counts(counts, repos), repos) == reconciled_counts(counts, repos),
{
    assert(reconciled_actions(reconciled_actions(states, repos), repos) =~= reconciled_actions(
        states,
        repos,
    ));
    assert(reconciled_counts(reconciled_counts(counts, repos), repos) =~= reconciled_counts(
        counts,
        repos,
    ));
}

/// A refresh of the repository list keeps what is known of every listed
/// repository, starts a newly listed one from its permissions (Actions
/// state) or at zero (counts), and forgets every repository no longer
/// listed.
pub proof fn law_reconcile_keeps_known_and_drops_unlisted(
    states: Map<i64, RepoActionsState>,
    counts: Map<i64, WorkflowStatusCounts>,
    repos: Seq<Repo>,
    i: int,
    id: i64,
)
    requires
        0 <= i < repos.len(),
    ensures
        reconciled_actions(states, repos).contains_key(repos[i].id),
        reconciled_counts(counts, repos).contains_key(repos[i].id),
        states.contains_key(repos[i].id) ==> reconciled_actions(states, repos)[repos[i].id]
            == states[repos[i].id],
        counts.contains_key(repos[i].id) ==> reconciled_counts(counts, repos)[repos[i].id]
            == counts[repos[i].id],
        !counts.contains_key(repos[i].id) ==> reconciled_counts(counts, repos)[repos[i].id].active
            == 0 && reconciled_counts(counts, repos)[repos[i].id].failed == 0,
        (forall|j: int| 0 <= j < i ==> (#[trigger] repos[j]).id != repos[i].id) && !states.contains_key(
            repos[i].id,
        ) ==> reconciled_actions(states, repos)[repos[i].id] == initial_actions_state(
            repos[i].permissions,
        ),
        (forall|j: int| 0 <= j < repos.len() ==> (#[trigger] repos[j]).id != id) ==> !reconciled_actions(
            states,
            repos,
        ).contains_key(id) && !reconciled_counts(counts, repos).contains_key(id),
{
    assert(repo_ids(repos).contains(repos[i].id));
    if (forall|j: int| 0 <= j < i ==> (#[trigger] repos[j]).id != repos[i].id) {
        lemma_first_with_id(repos, i);
    }
}

fn ids_of(repos: &Vec<Repo>) -> (ids: Vec<i64>)
    ensures
        key_set(ids@) == repo_ids(repos@),
{
    let mut ids: Vec<i64> = Vec::new();
    let mut i: usize = 0;
    while i < repos.len()
        invariant
            i <= repos@.len(),
            ids@.len() == i,
            forall|t: int| 0 <= t < i ==> ids@[t] == (#[trigger] repos@[t]).id,
        decreases repos@.len() - i,
    {
        ids.push(repos[i].id);
        i = i + 1;
    }
    assert(key_set(ids@) =~= repo_ids(repos@)) by {
        assert forall|id: i64| key_set(ids@).contains(id) implies repo_ids(repos@).contains(id) by {
            let t = choose|t: int| 0 <= t < ids@.len() && (#[trigger] ids@[t])@ == id;
            assert(repos@[t].id == id);
        }
        assert forall|id: i64| repo_ids(repos@).contains(id) implies key_set(ids@).contains(id) by {
            let t = choose|t: int| 0 <= t < repos@.len() && (#[trigger] repos@[t]).id == id;
            assert(ids@[t]@ == id);
        }
    }
    ids
}

/// The first listing of `repos[i].id` is at `i` when no earlier repository
/// carries that id.
proof fn lemma_first_with_id(repos: Seq<Repo>, i: int)
    requires
        0 <= i < repos.len(),
        forall|j: int| 0 <= j < i ==> (#[trigger] repos[j]).id != repos[i].id,
    ensures
        first_with_id(repos, repos[i].id) == i,
{
    let id = repos[i].id;
    let f = first_with_id(repos, id);
    assert(0 <= f < repos.len() && repos[f].id == id && forall|j: int| 0 <= j < f ==> (#[trigger] repos[j]).id != id);
    if f < i {
        assert(repos[f].id != id);
    } else if f > i {
        assert(repos[i].id != id);
    }
}

/// Listing one more repository adds exactly its id.
proof fn lemma_ids_step(r: Seq<Repo>, i: int)
    requires
        0 <= i < r.len(),
    ensures
        repo_ids(r).contains(r[i].id),
        forall|x: i64| #[trigger] repo_ids(r.take(i + 1)).contains(x) == (repo_ids(r.take(i)).contains(x) || x == r[i].id),
{
    let id = r[i].id;
    assert forall|x: i64| #[trigger] repo_ids(r.take(i + 1)).contains(x) == (repo_ids(r.take(i)).contains(x) || x == id) by {
        if repo_ids(r.take(i + 1)).contains(x) {
            let t = choose|t: int| 0 <= t < i + 1 && (#[trigger] r.take(i + 1)[t]).id == x;
            if t < i {
                assert(r.take(i)[t] == r[t]);
            }
        }
        if repo_ids(r.take(i)).contains(x) {
            let t = choose|t: int| 0 <= t < i && (#[trigger] r.take(i)[t]).id == x;
            assert(r.take(i + 1)[t] == r[t]);
        }
        if x == id {
            assert(r.take(i + 1)[i] == r[i]);
        }
    }
    assert(r[i].id == id);
}

/// An id not yet listed among the first `i` repositories is first listed at
/// position `i`.
proof fn lemma_first_new(r: Seq<Repo>, i: int)
    requires
        0 <= i < r.len(),
        !repo_ids(r.take(i)).contains(r[i].id),
    ensures
        first_with_id(r, r[i].id) == i,
{
    let id = r[i].id;
    assert forall|j: int| 0 <= j < i implies (#[trigger] r[j]).id != id by {
        if r[j].id == id {
            assert(r.take(i)[j] == r[j]);
        }
    }
    lemma_first_with_id(r, i);
}

/// Brings the Actions state table in line with a refreshed repository list.
pub fn reconcile_actions_states(states: &mut IdMap<RepoActionsState>, repos: &Vec<Repo>)
    ensures
        final(states)@ == reconciled_actions(old(states)@, repos@),
{
    let ids = ids_of(repos);
    states.retain_listed(&ids);
    let ghost old_map = old(states)@;
    let ghost r = repos@;
    let mut i: usize = 0;
    while i < repos.len()
        invariant
            i <= r.len(),
            r == repos@,
            forall|id: i64| #[trigger] states@.contains_key(id) <==> (
                repo_ids(r).contains(id) && old_map.contains_key(id)) || repo_ids(r.take(i as int)).contains(id),
            forall|id: i64| #[trigger] states@.contains_key(id) ==> states@[id] == (if old_map.contains_key(id) {
                old_map[id]
            } else {
                initial_actions_state(r[first_with_id(r, id)].permissions)
            }),
        decreases r.len() - i,
    {
        let id = repos[i].id;
        if !states.contains_key(&id) {
            proof {
                lemma_first_new(r, i as int);
            }
            states.insert(id, actions_state_for(repos[i].permissions));
        }
        proof {
            lemma_ids_step(r, i as int);
        }
        i = i + 1;
    }
    proof {
        assert(r.take(r.len() as int) =~= r);
        assert(states@ =~= reconciled_actions(old_map, r));
    }
}

/// Brings the workflow count table in line with a refreshed repository
/// list.
pub fn reconcile_workflow_counts(counts: &mut IdMap<WorkflowStatusCounts>, repos: &Vec<Repo>)
    ensures
        final(counts)@ == reconciled_counts(old(counts)@, repos@),
{
    let ids = ids_of(repos);
    counts.retain_listed(&ids);
    let ghost old_map = old(counts)@;
    let ghost r = repos@;
    let mut i: usize = 0;
    while i < repos.len()
        invariant
            i <= r.len(),
            r == repos@,
            forall|id: i64| #[trigger] counts@.contains_key(id) <==> (
                repo_ids(r).contains(id) && old_map.contains_key(id)) || repo_ids(r.take(i as int)).contains(id),
            forall|id: i64| #[trigger] counts@.contains_key(id) ==> counts@[id] == (if old_map.contains_key(id) {
                old_map[id]
            } else {
                WorkflowStatusCounts { active: 0, failed: 0 }
            }),
        decreases r.len() - i,
    {
        let id = repos[i].id;
        if !counts.contains_key(&id) {
            counts.insert(id, WorkflowStatusCounts { active: 0, failed: 0 });
        }
        proof {
            lemma_ids_step(r, i as int);
        }
        i = i + 1;
    }
    proof {
        assert(r.take(r.len() as int) =~= r);
        assert(counts@ =~= reconciled_counts(old_map, r));
    }
}

/// The repositories whose status is checked in the background: the first
/// twenty.
pub fn status_check_batch(repos: Vec<Repo>) -> (batch: Vec<Repo>)
    ensures
        batch@ == repos@.take(if repos@.len() < MAX_REPOS_FOR_STATUS { repos@.len() as int } else { MAX_REPOS_FOR_STATUS as int }),
{
    let mut batch = repos;
    batch.truncate(MAX_REPOS_FOR_STATUS);
    assert(batch@ =~= repos@.take(if repos@.len() < MAX_REPOS_FOR_STATUS { repos@.len() as int } else { MAX_REPOS_FOR_STATUS as int }));
    batch
}

/// Records the outcome of a background Actions check of repository
/// `repo_id`: a check that succeeded sets its state, a failed one leaves the
/// table as it was.
pub fn record_actions_check(
    states: &mut IdMap<RepoActionsState>,
    repo_id: i64,
    checked: &Result<bool, GitHubError>,
)
    ensures
        match checked {
            Ok(enabled) => final(states)@ == old(states)@.insert(
                repo_id,
                if *enabled {
                    RepoActionsState::Enabled
                } else {
                    RepoActionsState::Disabled
                },
            ),
            Err(_) => final(states)@ == old(states)@,
        },
{
    match checked {
        Ok(enabled) => states.insert(repo_id, actions_state_from_check(*enabled)),
        Err(_) => {},
    }
}

/// Records the workflow counts gathered in the background for repository
/// `repo_id`; a failed gathering leaves the table as it was.
pub fn record_workflow_counts(
    counts: &mut IdMap<WorkflowStatusCounts>,
    repo_id: i64,
    gathered: Result<WorkflowStatusCounts, GitHubError>,
)
    ensures
        match gathered {
            Ok(c) => final(counts)@ == old(counts)@.insert(repo_id, c),
            Err(_) => final(counts)@ == old(counts)@,
        },
{
    match gathered {
        Ok(c) => counts.insert(repo_id, c),
        Err(_) => {},
    }
}

} // verus!
