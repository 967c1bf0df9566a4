//! The registry of expanded runs whose job lists are refreshed in the
//! background, keyed by run id.
use crate::collections::{key_set, IdMap};
use vstd::prelude::*;

verus! {

/// What is needed to refresh the job list of one expanded run.
pub struct JobRefreshContext {
    owner: String,
    repo: String,
    workflow_id: i64,
    run_id: i64,
}

impl JobRefreshContext {
    pub closed spec fn spec_owner(&self) -> Seq<char> {
        self.owner@
    }

    pub closed spec fn spec_repo(&self) -> Seq<char> {
        self.repo@
    }

    pub closed spec fn spec_workflow_id(&self) -> i64 {
        self.workflow_id
    }

    pub closed spec fn spec_run_id(&self) -> i64 {
        self.run_id
    }

    pub fn new(owner: String, repo: String, workflow_id: i64, run_id: i64) -> (c: JobRefreshContext)
        ensures
            c.spec_owner() == owner@,
            c.spec_repo() == repo@,
            c.spec_workflow_id() == workflow_id,
            c.spec_run_id() == run_id,
    {
        JobRefreshContext { owner, repo, workflow_id, run_id }
    }

    pub fn workflow_id(&self) -> (id: i64)
        ensures
            id == self.spec_workflow_id(),
    {
        self.workflow_id
    }

    pub fn run_id(&self) -> (id: i64)
        ensures
            id == self.spec_run_id(),
    {
        self.run_id
    }

    pub fn owner(&self) -> (o: String)
        ensures
            o@ == self.spec_owner(),
    {
        self.owner.clone()
    }

    pub fn repo(&self) -> (r: String)
        ensures
            r@ == self.spec_repo(),
    {
        self.repo.clone()
    }
}

/// Job-refresh contexts keyed by run id.
pub type JobContextMap = IdMap<JobRefreshContext>;

/// The runs registered for workflow `workflow_id`.
pub open spec fn runs_of_workflow(m: Map<i64, JobRefreshContext>, workflow_id: i64) -> Set<i64> {
    Set::new(|run_id: i64| m.contains_key(run_id) && m[run_id].spec_workflow_id() == workflow_id)
}

/// The ids of a list, as a set.
pub open spec fn id_set(ids: Seq<i64>) -> Set<i64> {
    Set::new(|id: i64| exists|i: int| 0 <= i < ids.len() && ids[i] == id)
}

/// The runs to keep when a workflow's runs are reloaded: those of other
/// workflows, and those of this workflow still among the active runs.
pub open spec fn runs_to_keep(m: Map<i64, JobRefreshContext>, workflow_id: i64, active: Set<i64>) -> Set<i64> {
    Set::new(
        |run_id: i64|
            m.contains_key(run_id) && (m[run_id].spec_workflow_id() != workflow_id || active.contains(
                m[run_id].spec_run_id(),
            )),
    )
}

/// Splits the registered run ids into those to drop and those to keep:
/// with no active list, the runs of `workflow_id` are dropped; with one,
/// only the runs of `workflow_id` outside it are.
fn partition_runs(job_contexts: &JobContextMap, workflow_id: i64, active: Option<&Vec<i64>>) -> (r: (Vec<i64>, Vec<i64>))
    ensures
        key_set(r.1@) == (match active {
            None => runs_of_workflow(job_contexts@, workflow_id).complement().intersect(job_contexts@.dom()),
            Some(a) => runs_to_keep(job_contexts@, workflow_id, id_set(a@)),
        }),
        active is None ==> id_set(r.0@) == runs_of_workflow(job_contexts@, workflow_id),
        active is None ==> r.0@.no_duplicates(),
{
    let ks = job_contexts.keys();
    let n = ks.len();
    let mut taken: Vec<i64> = Vec::new();
    let mut kept: Vec<i64> = Vec::new();
    let ghost m = job_contexts@;
    let ghost es = ks@;
    let ghost keep_set = match active {
        None => runs_of_workflow(m, workflow_id).complement().intersect(m.dom()),
        Some(a) => runs_to_keep(m, workflow_id, id_set(a@)),
    };
    proof {
        assert forall|k: i64| #[trigger] m.contains_key(k) <==> exists|t: int| 0 <= t < es.len() && es[t] == k by {
            if m.contains_key(k) {
                assert(key_set(es).contains(k));
                let t = choose|t: int| 0 <= t < es.len() && (#[trigger] es[t])@ == k;
            }
            if exists|t: int| 0 <= t < es.len() && es[t] == k {
                let t = choose|t: int| 0 <= t < es.len() && es[t] == k;
                assert(key_set(es).contains(es[t]@));
            }
        }
    }
    let mut i: usize = 0;
    while i < n
        invariant
            i <= n,
            n == es.len(),
            es == ks@,
            m == job_contexts@,
            forall|t: int| 0 <= t < es.len() ==> #[trigger] m.contains_key(es[t]),
            forall|k: i64| #[trigger] m.contains_key(k) <==> exists|t: int| 0 <= t < es.len() && es[t] == k,
            es.no_duplicates(),
            keep_set == (match active {
                None => runs_of_workflow(m, workflow_id).complement().intersect(m.dom()),
                Some(a) => runs_to_keep(m, workflow_id, id_set(a@)),
            }),
            forall|t: int| 0 <= t < taken@.len() ==> exists|u: int| 0 <= u < i && es[u] == #[trigger] taken@[t],
            forall|t: int| 0 <= t < kept@.len() ==> exists|u: int| 0 <= u < i && es[u] == #[trigger] kept@[t],
            forall|u: int| 0 <= u < i ==> (keep_set.contains(#[trigger] es[u]) <==> id_set(kept@).contains(es[u])),
            forall|u: int| 0 <= u < i ==> (!keep_set.contains(#[trigger] es[u]) <==> id_set(taken@).contains(es[u])),
            forall|t: int| 0 <= t < kept@.len() ==> keep_set.contains(#[trigger] kept@[t]),
            forall|t: int| 0 <= t < taken@.len() ==> !keep_set.contains(#[trigger] taken@[t]),
            taken@.no_duplicates(),
        decreases n - i,
    {
        let run_id = ks[i];
        assert(m.contains_key(es[i as int]));
        let ctx = match job_contexts.get(&run_id) {
            Some(c) => c,
            None => {
                assert(false);
                return (taken, kept);
            },
        };
        let ctx_workflow = ctx.workflow_id;
        let keep = match active {
            None => ctx_workflow != workflow_id,
            Some(a) => ctx_workflow != workflow_id || crate::collections::is_listed(a, &ctx.run_id),
        };
        proof {
            match active {
                Some(a) => {
                    assert(crate::collections::key_set(a@) =~= id_set(a@));
                },
                None => {},
            }
        }
        assert(keep == keep_set.contains(run_id));
        let ghost kept_before = kept@;
        let ghost taken_before = taken@;
        if keep {
            kept.push(run_id);
        } else {
            let ghost before = taken@;
            taken.push(run_id);
            proof {
                assert forall|t: int| 0 <= t < before.len() implies before[t] != run_id by {
                    let u = choose|u: int| 0 <= u < i && es[u] == #[trigger] before[t];
                    assert(es[u] != es[i as int]);
                }
            }
        }
        proof {
            assert forall|u: int| 0 <= u < i + 1 implies (keep_set.contains(#[trigger] es[u]) <==> id_set(kept@).contains(es[u])) by {
                if u < i {
                    if id_set(kept@).contains(es[u]) {
                        let t = choose|t: int| 0 <= t < kept@.len() && kept@[t] == es[u];
                        assert(keep_set.contains(kept@[t]));
                    }
                    if keep_set.contains(es[u]) {
                        assert(id_set(kept_before).contains(es[u]));
                        let t = choose|t: int| 0 <= t < kept_before.len() && kept_before[t] == es[u];
                        assert(kept@[t] == kept_before[t]);
                        assert(id_set(kept@).contains(es[u]));
                    }
                } else {
                    if keep {
                        assert(kept@[kept@.len() - 1] == es[u]);
                    } else if id_set(kept@).contains(es[u]) {
                        let t = choose|t: int| 0 <= t < kept@.len() && kept@[t] == es[u];
                        assert(keep_set.contains(kept@[t]));
                    }
                }
            }
            assert forall|u: int| 0 <= u < i + 1 implies (!keep_set.contains(#[trigger] es[u]) <==> id_set(taken@).contains(es[u])) by {
                if u < i {
                    if id_set(taken@).contains(es[u]) {
                        let t = choose|t: int| 0 <= t < taken@.len() && taken@[t] == es[u];
                        assert(!keep_set.contains(taken@[t]));
                    }
                    if !keep_set.contains(es[u]) {
                        assert(id_set(taken_before).contains(es[u]));
                        let t = choose|t: int| 0 <= t < taken_before.len() && taken_before[t] == es[u];
                        assert(taken@[t] == taken_before[t]);
                        assert(id_set(taken@).contains(es[u]));
                    }
                } else {
                    if !keep {
                        assert(taken@[taken@.len() - 1] == es[u]);
                    } else if id_set(taken@).contains(es[u]) {
                        let t = choose|t: int| 0 <= t < taken@.len() && taken@[t] == es[u];
                        assert(!keep_set.contains(taken@[t]));
                    }
                }
            }
        }
        i = i + 1;
    }
    proof {
        assert forall|k: i64| key_set(kept@).contains(k) == keep_set.contains(k) by {
            if key_set(kept@).contains(k) {
                let t = choose|t: int| 0 <= t < kept@.len() && (#[trigger] kept@[t])@ == k;
                assert(keep_set.contains(kept@[t]));
            }
            if keep_set.contains(k) {
                assert(m.contains_key(k));
                let u = choose|u: int| 0 <= u < es.len() && es[u] == k;
                assert(keep_set.contains(es[u]));
                assert(id_set(kept@).contains(es[u]));
                let t = choose|t: int| 0 <= t < kept@.len() && kept@[t] == es[u];
                assert(kept@[t]@ == k);
            }
        }
        assert(key_set(kept@) =~= keep_set);
        if active is None {
            assert forall|k: i64| id_set(taken@).contains(k) == runs_of_workflow(m, workflow_id).contains(k) by {
                if id_set(taken@).contains(k) {
                    let t = choose|t: int| 0 <= t < taken@.len() && taken@[t] == k;
                    let u = choose|u: int| 0 <= u < i && es[u] == #[trigger] taken@[t];
                    assert(!keep_set.contains(taken@[t]));
                    assert(m.contains_key(k));
                }
                if runs_of_workflow(m, workflow_id).contains(k) {
                    let u = choose|u: int| 0 <= u < es.len() && es[u] == k;
                    assert(!keep_set.contains(es[u]));
                }
            }
            assert(id_set(taken@) =~= runs_of_workflow(m, workflow_id));
        }
    }
    (taken, kept)
}

/// Removes the contexts of every run of workflow `workflow_id` and returns
/// their run ids (each once, in no particular order).
pub fn take_job_context_run_ids(job_contexts: &mut JobContextMap, workflow_id: i64) -> (ids: Vec<i64>)
    ensures
        id_set(ids@) == runs_of_workflow(old(job_contexts)@, workflow_id),
        ids@.no_duplicates(),
        final(job_contexts)@ == old(job_contexts)@.remove_keys(runs_of_workflow(old(job_contexts)@, workflow_id)),
{
    let (taken, kept) = partition_runs(job_contexts, workflow_id, None);
    job_contexts.retain_listed(&kept);
    assert(final(job_contexts)@ =~= old(job_contexts)@.remove_keys(runs_of_workflow(old(job_contexts)@, workflow_id)));
    taken
}

/// Drops the contexts of runs of workflow `workflow_id` that are no longer
/// among `active_run_ids`; other workflows' contexts stay.
pub fn retain_active_runs(job_contexts: &mut JobContextMap, workflow_id: i64, active_run_ids: &Vec<i64>)
    ensures
        final(job_contexts)@ == old(job_contexts)@.restrict(
            runs_to_keep(old(job_contexts)@, workflow_id, id_set(active_run_ids@)),
        ),
{
    let (_taken, kept) = partition_runs(job_contexts, workflow_id, Some(active_run_ids));
    job_contexts.retain_listed(&kept);
}

} // verus!
