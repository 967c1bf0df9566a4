//! In-memory cache of workflows, runs and jobs per repository, which spares
//! the GitHub API repeated requests.
use crate::api::models::{duplicate_jobs, duplicate_runs, duplicate_workflows, Job, Workflow, WorkflowRun};
use crate::collections::{key_set, AssocMap, IdMap};
use vstd::prelude::*;

verus! {

/// What the cache holds for one workflow: its runs and the jobs of runs.
pub struct WorkflowCacheView {
    pub runs: Seq<WorkflowRun>,
    pub jobs: Map<i64, Seq<Job>>,
}

/// What the cache holds for one repository.
pub struct RepoCacheView {
    pub workflows: Seq<Workflow>,
    pub workflow_data: Map<i64, WorkflowCacheView>,
}

pub open spec fn empty_workflow_view() -> WorkflowCacheView {
    WorkflowCacheView { runs: Seq::empty(), jobs: Map::empty() }
}

pub open spec fn empty_repo_view() -> RepoCacheView {
    RepoCacheView { workflows: Seq::empty(), workflow_data: Map::empty() }
}

/// The entry of repository `key`, or an empty one.
pub open spec fn repo_or_empty(m: Map<Seq<char>, RepoCacheView>, key: Seq<char>) -> RepoCacheView {
    if m.contains_key(key) {
        m[key]
    } else {
        empty_repo_view()
    }
}

/// The cache of workflow `workflow_id` in `repo`, or an empty one.
pub open spec fn workflow_or_empty(repo: RepoCacheView, workflow_id: i64) -> WorkflowCacheView {
    if repo.workflow_data.contains_key(workflow_id) {
        repo.workflow_data[workflow_id]
    } else {
        empty_workflow_view()
    }
}

/// The ids of a list of runs.
pub open spec fn run_ids(runs: Seq<WorkflowRun>) -> Set<i64> {
    Set::new(|id: i64| exists|i: int| 0 <= i < runs.len() && (#[trigger] runs[i]).id == id)
}

/// The cache after storing `workflows` for repository `key`; the repository's
/// run and job data stay as they were.
pub open spec fn with_workflows(
    m: Map<Seq<char>, RepoCacheView>,
    key: Seq<char>,
    workflows: Seq<Workflow>,
) -> Map<Seq<char>, RepoCacheView> {
    m.insert(key, RepoCacheView { workflows, workflow_data: repo_or_empty(m, key).workflow_data })
}

/// The cache after storing `runs` for a workflow: the runs are replaced and
/// only the jobs of runs still listed are kept.
pub open spec fn with_runs(
    m: Map<Seq<char>, RepoCacheView>,
    key: Seq<char>,
    workflow_id: i64,
    runs: Seq<WorkflowRun>,
) -> Map<Seq<char>, RepoCacheView> {
    let repo = repo_or_empty(m, key);
    let wf = workflow_or_empty(repo, workflow_id);
    let new_wf = WorkflowCacheView { runs, jobs: wf.jobs.restrict(run_ids(runs)) };
    m.insert(
        key,
        RepoCacheView {
            workflows: repo.workflows,
            workflow_data: repo.workflow_data.insert(workflow_id, new_wf),
        },
    )
}

/// The cache after storing the jobs of one run.
pub open spec fn with_jobs(
    m: Map<Seq<char>, RepoCacheView>,
    key: Seq<char>,
    workflow_id: i64,
    run_id: i64,
    jobs: Seq<Job>,
) -> Map<Seq<char>, RepoCacheView> {
    let repo = repo_or_empty(m, key);
    let wf = workflow_or_empty(repo, workflow_id);
    let new_wf = WorkflowCacheView { runs: wf.runs, jobs: wf.jobs.insert(run_id, jobs) };
    m.insert(
        key,
        RepoCacheView {
            workflows: repo.workflows,
            workflow_data: repo.workflow_data.insert(workflow_id, new_wf),
        },
    )
}

/// The workflows cached for repository `key`, if any.
pub open spec fn cached_workflows(m: Map<Seq<char>, RepoCacheView>, key: Seq<char>) -> Option<
    Seq<Workflow>,
> {
    if m.contains_key(key) {
        Some(m[key].workflows)
    } else {
        None
    }
}

/// The runs cached for a workflow, if any.
pub open spec fn cached_runs(
    m: Map<Seq<char>, RepoCacheView>,
    key: Seq<char>,
    workflow_id: i64,
) -> Option<Seq<WorkflowRun>> {
    if m.contains_key(key) && m[key].workflow_data.contains_key(workflow_id) {
        Some(m[key].workflow_data[workflow_id].runs)
    } else {
        None
    }
}

/// The jobs cached for a run, if any.
pub open spec fn cached_jobs(
    m: Map<Seq<char>, RepoCacheView>,
    key: Seq<char>,
    workflow_id: i64,
    run_id: i64,
) -> Option<Seq<Job>> {
    if m.contains_key(key) && m[key].workflow_data.contains_key(workflow_id)
        && m[key].workflow_data[workflow_id].jobs.contains_key(run_id) {
        Some(m[key].workflow_data[workflow_id].jobs[run_id])
    } else {
        None
    }
}

pub open spec fn opt_seq<T>(v: Option<Vec<T>>) -> Option<Seq<T>> {
    match v {
        Some(v) => Some(v@),
        None => None,
    }
}

/// Reading a repository's workflows right after storing them gives back what
/// was stored.
pub proof fn law_workflows_read_after_store(m: Map<Seq<char>, RepoCacheView>, key: Seq<char>, workflows: Seq<Workflow>)
    ensures
        cached_workflows(with_workflows(m, key, workflows), key) == Some(workflows),
{
}

/// Storing workflows for one repository leaves the workflows, runs and jobs
/// of every other repository as they were.
pub proof fn law_store_workflows_isolated(
    m: Map<Seq<char>, RepoCacheView>,
    key: Seq<char>,
    workflows: Seq<Workflow>,
    other: Seq<char>,
    workflow_id: i64,
    run_id: i64,
)
    requires
        other != key,
    ensures
        cached_workflows(with_workflows(m, key, workflows), other) == cached_workflows(m, other),
        cached_runs(with_workflows(m, key, workflows), other, workflow_id) == cached_runs(m, other, workflow_id),
        cached_jobs(with_workflows(m, key, workflows), other, workflow_id, run_id) == cached_jobs(m, other, workflow_id, run_id),
{
}

/// Storing a repository's workflows keeps the runs and jobs already cached
/// for it.
pub proof fn law_store_workflows_keeps_runs_and_jobs(
    m: Map<Seq<char>, RepoCacheView>,
    key: Seq<char>,
    workflows: Seq<Workflow>,
    workflow_id: i64,
    run_id: i64,
)
    ensures
        cached_runs(with_workflows(m, key, workflows), key, workflow_id) == cached_runs(m, key, workflow_id),
        cached_jobs(with_workflows(m, key, workflows), key, workflow_id, run_id) == cached_jobs(m, key, workflow_id, run_id),
{
}

/// Reading a workflow's runs right after storing them gives back what was
/// stored, and the repository's workflows are untouched.
pub proof fn law_runs_read_after_store(
    m: Map<Seq<char>, RepoCacheView>,
    key: Seq<char>,
    workflow_id: i64,
    runs: Seq<WorkflowRun>,
)
    ensures
        cached_runs(with_runs(m, key, workflow_id, runs), key, workflow_id) == Some(runs),
        cached_workflows(with_runs(m, key, workflow_id, runs), key) == Some(repo_or_empty(m, key).workflows),
{
}

/// Storing runs keeps the cached jobs of every run that is still listed and
/// drops the jobs of every run that is not.
pub proof fn law_store_runs_prunes_stale_jobs(
    m: Map<Seq<char>, RepoCacheView>,
    key: Seq<char>,
    workflow_id: i64,
    runs: Seq<WorkflowRun>,
    run_id: i64,
)
    ensures
        run_ids(runs).contains(run_id) ==> cached_jobs(with_runs(m, key, workflow_id, runs), key, workflow_id, run_id)
            == cached_jobs(m, key, workflow_id, run_id),
        !run_ids(runs).contains(run_id) ==> cached_jobs(with_runs(m, key, workflow_id, runs), key, workflow_id, run_id)
            is None,
{
}

/// Reading a run's jobs right after storing them gives back what was stored;
/// the workflow's runs stay as they were (an empty list if there were none).
pub proof fn law_jobs_read_after_store(
    m: Map<Seq<char>, RepoCacheView>,
    key: Seq<char>,
    workflow_id: i64,
    run_id: i64,
    jobs: Seq<Job>,
)
    ensures
        cached_jobs(with_jobs(m, key, workflow_id, run_id, jobs), key, workflow_id, run_id) == Some(jobs),
        cached_runs(with_jobs(m, key, workflow_id, run_id, jobs), key, workflow_id) == Some(
            workflow_or_empty(repo_or_empty(m, key), workflow_id).runs,
        ),
{
}

/// Storing the runs of one workflow touches no other workflow: the runs and
/// jobs cached for every other workflow of the same repository, and
/// everything cached for other repositories, stay as they were.
pub proof fn law_store_runs_isolated(
    m: Map<Seq<char>, RepoCacheView>,
    key: Seq<char>,
    workflow_id: i64,
    runs: Seq<WorkflowRun>,
    other_key: Seq<char>,
    other_workflow: i64,
    run_id: i64,
)
    requires
        other_key != key || other_workflow != workflow_id,
    ensures
        cached_runs(with_runs(m, key, workflow_id, runs), other_key, other_workflow) == cached_runs(
            m,
            other_key,
            other_workflow,
        ),
        cached_jobs(with_runs(m, key, workflow_id, runs), other_key, other_workflow, run_id)
            == cached_jobs(m, other_key, other_workflow, run_id),
        other_key != key ==> cached_workflows(with_runs(m, key, workflow_id, runs), other_key)
            == cached_workflows(m, other_key),
{
}

/// Storing the jobs of one run touches no other run: the jobs cached for
/// every other run, of any workflow and repository, and the runs cached for
/// every other workflow stay as they were.
pub proof fn law_store_jobs_isolated(
    m: Map<Seq<char>, RepoCacheView>,
    key: Seq<char>,
    workflow_id: i64,
    run_id: i64,
    jobs: Seq<Job>,
    other_key: Seq<char>,
    other_workflow: i64,
    other_run: i64,
)
    ensures
        (other_key != key || other_workflow != workflow_id || other_run != run_id) ==> cached_jobs(
            with_jobs(m, key, workflow_id, run_id, jobs),
            other_key,
            other_workflow,
            other_run,
        ) == cached_jobs(m, other_key, other_workflow, other_run),
        (other_key != key || other_workflow != workflow_id) ==> cached_runs(
            with_jobs(m, key, workflow_id, run_id, jobs),
            other_key,
            other_workflow,
        ) == cached_runs(m, other_key, other_workflow),
        cached_workflows(with_jobs(m, key, workflow_id, run_id, jobs), key) == Some(
            repo_or_empty(m, key).workflows,
        ),
{
}

/// After a repository is cleared nothing is cached for it any more, and
/// other repositories keep their data.
pub proof fn law_clear_repo_forgets(
    m: Map<Seq<char>, RepoCacheView>,
    key: Seq<char>,
    other: Seq<char>,
    workflow_id: i64,
    run_id: i64,
)
    ensures
        cached_workflows(m.remove(key), key) is None,
        cached_runs(m.remove(key), key, workflow_id) is None,
        cached_jobs(m.remove(key), key, workflow_id, run_id) is None,
        other != key ==> cached_workflows(m.remove(key), other) == cached_workflows(m, other),
        other != key ==> cached_runs(m.remove(key), other, workflow_id) == cached_runs(m, other, workflow_id),
        other != key ==> cached_jobs(m.remove(key), other, workflow_id, run_id) == cached_jobs(m, other, workflow_id, run_id),
{
}

/// After the whole cache is cleared nothing is cached.
pub proof fn law_clear_all_forgets(key: Seq<char>, workflow_id: i64, run_id: i64)
    ensures
        cached_workflows(Map::empty(), key) is None,
        cached_runs(Map::empty(), key, workflow_id) is None,
        cached_jobs(Map::empty(), key, workflow_id, run_id) is None,
{
}

struct WorkflowCache {
    runs: Vec<WorkflowRun>,
    jobs: IdMap<Vec<Job>>,
}

impl View for WorkflowCache {
    type V = WorkflowCacheView;

    closed spec fn view(&self) -> WorkflowCacheView {
        WorkflowCacheView { runs: self.runs@, jobs: self.jobs@.map_values(|v: Vec<Job>| v@) }
    }
}

impl WorkflowCache {
    fn empty() -> (c: WorkflowCache)
        ensures
            c@ == empty_workflow_view(),
    {
        let c = WorkflowCache { runs: Vec::new(), jobs: IdMap::new() };
        assert(c@.jobs =~= Map::<i64, Seq<Job>>::empty());
        assert(c@.runs =~= Seq::<WorkflowRun>::empty());
        c
    }
}

struct RepoCacheEntry {
    workflows: Vec<Workflow>,
    workflow_data: IdMap<WorkflowCache>,
}

impl View for RepoCacheEntry {
    type V = RepoCacheView;

    closed spec fn view(&self) -> RepoCacheView {
        RepoCacheView {
            workflows: self.workflows@,
            workflow_data: self.workflow_data@.map_values(|c: WorkflowCache| c@),
        }
    }
}

impl RepoCacheEntry {
    fn empty() -> (e: RepoCacheEntry)
        ensures
            e@ == empty_repo_view(),
    {
        let e = RepoCacheEntry { workflows: Vec::new(), workflow_data: IdMap::new() };
        assert(e@.workflow_data =~= Map::<i64, WorkflowCacheView>::empty());
        assert(e@.workflows =~= Seq::<Workflow>::empty());
        e
    }

    /// Takes the cache of one workflow out of the entry (an empty one if
    /// there is none).
    fn take_workflow(&mut self, workflow_id: i64) -> (c: WorkflowCache)
        ensures
            c@ == workflow_or_empty(old(self)@, workflow_id),
            final(self)@.workflows == old(self)@.workflows,
            final(self)@.workflow_data == old(self)@.workflow_data.remove(workflow_id),
    {
        let taken = self.workflow_data.remove(&workflow_id);
        assert(self@.workflow_data =~= old(self)@.workflow_data.remove(workflow_id));
        match taken {
            Some(c) => c,
            None => WorkflowCache::empty(),
        }
    }

    /// Puts the cache of one workflow (back) into the entry.
    fn put_workflow(&mut self, workflow_id: i64, c: WorkflowCache)
        ensures
            final(self)@.workflows == old(self)@.workflows,
            final(self)@.workflow_data == old(self)@.workflow_data.insert(workflow_id, c@),
    {
        self.workflow_data.insert(workflow_id, c);
        assert(self@.workflow_data =~= old(self)@.workflow_data.insert(workflow_id, c@));
    }
}

/// In-memory data cache keyed by repository (`owner/name`), then by workflow
/// id, then by run id.
pub struct DataCache {
    repositories: AssocMap<String, RepoCacheEntry>,
}

impl View for DataCache {
    type V = Map<Seq<char>, RepoCacheView>;

    closed spec fn view(&self) -> Map<Seq<char>, RepoCacheView> {
        self.repositories@.map_values(|e: RepoCacheEntry| e@)
    }
}

impl Default for DataCache {
    /// An empty cache, as `new` makes.
    fn default() -> (c: DataCache)
        ensures
            c@ == Map::<Seq<char>, RepoCacheView>::empty(),
    {
        DataCache::new()
    }
}

impl DataCache {
    pub fn new() -> (c: DataCache)
        ensures
            c@ == Map::<Seq<char>, RepoCacheView>::empty(),
    {
        let c = DataCache { repositories: AssocMap::new() };
        assert(c@ =~= Map::<Seq<char>, RepoCacheView>::empty());
        c
    }

    /// Takes the entry of repository `key` out (an empty one if none).
    fn take_repo(&mut self, key: &String) -> (e: RepoCacheEntry)
        ensures
            e@ == repo_or_empty(old(self)@, key@),
            final(self)@ == old(self)@.remove(key@),
    {
        let taken = self.repositories.remove(key);
        assert(self@ =~= old(self)@.remove(key@));
        match taken {
            Some(e) => e,
            None => RepoCacheEntry::empty(),
        }
    }

    /// Puts the entry of repository `key` (back) into the cache.
    fn put_repo(&mut self, key: String, e: RepoCacheEntry)
        ensures
            final(self)@ == old(self)@.insert(key@, e@),
    {
        let ghost k = key@;
        self.repositories.insert(key, e);
        assert(self@ =~= old(self)@.insert(k, e@));
    }

    /// Cached workflows of a repository.
    pub fn workflows(&self, key: &str) -> (r: Option<Vec<Workflow>>)
        ensures
            opt_seq(r) == cached_workflows(self@, key@),
    {
        let k = String::from_str(key);
        match self.repositories.get(&k) {
            Some(entry) => Some(duplicate_workflows(&entry.workflows)),
            None => None,
        }
    }

    /// Stores the workflows of a repository.
    pub fn store_workflows(&mut self, workflows: Vec<Workflow>, key: &str)
        ensures
            final(self)@ == with_workflows(old(self)@, key@, workflows@),
    {
        let k = String::from_str(key);
        let mut entry = self.take_repo(&k);
        let ghost w = workflows@;
        entry.workflows = workflows;
        self.put_repo(k, entry);
        assert(self@ =~= with_workflows(old(self)@, key@, w));
    }

    /// Cached runs of a workflow.
    pub fn runs(&self, key: &str, workflow_id: i64) -> (r: Option<Vec<WorkflowRun>>)
        ensures
            opt_seq(r) == cached_runs(self@, key@, workflow_id),
    {
        let k = String::from_str(key);
        match self.repositories.get(&k) {
            Some(entry) => match entry.workflow_data.get(&workflow_id) {
                Some(wc) => Some(duplicate_runs(&wc.runs)),
                None => None,
            },
            None => None,
        }
    }

    /// Stores the runs of a workflow and drops the jobs of runs no longer
    /// listed.
    pub fn store_runs(&mut self, runs: Vec<WorkflowRun>, key: &str, workflow_id: i64)
        ensures
            final(self)@ == with_runs(old(self)@, key@, workflow_id, runs@),
    {
        let k = String::from_str(key);
        let mut entry = self.take_repo(&k);
        let mut wc = entry.take_workflow(workflow_id);
        let mut ids: Vec<i64> = Vec::new();
        let mut i: usize = 0;
        while i < runs.len()
            invariant
                i <= runs@.len(),
                ids@.len() == i,
                forall|t: int| 0 <= t < i ==> ids@[t] == (#[trigger] runs@[t]).id,
            decreases runs@.len() - i,
        {
            ids.push(runs[i].id);
            i = i + 1;
        }
        assert(key_set(ids@) =~= run_ids(runs@)) by {
            assert forall|id: i64| key_set(ids@).contains(id) implies run_ids(runs@).contains(id) by {
                let t = choose|t: int| 0 <= t < ids@.len() && (#[trigger] ids@[t])@ == id;
                assert(runs@[t].id == id);
            }
            assert forall|id: i64| run_ids(runs@).contains(id) implies key_set(ids@).contains(id) by {
                let t = choose|t: int| 0 <= t < runs@.len() && (#[trigger] runs@[t]).id == id;
                assert(ids@[t]@ == id);
            }
        }
        let ghost old_jobs = wc.jobs@;
        wc.jobs.retain_listed(&ids);
        let ghost r = runs@;
        wc.runs = runs;
        assert(wc@.jobs =~= workflow_or_empty(repo_or_empty(old(self)@, key@), workflow_id).jobs.restrict(run_ids(r)));
        entry.put_workflow(workflow_id, wc);
        self.put_repo(k, entry);
        assert(self@ =~= with_runs(old(self)@, key@, workflow_id, r)) by {
            let repo = repo_or_empty(old(self)@, key@);
            assert(self@[key@].workflow_data =~= repo.workflow_data.insert(workflow_id, WorkflowCacheView { runs: r, jobs: workflow_or_empty(repo, workflow_id).jobs.restrict(run_ids(r)) }));
        }
    }

    /// Cached jobs of a run.
    pub fn jobs(&self, key: &str, workflow_id: i64, run_id: i64) -> (r: Option<Vec<Job>>)
        ensures
            opt_seq(r) == cached_jobs(self@, key@, workflow_id, run_id),
    {
        let k = String::from_str(key);
        match self.repositories.get(&k) {
            Some(entry) => match entry.workflow_data.get(&workflow_id) {
                Some(wc) => match wc.jobs.get(&run_id) {
                    Some(jobs) => Some(duplicate_jobs(jobs)),
                    None => None,
                },
                None => None,
            },
            None => None,
        }
    }

    /// Stores the jobs of a run.
    pub fn store_jobs(&mut self, jobs: Vec<Job>, key: &str, workflow_id: i64, run_id: i64)
        ensures
            final(self)@ == with_jobs(old(self)@, key@, workflow_id, run_id, jobs@),
    {
        let k = String::from_str(key);
        let mut entry = self.take_repo(&k);
        let mut wc = entry.take_workflow(workflow_id);
        let ghost j = jobs@;
        wc.jobs.insert(run_id, jobs);
        assert(wc@.jobs =~= workflow_or_empty(repo_or_empty(old(self)@, key@), workflow_id).jobs.insert(run_id, j));
        entry.put_workflow(workflow_id, wc);
        self.put_repo(k, entry);
        assert(self@ =~= with_jobs(old(self)@, key@, workflow_id, run_id, j)) by {
            let repo = repo_or_empty(old(self)@, key@);
            let wf = workflow_or_empty(repo, workflow_id);
            assert(self@[key@].workflow_data =~= repo.workflow_data.insert(workflow_id, WorkflowCacheView { runs: wf.runs, jobs: wf.jobs.insert(run_id, j) }));
        }
    }

    /// Forgets everything cached for one repository.
    pub fn clear_repo(&mut self, key: &str)
        ensures
            final(self)@ == old(self)@.remove(key@),
    {
        let k = String::from_str(key);
        let _ = self.repositories.remove(&k);
        assert(self@ =~= old(self)@.remove(key@));
    }

    /// Forgets everything.
    pub fn clear_all(&mut self)
        ensures
            final(self)@ == Map::<Seq<char>, RepoCacheView>::empty(),
    {
        self.repositories.clear();
        assert(self@ =~= Map::<Seq<char>, RepoCacheView>::empty());
    }
}

} // verus!
