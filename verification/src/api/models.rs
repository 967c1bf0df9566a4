//! Data returned by the GitHub REST API, as the rest of the crate uses it.
use crate::text::str_eq;
use vstd::prelude::*;

verus! {

/// Remaining-request threshold under which the API budget counts as low.
pub const LOW_RATE_LIMIT_THRESHOLD: i64 = 100;

/// An optional text field holds exactly `lit`.
pub open spec fn text_is(field: Option<String>, lit: Seq<char>) -> bool {
    match field {
        Some(s) => s@ == lit,
        None => false,
    }
}

/// The view of an optional text field.
pub open spec fn opt_text(field: Option<String>) -> Option<Seq<char>> {
    match field {
        Some(s) => Some(s@),
        None => None,
    }
}

/// An exact copy of an optional string.
pub fn duplicate_text(field: &Option<String>) -> (c: Option<String>)
    ensures
        c == *field,
{
    match field {
        Some(s) => Some(s.clone()),
        None => None,
    }
}

/// Whether an optional text field holds exactly `lit`.
pub fn field_is(field: &Option<String>, lit: &str) -> (same: bool)
    ensures
        same == text_is(*field, lit@),
{
    match field {
        Some(s) => str_eq(s.as_str(), lit),
        None => false,
    }
}

#[derive(Debug, Clone)]
pub struct User {
    pub login: String,
}

#[derive(Debug, Clone, Copy, PartialEq, Eq, Structural)]
pub struct RepoPermissions {
    pub admin: bool,
    pub push: bool,
    pub pull: bool,
}

#[derive(Debug, Clone)]
pub struct Repo {
    pub id: i64,
    pub name: String,
    pub full_name: String,
    pub owner: User,
    /// Serialized as `private`.
    pub is_private: bool,
    pub permissions: Option<RepoPermissions>,
}

#[derive(Debug, Clone, PartialEq)]
pub struct Workflow {
    pub id: i64,
    pub name: String,
    pub path: String,
}

impl Workflow {
    /// A field-by-field copy.
    pub fn duplicate(&self) -> (c: Workflow)
        ensures
            c == *self,
    {
        Workflow { id: self.id, name: self.name.clone(), path: self.path.clone() }
    }
}

#[derive(Debug, Clone)]
pub struct WorkflowsResponse {
    pub total_count: i64,
    pub workflows: Vec<Workflow>,
}

#[derive(Debug, Clone)]
pub struct WorkflowRun {
    pub id: i64,
    pub run_number: Option<i64>,
    pub name: Option<String>,
    pub display_title: Option<String>,
    pub head_branch: Option<String>,
    pub status: Option<String>,
    pub conclusion: Option<String>,
    pub run_started_at: Option<String>,
    pub event: Option<String>,
    pub created_at: Option<String>,
    pub updated_at: Option<String>,
    pub html_url: Option<String>,
}

/// A run status in which the run has not finished yet.
pub open spec fn is_pending_status(status: Option<String>) -> bool {
    text_is(status, "queued"@) || text_is(status, "in_progress"@) || text_is(status, "waiting"@)
}

impl WorkflowRun {
    /// A field-by-field copy.
    pub fn duplicate(&self) -> (c: WorkflowRun)
        ensures
            c == *self,
    {
        WorkflowRun {
            id: self.id,
            run_number: self.run_number,
            name: duplicate_text(&self.name),
            display_title: duplicate_text(&self.display_title),
            head_branch: duplicate_text(&self.head_branch),
            status: duplicate_text(&self.status),
            conclusion: duplicate_text(&self.conclusion),
            run_started_at: duplicate_text(&self.run_started_at),
            event: duplicate_text(&self.event),
            created_at: duplicate_text(&self.created_at),
            updated_at: duplicate_text(&self.updated_at),
            html_url: duplicate_text(&self.html_url),
        }
    }

    /// The run is queued, waiting or in progress.
    pub fn is_active(&self) -> (active: bool)
        ensures
            active == is_pending_status(self.status),
    {
        field_is(&self.status, "queued") || field_is(&self.status, "in_progress") || field_is(
            &self.status,
            "waiting",
        )
    }

    /// A run can be cancelled while it is queued, waiting or in progress.
    pub fn is_cancellable(&self) -> (cancellable: bool)
        ensures
            cancellable == is_pending_status(self.status),
    {
        self.is_active()
    }

    /// Only completed runs can be re-run.
    pub fn is_rerunnable(&self) -> (rerunnable: bool)
        ensures
            rerunnable == text_is(self.status, "completed"@),
    {
        field_is(&self.status, "completed")
    }

    /// A run that concluded in failure offers to re-run its failed jobs.
    pub fn has_failed_jobs(&self) -> (failed: bool)
        ensures
            failed == text_is(self.conclusion, "failure"@),
    {
        field_is(&self.conclusion, "failure")
    }
}

#[derive(Debug, Clone)]
pub struct WorkflowRunsResponse {
    pub total_count: i64,
    pub workflow_runs: Vec<WorkflowRun>,
}

#[derive(Debug, Clone)]
pub struct Job {
    pub id: i64,
    pub run_id: i64,
    pub status: Option<String>,
    pub conclusion: Option<String>,
    pub started_at: Option<String>,
    pub completed_at: Option<String>,
    pub name: Option<String>,
    pub html_url: Option<String>,
}

impl Job {
    /// A field-by-field copy.
    pub fn duplicate(&self) -> (c: Job)
        ensures
            c == *self,
    {
        Job {
            id: self.id,
            run_id: self.run_id,
            status: duplicate_text(&self.status),
            conclusion: duplicate_text(&self.conclusion),
            started_at: duplicate_text(&self.started_at),
            completed_at: duplicate_text(&self.completed_at),
            name: duplicate_text(&self.name),
            html_url: duplicate_text(&self.html_url),
        }
    }
}

#[derive(Debug, Clone)]
pub struct JobsResponse {
    pub total_count: i64,
    pub jobs: Vec<Job>,
}

/// GitHub API rate-limit state as reported by the `x-ratelimit-*` headers.
#[derive(Debug, Clone, Copy, PartialEq, Eq, Structural)]
pub struct RateLimitInfo {
    pub limit: i64,
    pub remaining: i64,
    /// Unix timestamp at which the budget resets.
    pub reset: i64,
}

impl RateLimitInfo {
    /// The budget is low when fewer than one hundred requests remain.
    pub fn is_low(&self) -> (low: bool)
        ensures
            low == (self.remaining < LOW_RATE_LIMIT_THRESHOLD),
    {
        self.remaining < LOW_RATE_LIMIT_THRESHOLD
    }
}

/// Copies a list of workflows element by element.
pub fn duplicate_workflows(v: &Vec<Workflow>) -> (c: Vec<Workflow>)
    ensures
        c@ == v@,
{
    let mut c: Vec<Workflow> = Vec::new();
    let mut i: usize = 0;
    while i < v.len()
        invariant
            i <= v@.len(),
            c@ == v@.take(i as int),
        decreases v@.len() - i,
    {
        c.push(v[i].duplicate());
        assert(c@ =~= v@.take(i + 1));
        i = i + 1;
    }
    assert(v@.take(v@.len() as int) =~= v@);
    c
}

/// Copies a list of runs element by element.
pub fn duplicate_runs(v: &Vec<WorkflowRun>) -> (c: Vec<WorkflowRun>)
    ensures
        c@ == v@,
{
    let mut c: Vec<WorkflowRun> = Vec::new();
    let mut i: usize = 0;
    while i < v.len()
        invariant
            i <= v@.len(),
            c@ == v@.take(i as int),
        decreases v@.len() - i,
    {
        c.push(v[i].duplicate());
        assert(c@ =~= v@.take(i + 1));
        i = i + 1;
    }
    assert(v@.take(v@.len() as int) =~= v@);
    c
}

/// Copies a list of jobs element by element.
pub fn duplicate_jobs(v: &Vec<Job>) -> (c: Vec<Job>)
    ensures
        c@ == v@,
{
    let mut c: Vec<Job> = Vec::new();
    let mut i: usize = 0;
    while i < v.len()
        invariant
            i <= v@.len(),
            c@ == v@.take(i as int),
        decreases v@.len() - i,
    {
        c.push(v[i].duplicate());
        assert(c@ =~= v@.take(i + 1));
        i = i + 1;
    }
    assert(v@.take(v@.len() as int) =~= v@);
    c
}

} // verus!
