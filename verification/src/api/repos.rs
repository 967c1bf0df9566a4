//! Repository endpoints: the paginated repository list and the Actions
//! permission check.
use crate::api::error::{api_error_says, fails_with_message, GitHubError};
use crate::api::http::{query_pair, repo_endpoint, repo_url, GITHUB_API_BASE};
use crate::api::models::Repo;
use crate::text::{decimal_text, push_decimal};
use vstd::prelude::*;

verus! {

/// Repositories requested per page; a shorter page is the last one.
pub const REPOS_PAGE_SIZE: usize = 100;

/// `<base>/user/repos`.
pub fn user_repos_url() -> (url: String)
    ensures
        url@ == GITHUB_API_BASE@ + "/user/repos"@,
{
    let mut url = String::from_str(GITHUB_API_BASE);
    url.append("/user/repos");
    url
}

/// The query of one page of the repository list: a hundred per page, the
/// page number, every affiliation, most recently updated first.
pub fn list_repos_query(page: i32) -> (q: Vec<(String, String)>)
    ensures
        q@.len() == 4,
        q@[0].0@ == "per_page"@ && q@[0].1@ == "100"@,
        q@[1].0@ == "page"@ && q@[1].1@ == decimal_text(page as int),
        q@[2].0@ == "affiliation"@ && q@[2].1@ == "owner,collaborator,organization_member"@,
        q@[3].0@ == "sort"@ && q@[3].1@ == "updated"@,
{
    let mut q: Vec<(String, String)> = Vec::new();
    q.push(query_pair("per_page", "100"));
    let mut page_text = String::new();
    push_decimal(&mut page_text, page as i128);
    assert(page_text@ =~= decimal_text(page as int));
    q.push((String::from_str("page"), page_text));
    q.push(query_pair("affiliation", "owner,collaborator,organization_member"));
    q.push(query_pair("sort", "updated"));
    q
}

/// The progress of fetching the whole repository list page by page.
pub struct RepoListing {
    page: i32,
    repos: Vec<Repo>,
    finished: bool,
}

impl RepoListing {
    /// The page to fetch next.
    pub closed spec fn spec_page(&self) -> i32 {
        self.page
    }

    /// The repositories gathered so far, in page order.
    pub closed spec fn spec_repos(&self) -> Seq<Repo> {
        self.repos@
    }

    /// The last page has been received.
    pub closed spec fn spec_finished(&self) -> bool {
        self.finished
    }

    /// Starts at page one with nothing gathered.
    pub fn new() -> (l: RepoListing)
        ensures
            l.spec_page() == 1,
            l.spec_repos() == Seq::<Repo>::empty(),
            !l.spec_finished(),
    {
        RepoListing { page: 1, repos: Vec::new(), finished: false }
    }

    /// The page to request next, or nothing once the last page was received.
    pub fn next_page(&self) -> (p: Option<i32>)
        ensures
            p == (if self.spec_finished() {
                None
            } else {
                Some(self.spec_page())
            }),
    {
        if self.finished {
            None
        } else {
            Some(self.page)
        }
    }

    /// Adds a received page: its repositories are appended, and a page
    /// shorter than a hundred ends the listing; otherwise the next page is
    /// due.
    pub fn receive_page(&mut self, batch: Vec<Repo>)
        requires
            !old(self).spec_finished(),
            batch@.len() >= REPOS_PAGE_SIZE ==> old(self).spec_page() < i32::MAX,
        ensures
            final(self).spec_repos() == old(self).spec_repos() + batch@,
            final(self).spec_finished() == (batch@.len() < REPOS_PAGE_SIZE),
            final(self).spec_page() == (if batch@.len() < REPOS_PAGE_SIZE {
                old(self).spec_page()
            } else {
                (old(self).spec_page() + 1) as i32
            }),
    {
        let count = batch.len();
        let mut batch = batch;
        self.repos.append(&mut batch);
        if count < REPOS_PAGE_SIZE {
            self.finished = true;
        } else {
            self.page = self.page + 1;
        }
    }

    /// All repositories gathered.
    pub fn into_repos(self) -> (repos: Vec<Repo>)
        ensures
            repos@ == self.spec_repos(),
    {
        self.repos
    }
}

/// `<base>/repos/<owner>/<repo>/actions/permissions`.
pub fn actions_permissions_url(owner: &str, repo: &str) -> (url: String)
    ensures
        url@ == repo_endpoint(owner@, repo@) + "/actions/permissions"@,
{
    repo_url(owner, repo, "/actions/permissions")
}

/// What to do with the response to the Actions permission check.
#[derive(Debug, PartialEq)]
pub enum PermissionsStep {
    /// 200: decode the `enabled` flag from the body.
    Decode,
    /// 304: answer from a cached response.
    UseCached,
    /// The answer is known from the status alone.
    Decided(Result<bool, GitHubError>),
    /// Another status: report the body with `api_error`.
    ReportBody,
}

/// How the permission check reads a status. Without access (403 or 404) the
/// repository is assumed to have Actions enabled, so that it stays visible.
pub open spec fn permissions_step(status: u16) -> PermissionsStep {
    if status == 200 {
        PermissionsStep::Decode
    } else if status == 304 {
        PermissionsStep::UseCached
    } else if status == 404 || status == 403 {
        PermissionsStep::Decided(Ok(true))
    } else if status == 401 {
        PermissionsStep::Decided(Err(GitHubError::AuthenticationFailed))
    } else {
        PermissionsStep::ReportBody
    }
}

/// The permission check decodes only a 200, answers a 304 from the cache,
/// treats a lack of access (403 or 404) as enabled, fails only a rejected
/// token (401) as such, and reports every other status with its body.
pub proof fn law_permissions_status_handling(status: u16)
    ensures
        permissions_step(status) == PermissionsStep::Decode <==> status == 200,
        permissions_step(status) == PermissionsStep::UseCached <==> status == 304,
        permissions_step(status) == PermissionsStep::Decided(Ok(true)) <==> (status == 403 || status
            == 404),
        permissions_step(status) == PermissionsStep::Decided(Err(GitHubError::AuthenticationFailed))
            <==> status == 401,
        permissions_step(status) == PermissionsStep::ReportBody <==> !(status == 200 || status == 304
            || status == 403 || status == 404 || status == 401),
{
}

/// Decides how to handle the response to the permission check.
pub fn is_actions_enabled_step(status: u16) -> (step: PermissionsStep)
    ensures
        step == permissions_step(status),
{
    match status {
        200 => PermissionsStep::Decode,
        304 => PermissionsStep::UseCached,
        404 | 403 => PermissionsStep::Decided(Ok(true)),
        401 => PermissionsStep::Decided(Err(GitHubError::AuthenticationFailed)),
        _ => PermissionsStep::ReportBody,
    }
}

/// The error for a permission body that cannot be decoded.
pub fn permissions_parse_error(detail: &str) -> (e: GitHubError)
    ensures
        api_error_says(e, "Failed to parse permissions response: "@ + detail@),
{
    let mut message = String::from_str("Failed to parse permissions response: ");
    message.append(detail);
    GitHubError::ApiError(message)
}

/// The answer to a 304 from the cached permission flag, if one is cached.
pub fn permissions_from_cache(cached: Option<bool>) -> (r: Result<bool, GitHubError>)
    ensures
        match cached {
            Some(enabled) => r == Ok::<bool, GitHubError>(enabled),
            None => fails_with_message(r, "Permissions response cache miss"@),
        },
{
    match cached {
        Some(enabled) => Ok(enabled),
        None => Err(GitHubError::ApiError(String::from_str("Permissions response cache miss"))),
    }
}

} // verus!
