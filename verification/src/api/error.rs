//! Errors reported by the GitHub API layer.
use vstd::prelude::*;

verus! {

#[derive(Debug, Clone, PartialEq)]
pub enum GitHubError {
    /// The token was rejected (401 or 403).
    AuthenticationFailed,
    /// The resource does not exist or is not visible (404).
    NotFound,
    /// The rate limit is exhausted (429).
    RateLimitExceeded,
    /// Any other unsuccessful response, with a description.
    ApiError(String),
    /// The request could not be sent or its body could not be read.
    RequestFailed(String),
}

/// `e` is an `ApiError` whose message is `message`.
pub open spec fn api_error_says(e: GitHubError, message: Seq<char>) -> bool {
    match e {
        GitHubError::ApiError(m) => m@ == message,
        _ => false,
    }
}

/// `r` failed with an `ApiError` whose message is `message`.
pub open spec fn fails_with_message<T>(r: Result<T, GitHubError>, message: Seq<char>) -> bool {
    match r {
        Err(e) => api_error_says(e, message),
        Ok(_) => false,
    }
}

} // verus!
