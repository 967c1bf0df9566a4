//! Response handling shared by all endpoints: rate-limit tracking, status
//! interpretation and the authorization header.
use crate::api::error::{api_error_says, GitHubError};
use crate::api::models::RateLimitInfo;
use crate::text::{decimal_text, parse_i64, parsed_i64, push_decimal};
use vstd::prelude::*;

verus! {

pub const GITHUB_API_BASE: &'static str = "https://api.github.com";

/// The user agent the client identifies itself with.
pub const USER_AGENT: &'static str = "Actioneer-Linux/0.1.0";

/// The value of a header, parsed as `str::parse::<i64>` would; absent headers
/// give nothing.
pub open spec fn header_number(value: Option<&str>) -> Option<i64> {
    match value {
        Some(v) => parsed_i64(v@),
        None => None,
    }
}

/// The rate limit that three `x-ratelimit-*` header values describe, if all
/// three are present and numeric.
pub open spec fn rate_limit_from_headers(
    limit: Option<&str>,
    remaining: Option<&str>,
    reset: Option<&str>,
) -> Option<RateLimitInfo> {
    match (header_number(limit), header_number(remaining), header_number(reset)) {
        (Some(l), Some(m), Some(r)) => Some(RateLimitInfo { limit: l, remaining: m, reset: r }),
        _ => None,
    }
}

fn header_value_number(value: Option<&str>) -> (n: Option<i64>)
    ensures
        n == header_number(value),
{
    match value {
        Some(v) => parse_i64(v),
        None => None,
    }
}

/// Tracks the most recent rate-limit information seen in responses.
pub struct ResponseHandler {
    rate_limit: Option<RateLimitInfo>,
}

impl ResponseHandler {
    pub closed spec fn spec_rate_limit(&self) -> Option<RateLimitInfo> {
        self.rate_limit
    }

    pub fn new(rate_limit: Option<RateLimitInfo>) -> (h: ResponseHandler)
        ensures
            h.spec_rate_limit() == rate_limit,
    {
        ResponseHandler { rate_limit }
    }

    /// The latest rate-limit information, if any response carried it.
    pub fn get_rate_limit(&self) -> (info: Option<RateLimitInfo>)
        ensures
            info == self.spec_rate_limit(),
    {
        self.rate_limit
    }

    /// Records the rate limit from the `x-ratelimit-limit`,
    /// `x-ratelimit-remaining` and `x-ratelimit-reset` header values. When
    /// one is missing or not a number, the previous information stays.
    pub fn update_rate_limit(
        &mut self,
        limit: Option<&str>,
        remaining: Option<&str>,
        reset: Option<&str>,
    )
        ensures
            final(self).spec_rate_limit() == match rate_limit_from_headers(limit, remaining, reset) {
                Some(info) => Some(info),
                None => old(self).spec_rate_limit(),
            },
    {
        let l = header_value_number(limit);
        let m = header_value_number(remaining);
        let r = header_value_number(reset);
        match (l, m, r) {
            (Some(limit), Some(remaining), Some(reset)) => {
                self.rate_limit = Some(RateLimitInfo { limit, remaining, reset });
            },
            _ => {},
        }
    }
}

/// What to do with a response to a JSON request.
#[derive(Debug, Clone, PartialEq)]
pub enum ResponseAction {
    /// Success (200 or 201): decode the body.
    Decode,
    /// The request failed with this error.
    Fail(GitHubError),
    /// Another status: read the body as text and report it with
    /// `api_error`.
    ReportBody,
}

/// How a JSON response is handled, given its HTTP status.
pub open spec fn json_response_action(status: u16) -> ResponseAction {
    if status == 200 || status == 201 {
        ResponseAction::Decode
    } else if status == 401 || status == 403 {
        ResponseAction::Fail(GitHubError::AuthenticationFailed)
    } else if status == 404 {
        ResponseAction::Fail(GitHubError::NotFound)
    } else if status == 429 {
        ResponseAction::Fail(GitHubError::RateLimitExceeded)
    } else {
        ResponseAction::ReportBody
    }
}

/// Only 200 and 201 are decoded; a rejected token (401 or 403), a missing
/// resource (404) and an exhausted rate limit (429) each fail with their own
/// error, and every other status is reported with its body.
pub proof fn law_json_status_handling(status: u16)
    ensures
        json_response_action(status) == ResponseAction::Decode <==> (status == 200 || status == 201),
        json_response_action(status) == ResponseAction::Fail(GitHubError::AuthenticationFailed) <==> (
        status == 401 || status == 403),
        json_response_action(status) == ResponseAction::Fail(GitHubError::NotFound) <==> status == 404,
        json_response_action(status) == ResponseAction::Fail(GitHubError::RateLimitExceeded) <==> status
            == 429,
        json_response_action(status) == ResponseAction::ReportBody <==> !(status == 200 || status == 201
            || status == 401 || status == 403 || status == 404 || status == 429),
{
}

/// Decides how to handle a JSON response from its status.
pub fn handle_status(status: u16) -> (a: ResponseAction)
    ensures
        a == json_response_action(status),
{
    match status {
        200 | 201 => ResponseAction::Decode,
        401 | 403 => ResponseAction::Fail(GitHubError::AuthenticationFailed),
        404 => ResponseAction::Fail(GitHubError::NotFound),
        429 => ResponseAction::Fail(GitHubError::RateLimitExceeded),
        _ => ResponseAction::ReportBody,
    }
}

/// The reason phrase reqwest's `StatusCode` displays after the code: the
/// canonical reason of a registered status (`Internal Server Error`), or
/// `<unknown status code>`.
pub uninterp spec fn status_reason(status: u16) -> Seq<char>;

/// What `StatusCode` displays for a status: its three digits, a space and
/// its reason phrase, such as `500 Internal Server Error`.
pub open spec fn status_display(status: u16) -> Seq<char> {
    decimal_text(status as int) + " "@ + status_reason(status)
}

/// An HTTP status code as reqwest accepts one: three digits.
pub open spec fn is_status_code(status: u16) -> bool {
    100 <= status <= 999
}

/// Renders a status as `reqwest::StatusCode` displays it (`Display`, after
/// `StatusCode::from_u16`): the code, a space and the reason phrase. The
/// reason phrase is named; the table of phrases behind it is left unstated.
#[verifier::external_body]
pub(crate) fn status_text(status: u16) -> (text: String)
    requires
        is_status_code(status),
    ensures
        text@ == decimal_text(status as int) + " "@ + status_reason(status),
{
    match reqwest::StatusCode::from_u16(status) {
        Ok(code) => code.to_string(),
        Err(_) => String::new(),
    }
}

/// The error for an unexpected status: `Status <status>: <body>`, the status
/// rendered as `StatusCode` displays it (`500 Internal Server Error`).
pub fn api_error(status: u16, body: &str) -> (e: GitHubError)
    requires
        is_status_code(status),
    ensures
        api_error_says(e, "Status "@ + status_display(status) + ": "@ + body@),
{
    let mut message = String::from_str("Status ");
    let shown = status_text(status);
    message.append(shown.as_str());
    message.append(": ");
    message.append(body);
    GitHubError::ApiError(message)
}

/// A status in the 2xx range, as `StatusCode::is_success` tells.
pub open spec fn is_success_status(status: u16) -> bool {
    200 <= status <= 299
}

/// The `Authorization` header value for a token: `Bearer <token>`; no header
/// without a token.
pub fn auth_header_value(token: &Option<String>) -> (h: Option<String>)
    ensures
        match (h, *token) {
            (Some(v), Some(t)) => v@ == "Bearer "@ + t@,
            (None, None) => true,
            _ => false,
        },
{
    match token {
        Some(t) => {
            let mut v = String::from_str("Bearer ");
            v.append(t.as_str());
            Some(v)
        },
        None => None,
    }
}

/// The API address of a repository: `<base>/repos/<owner>/<repo>`.
pub open spec fn repo_endpoint(owner: Seq<char>, repo: Seq<char>) -> Seq<char> {
    GITHUB_API_BASE@ + "/repos/"@ + owner + "/"@ + repo
}

/// Builds `<base>/repos/<owner>/<repo>` followed by `tail`.
pub fn repo_url(owner: &str, repo: &str, tail: &str) -> (url: String)
    ensures
        url@ == repo_endpoint(owner@, repo@) + tail@,
{
    let mut url = String::from_str(GITHUB_API_BASE);
    url.append("/repos/");
    url.append(owner);
    url.append("/");
    url.append(repo);
    url.append(tail);
    url
}

/// Builds `<base>/repos/<owner>/<repo>` followed by `middle`, a decimal id
/// and `tail`.
pub fn repo_id_url(owner: &str, repo: &str, middle: &str, id: i64, tail: &str) -> (url: String)
    ensures
        url@ == repo_endpoint(owner@, repo@) + middle@ + decimal_text(id as int) + tail@,
{
    let mut url = repo_url(owner, repo, middle);
    push_decimal(&mut url, id as i128);
    url.append(tail);
    url
}

/// A query parameter as a name/value pair.
pub fn query_pair(name: &str, value: &str) -> (p: (String, String))
    ensures
        p.0@ == name@,
        p.1@ == value@,
{
    (String::from_str(name), String::from_str(value))
}

/// An `ApiError` whose message is `prefix` followed by the status as
/// `StatusCode` displays it.
pub fn status_error(prefix: &str, status: u16) -> (e: GitHubError)
    requires
        is_status_code(status),
    ensures
        api_error_says(e, prefix@ + status_display(status)),
{
    let mut message = String::from_str(prefix);
    let shown = status_text(status);
    message.append(shown.as_str());
    GitHubError::ApiError(message)
}

} // verus!
