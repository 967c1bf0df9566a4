//! Workflow endpoints: listing workflows and dispatching them.
use crate::api::error::{fails_with_message, GitHubError};
use crate::api::http::{is_status_code, repo_endpoint, repo_url, status_display, status_error};
use vstd::prelude::*;

verus! {

/// `<base>/repos/<owner>/<repo>/actions/workflows`.
pub fn workflows_url(owner: &str, repo: &str) -> (url: String)
    ensures
        url@ == repo_endpoint(owner@, repo@) + "/actions/workflows"@,
{
    repo_url(owner, repo, "/actions/workflows")
}

/// `<base>/repos/<owner>/<repo>/actions/workflows/<workflow>/dispatches`.
pub fn dispatch_workflow_url(owner: &str, repo: &str, workflow_id: &str) -> (url: String)
    ensures
        url@ == repo_endpoint(owner@, repo@) + "/actions/workflows/"@ + workflow_id@
            + "/dispatches"@,
{
    let mut url = repo_url(owner, repo, "/actions/workflows/");
    url.append(workflow_id);
    url.append("/dispatches");
    url
}

/// A dispatch succeeded only with 204 No Content; otherwise the error says
/// `Failed to dispatch workflow: <status>`.
pub fn dispatch_workflow_outcome(status: u16) -> (r: Result<(), GitHubError>)
    requires
        is_status_code(status),
    ensures
        status == 204 ==> r is Ok,
        status != 204 ==> fails_with_message(
            r,
            "Failed to dispatch workflow: "@ + status_display(status),
        ),
{
    if status == 204 {
        Ok(())
    } else {
        Err(status_error("Failed to dispatch workflow: ", status))
    }
}

/// A lower-case hexadecimal digit (`0 <= d < 16`).
pub open spec fn hex_digit(d: nat) -> char
    recommends
        d < 16,
{
    if d < 10 {
        (d + 48) as char
    } else {
        (d + 87) as char
    }
}

/// A character as it stands inside a JSON string: quotation mark and
/// backslash escaped, the control characters with a short escape written
/// so, the other control characters as `\u00XX`, everything else as is.
pub open spec fn json_escaped_char(c: char) -> Seq<char> {
    if c == '"' {
        seq!['\\', '"']
    } else if c == '\\' {
        seq!['\\', '\\']
    } else if c == '\n' {
        seq!['\\', 'n']
    } else if c == '\r' {
        seq!['\\', 'r']
    } else if c == '\t' {
        seq!['\\', 't']
    } else if c == '\u{8}' {
        seq!['\\', 'b']
    } else if c == '\u{c}' {
        seq!['\\', 'f']
    } else if (c as u32) < 0x20 {
        seq!['\\', 'u', '0', '0', hex_digit((c as u32 / 16) as nat), hex_digit((c as u32 % 16) as nat)]
    } else {
        seq![c]
    }
}

/// The characters of a text with each one escaped for a JSON string.
pub open spec fn json_escaped(s: Seq<char>) -> Seq<char>
    decreases s.len(),
{
    if s.len() == 0 {
        Seq::empty()
    } else {
        json_escaped(s.drop_last()) + json_escaped_char(s.last())
    }
}

/// A text as a JSON string literal.
pub open spec fn json_string(s: Seq<char>) -> Seq<char> {
    seq!['"'] + json_escaped(s) + seq!['"']
}

/// The body of a dispatch request as compact JSON: the ref to run on, and
/// the inputs (JSON text) when there are any, the members in key order.
pub open spec fn dispatch_body_text(ref_name: Seq<char>, inputs: Option<Seq<char>>) -> Seq<char> {
    match inputs {
        None => "{\"ref\":"@ + json_string(ref_name) + "}"@,
        Some(i) => "{\"inputs\":"@ + i + ",\"ref\":"@ + json_string(ref_name) + "}"@,
    }
}

/// Writes a text as a JSON string with `serde_json::to_string`. As the
/// crate's serializer (`format_escaped_str` and its `ESCAPE` table) shows,
/// the result is the text in quotation marks with quotation mark, backslash
/// and the control characters escaped, the latter as `\b`, `\t`, `\n`,
/// `\f`, `\r` or `\u00XX` in lower-case hex. Serialising a `str` cannot
/// fail.
#[verifier::external_body]
fn json_string_of(s: &str) -> (text: String)
    ensures
        text@ == json_string(s@),
{
    match serde_json::to_string(s) {
        Ok(text) => text,
        Err(_) => String::new(),
    }
}

/// The JSON body of a dispatch request for `ref_name`, with the inputs'
/// JSON text when the caller gives some.
pub fn dispatch_body(ref_name: &str, inputs_json: Option<&str>) -> (body: String)
    ensures
        body@ == dispatch_body_text(
            ref_name@,
            match inputs_json {
                Some(i) => Some(i@),
                None => None,
            },
        ),
{
    let mut body = String::from_str("{");
    match inputs_json {
        Some(i) => {
            body.append("\"inputs\":");
            body.append(i);
            body.append(",");
        },
        None => {},
    }
    body.append("\"ref\":");
    let literal = json_string_of(ref_name);
    body.append(literal.as_str());
    body.append("}");
    proof {
        reveal_strlit("{");
        reveal_strlit("\"inputs\":");
        reveal_strlit(",");
        reveal_strlit("\"ref\":");
        reveal_strlit("}");
        reveal_strlit("{\"ref\":");
        reveal_strlit("{\"inputs\":");
        reveal_strlit(",\"ref\":");
    }
    assert(body@ =~= dispatch_body_text(
        ref_name@,
        match inputs_json {
            Some(i) => Some(i@),
            None => None,
        },
    ));
    body
}

} // verus!
