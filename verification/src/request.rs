//! Builds the outbound texts of the protocol: the JSON body of a
//! task-creation request, the status-endpoint URL, and the bearer
//! authorization header.

use vstd::prelude::*;
use vstd::string::StringExecFns;

use crate::text::{json_escape, spec_json_escape, spec_u64_dec, string_from_chars, u64_dec_chars};
use crate::types::{RequestBody, Text2ImPrompt};

verus! {

/// The root of the task API.
pub open spec fn spec_api_base() -> Seq<char> {
    "https://labs.openai.com/api/labs/tasks"@
}

/// Returns the root of the task API.
pub fn api_base() -> (r: &'static str)
    ensures
        r@ == spec_api_base(),
{
    "https://labs.openai.com/api/labs/tasks"
}

/// The JSON rendering of a task-creation request body: both strings are
/// escaped, and the batch size stands as a bare decimal number.
pub open spec fn spec_request_body_json(task_type: Seq<char>, caption: Seq<char>, batch: nat) -> Seq<
    char,
> {
    "{\"task_type\":\""@ + spec_json_escape(task_type) + "\",\"prompt\":{\"caption\":\""@
        + spec_json_escape(caption) + "\",\"batch_size\":"@ + spec_u64_dec(batch) + "}}"@
}

/// The URL that reports the status of one task.
pub open spec fn spec_status_url(task_id: Seq<char>) -> Seq<char> {
    spec_api_base() + "/"@ + task_id
}

/// The value of the authorization header for a given bearer token.
pub open spec fn spec_auth_header(token: Seq<char>) -> Seq<char> {
    "Bearer "@ + token
}

/// Builds the request body for generating images from a text prompt.
pub fn text2im_request(prompt: &str, batch_size: u64) -> (b: RequestBody)
    ensures
        b.task_type@ == "text2im"@,
        b.prompt.caption@ == prompt@,
        b.prompt.batch_size == batch_size,
{
    RequestBody {
        task_type: String::from_str("text2im"),
        prompt: Text2ImPrompt { caption: String::from_str(prompt), batch_size },
    }
}

/// Renders a request body as its JSON text.
pub fn render_request_body(b: &RequestBody) -> (r: String)
    ensures
        r@ == spec_request_body_json(b.task_type@, b.prompt.caption@, b.prompt.batch_size as nat),
{
    let mut out = String::from_str("{\"task_type\":\"");
    let task_type = string_from_chars(&json_escape(b.task_type.as_str()));
    out.append(task_type.as_str());
    out.append("\",\"prompt\":{\"caption\":\"");
    let caption = string_from_chars(&json_escape(b.prompt.caption.as_str()));
    out.append(caption.as_str());
    out.append("\",\"batch_size\":");
    let amount = string_from_chars(&u64_dec_chars(b.prompt.batch_size));
    out.append(amount.as_str());
    out.append("}}");
    proof {
        assert(out@ =~= spec_request_body_json(
            b.task_type@,
            b.prompt.caption@,
            b.prompt.batch_size as nat,
        ));
    }
    out
}

/// Builds the URL of the status endpoint for one task.
pub fn status_url(task_id: &str) -> (r: String)
    ensures
        r@ == spec_status_url(task_id@),
{
    let mut out = String::from_str(api_base());
    out.append("/");
    out.append(task_id);
    proof {
        assert(out@ =~= spec_status_url(task_id@));
    }
    out
}

/// Builds the bearer authorization header for a token.
pub fn auth_header(token: &str) -> (r: String)
    ensures
        r@ == spec_auth_header(token@),
{
    let mut out = String::from_str("Bearer ");
    out.append(token);
    proof {
        assert(out@ =~= spec_auth_header(token@));
    }
    out
}

} // verus!
