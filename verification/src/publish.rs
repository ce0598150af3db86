//! The comment publisher's verifiable half: the endpoint URL, the request
//! body that wraps the diff text in a fenced code block, and the passing-on
//! of the response text. Issuing the HTTP request is the surrounding
//! binary's work.

use vstd::prelude::*;
use vstd::string::StringExecFns;

verus! {

/// The discussions endpoint for one merge request: host, project and merge
/// request interpolated into the fixed REST path.
pub open spec fn endpoint_of(host: Seq<char>, project_id: Seq<char>, mr_id: Seq<char>) -> Seq<
    char,
> {
    "https://"@ + host + "/api/v4/projects/"@ + project_id + "/merge_requests/"@ + mr_id
        + "/discussions"@
}

/// Builds the discussions endpoint URL, exactly as `endpoint_of` lays it out.
pub fn endpoint_url(host: &str, project_id: &str, mr_id: &str) -> (r: String)
    ensures
        r@ == endpoint_of(host@, project_id@, mr_id@),
{
    let mut url = String::from_str("https://");
    url.append(host);
    url.append("/api/v4/projects/");
    url.append(project_id);
    url.append("/merge_requests/");
    url.append(mr_id);
    url.append("/discussions");
    proof {
        assert(url@ =~= endpoint_of(host@, project_id@, mr_id@));
    }
    url
}

/// The comment body for a diff: a leading newline, the opening fence tagged
/// as a diff block, the text, and the closing fence.
pub open spec fn body_of(diff: Seq<char>) -> Seq<char> {
    "\n```diff\n"@ + diff + "\n```"@
}

/// Wraps the diff text in a fenced diff-tagged code block, byte for byte as
/// `body_of` lays it out.
pub fn comment_body(diff: &str) -> (r: String)
    ensures
        r@ == body_of(diff@),
{
    let mut body = String::from_str("\n```diff\n");
    body.append(diff);
    body.append("\n```");
    proof {
        assert(body@ =~= body_of(diff@));
    }
    body
}

/// Passes the response text on unchanged. The HTTP status code is taken but
/// never consulted: an error status is reported exactly like a success, and
/// the flow runs on to its normal end.
pub fn response_report(status: u16, body: String) -> (r: String)
    ensures
        r@ == body@,
{
    let _ = status;
    body
}

} // verus!
