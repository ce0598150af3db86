//! The diff collector's verifiable half: the exact argument sequence handed
//! to the deployment CLI, and the turning of whatever that subprocess wrote
//! on standard output into the diff text — decoded leniently, then trimmed.
//! Launching the subprocess itself is the surrounding binary's work.

use vstd::prelude::*;
use vstd::string::StringExecFns;
use crate::text::{trim, trim_chars, is_space};

verus! {

/// What `String::from_utf8_lossy` returns for the given bytes: a function of
/// the bytes alone, left unnamed beyond that.
pub uninterp spec fn lossy_utf8(bytes: Seq<u8>) -> Seq<char>;

/// Relies on `String::from_utf8_lossy`: decodes the bytes as UTF-8 with
/// invalid sequences replaced rather than rejected; the result depends on
/// the bytes alone.
#[verifier::external_body]
fn decode_lossy(bytes: &[u8]) -> (r: String)
    ensures
        r@ == lossy_utf8(bytes@),
{
    String::from_utf8_lossy(bytes).into_owned()
}

/// The executable that computes the diff.
pub fn diff_program() -> (r: &'static str)
    ensures
        r@ == "argocd"@,
{
    "argocd"
}

/// The argument sequence of one diff invocation: the fixed verb, then the
/// server, the token, the application and the revision, each its own
/// argument, in this order and under these flag names.
pub open spec fn diff_invocation(
    host: Seq<char>,
    token: Seq<char>,
    app_name: Seq<char>,
    revision: Seq<char>,
) -> Seq<Seq<char>> {
    seq![
        "app"@,
        "diff"@,
        "--server"@,
        host,
        "--auth-token"@,
        token,
        app_name,
        "--revision"@,
        revision,
    ]
}

/// Builds the arguments for one diff invocation, each value a process
/// argument of its own, never spliced into a shell string.
pub fn diff_command_args(host: &str, token: &str, app_name: &str, revision: &str) -> (r: Vec<
    String,
>)
    ensures
        r.deep_view() == diff_invocation(host@, token@, app_name@, revision@),
{
    let mut args: Vec<String> = Vec::new();
    args.push(String::from_str("app"));
    args.push(String::from_str("diff"));
    args.push(String::from_str("--server"));
    args.push(String::from_str(host));
    args.push(String::from_str("--auth-token"));
    args.push(String::from_str(token));
    args.push(String::from_str(app_name));
    args.push(String::from_str("--revision"));
    args.push(String::from_str(revision));
    proof {
        assert(args.deep_view() =~= diff_invocation(host@, token@, app_name@, revision@));
    }
    args
}

/// The diff text that one run of the collector yields: its standard output,
/// decoded leniently and trimmed.
pub open spec fn diff_text_of(stdout: Seq<u8>) -> Seq<char> {
    trim_chars(lossy_utf8(stdout))
}

/// Turns a finished run into the diff text. The exit status is taken but
/// never consulted: a run that failed yet wrote output yields that output
/// like any other.
pub fn diff_from_output(exit_code: i32, stdout: &[u8]) -> (r: String)
    ensures
        r@ == diff_text_of(stdout@),
{
    let _ = exit_code;
    let decoded = decode_lossy(stdout);
    trim(decoded.as_str())
}

/// The diff text carries no white space at its edges, whatever the
/// subprocess wrote.
pub proof fn lemma_diff_text_trimmed(stdout: Seq<u8>)
    ensures
        diff_text_of(stdout).len() > 0 ==> !is_space(diff_text_of(stdout).first()),
        diff_text_of(stdout).len() > 0 ==> !is_space(diff_text_of(stdout).last()),
{
    crate::text::lemma_trim_no_edge_space(lossy_utf8(stdout));
}

} // verus!
