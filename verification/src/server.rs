//! Status dispatch: the precedence order over method and path, the plan
//! a request yields, and the response owed to each file-lookup outcome.
//!
//! A connection handler drives a request through two steps.  First
//! [`plan_request`] turns the request lines into a plan: stop silently,
//! answer an error, or fetch a file.  Then, once the caller has attempted
//! the file read, [`respond_to_fetch`] says what to answer: the file's
//! bytes on success, or which error page to consult.  Error answers are
//! finished by [`crate::response::error_response`] once the caller has
//! looked for the custom page.  Custom error pages are consulted for
//! every error status uniformly.

use vstd::prelude::*;
use crate::request::has_two_tokens;
use crate::request::method_of;
use crate::request::parse_request;
use crate::request::scan_keep_alive;
use crate::request::target_of;
use crate::request::wants_keep_alive;
use crate::request::ParseError;
use crate::resolve::is_traversal;
use crate::resolve::resolve_path;
use crate::resolve::resolved_target;
use crate::resolve::Resolution;
use crate::response::render;
use crate::response::status_digits;
use crate::response::Status;
use crate::content_type::content_type_of;
use crate::text::ascii;
use crate::text::bytes_eq;
use crate::text::lit;

verus! {

/// What a request calls for, decided before any file is touched.
pub enum RequestPlan {
    /// The stream closed before a request line arrived: stop without
    /// writing a response.
    Abort,
    /// Answer this error status without touching the target.
    Deny(Status),
    /// Serve the file with this name under the root, and answer with
    /// this connection mode.
    Fetch { filename: Vec<u8>, keep_alive: bool },
}

/// Decides what a request calls for, in precedence order: no request
/// line at all stops the handler; fewer than two tokens is a bad
/// request; a method other than `GET` is not allowed; a target holding
/// `..` is forbidden; anything else names a file to fetch.
pub fn plan_request(lines: &Vec<Vec<u8>>) -> (p: RequestPlan)
    ensures
        lines@.len() == 0 ==> p is Abort,
        lines@.len() > 0 && !has_two_tokens(lines@[0]@) ==> p === RequestPlan::Deny(
            Status::BadRequest,
        ),
        lines@.len() > 0 && has_two_tokens(lines@[0]@) && method_of(lines@[0]@) != ascii("GET"@)
            ==> p === RequestPlan::Deny(Status::MethodNotAllowed),
        lines@.len() > 0 && has_two_tokens(lines@[0]@) && method_of(lines@[0]@) == ascii("GET"@)
            && is_traversal(target_of(lines@[0]@)) ==> p === RequestPlan::Deny(Status::Forbidden),
        lines@.len() > 0 && has_two_tokens(lines@[0]@) && method_of(lines@[0]@) == ascii("GET"@)
            && !is_traversal(target_of(lines@[0]@)) ==> (p matches RequestPlan::Fetch {
            filename,
            keep_alive,
        } && filename@ == resolved_target(target_of(lines@[0]@)) && keep_alive == wants_keep_alive(
            lines.deep_view().drop_first(),
        )),
{
    proof {
        reveal_strlit("GET");
    }
    let req = match parse_request(lines) {
        Err(ParseError::IoFailure) => {
            return RequestPlan::Abort;
        },
        Err(ParseError::Malformed) => {
            return RequestPlan::Deny(Status::BadRequest);
        },
        Ok(req) => req,
    };
    let get = lit("GET");
    if !bytes_eq(&req.method, &get) {
        return RequestPlan::Deny(Status::MethodNotAllowed);
    }
    match resolve_path(&req.path) {
        Resolution::Traversal => RequestPlan::Deny(Status::Forbidden),
        Resolution::Target(filename) => {
            let keep_alive = scan_keep_alive(&req.headers);
            RequestPlan::Fetch { filename, keep_alive }
        },
    }
}

/// The outcome of trying to read the planned file under the root.
pub enum FileOutcome {
    /// No file of that name exists.
    Missing,
    /// The file exists but could not be read as text.
    Unreadable,
    /// The file's bytes.
    Content(Vec<u8>),
}

/// The next move after a file lookup: either the finished response
/// bytes, or an error status together with the name of the custom error
/// page to look for under the root.
pub enum ResponseStep {
    Done(Vec<u8>),
    NeedPage(Status, Vec<u8>),
}

/// Answers a file-lookup outcome: the file's bytes become a success
/// response; a missing file asks for the not-found page; an unreadable
/// one for the internal-error page.
pub fn respond_to_fetch(filename: &Vec<u8>, outcome: FileOutcome, keep_alive: bool) -> (r:
    ResponseStep)
    ensures
        outcome matches FileOutcome::Content(b) ==> (r matches ResponseStep::Done(v) && v@
            == render(Status::Success, content_type_of(filename@), b@, keep_alive)),
        outcome is Missing ==> (r matches ResponseStep::NeedPage(s, n) && s == Status::NotFound
            && n@ == ascii(status_digits(Status::NotFound)) + ascii(".html"@)),
        outcome is Unreadable ==> (r matches ResponseStep::NeedPage(s, n) && s
            == Status::InternalError && n@ == ascii(status_digits(Status::InternalError)) + ascii(
            ".html"@,
        )),
{
    match outcome {
        FileOutcome::Content(b) => ResponseStep::Done(
            crate::response::ok_response(filename, b, keep_alive),
        ),
        FileOutcome::Missing => ResponseStep::NeedPage(
            Status::NotFound,
            crate::response::error_page_name(Status::NotFound),
        ),
        FileOutcome::Unreadable => ResponseStep::NeedPage(
            Status::InternalError,
            crate::response::error_page_name(Status::InternalError),
        ),
    }
}

/// Serving is idempotent: two runs of the pipeline over the same request
/// lines agree on the plan, and two file lookups with the same outcome
/// render byte-identical responses.
pub proof fn lemma_request_idempotent(
    lines: Vec<Vec<u8>>,
    p1: RequestPlan,
    p2: RequestPlan,
)
    requires
        call_ensures(plan_request, (&lines,), p1),
        call_ensures(plan_request, (&lines,), p2),
    ensures
        p1 is Abort <==> p2 is Abort,
        p1 matches RequestPlan::Deny(s1) ==> (p2 matches RequestPlan::Deny(s2) && s1 == s2),
        p1 matches RequestPlan::Fetch { filename: f1, keep_alive: k1 } ==> (p2
            matches RequestPlan::Fetch { filename: f2, keep_alive: k2 } && f1@ == f2@ && k1 == k2),
{
}

/// The rendered answer to a fetch is a function of the file name, the
/// lookup outcome and the connection mode alone: the same inputs render
/// byte-identical responses.
pub proof fn lemma_fetch_idempotent(
    filename: Vec<u8>,
    outcome: FileOutcome,
    keep_alive: bool,
    r1: ResponseStep,
    r2: ResponseStep,
)
    requires
        call_ensures(respond_to_fetch, (&filename, outcome, keep_alive), r1),
        call_ensures(respond_to_fetch, (&filename, outcome, keep_alive), r2),
    ensures
        r1 matches ResponseStep::Done(v1) ==> (r2 matches ResponseStep::Done(v2) && v1@ == v2@),
        r1 matches ResponseStep::NeedPage(s1, n1) ==> (r2 matches ResponseStep::NeedPage(s2, n2)
            && s1 == s2 && n1@ == n2@),
{
}

} // verus!
