//! Response framing: status line, `Content-Type`, `Content-Length` and
//! `Connection` headers, a blank line, then the body verbatim.  Errors
//! fall back to a custom page when the caller found one under the root,
//! and to a fixed plain-text message otherwise.

use vstd::prelude::*;
use crate::content_type::content_type_of;
use crate::content_type::get_content_type;
use crate::text::ascii;
use crate::text::lit;

verus! {

/// The status of a response, one per status line the server emits.
#[derive(Clone, Copy, PartialEq, Eq, Structural, Debug)]
pub enum Status {
    Success,
    BadRequest,
    Forbidden,
    NotFound,
    MethodNotAllowed,
    InternalError,
}

/// The code-and-reason text of a status line.
pub open spec fn status_text(s: Status) -> Seq<char> {
    match s {
        Status::Success => "200 OK"@,
        Status::BadRequest => "400 Bad Request"@,
        Status::Forbidden => "403 Forbidden"@,
        Status::NotFound => "404 Not Found"@,
        Status::MethodNotAllowed => "405 Method Not Allowed"@,
        Status::InternalError => "500 Internal Server Error"@,
    }
}

/// The three digits of a status code.
pub open spec fn status_digits(s: Status) -> Seq<char> {
    match s {
        Status::Success => "200"@,
        Status::BadRequest => "400"@,
        Status::Forbidden => "403"@,
        Status::NotFound => "404"@,
        Status::MethodNotAllowed => "405"@,
        Status::InternalError => "500"@,
    }
}

/// The default plain-text body served for a status when no custom error
/// page exists under the root.
pub open spec fn default_message(s: Status) -> Seq<char> {
    match s {
        Status::Success => ""@,
        Status::BadRequest => "Bad Request"@,
        Status::Forbidden => "Directory traversal not allowed"@,
        Status::NotFound => "File Not Found"@,
        Status::MethodNotAllowed => "Method Not Allowed"@,
        Status::InternalError => "Error reading file"@,
    }
}

/// The code-and-reason text of a status line, as bytes.
fn status_text_vec(s: Status) -> (v: Vec<u8>)
    ensures
        v@ == ascii(status_text(s)),
{
    match s {
        Status::Success => {
            proof {
                reveal_strlit("200 OK");
            }
            lit("200 OK")
        },
        Status::BadRequest => {
            proof {
                reveal_strlit("400 Bad Request");
            }
            lit("400 Bad Request")
        },
        Status::Forbidden => {
            proof {
                reveal_strlit("403 Forbidden");
            }
            lit("403 Forbidden")
        },
        Status::NotFound => {
            proof {
                reveal_strlit("404 Not Found");
            }
            lit("404 Not Found")
        },
        Status::MethodNotAllowed => {
            proof {
                reveal_strlit("405 Method Not Allowed");
            }
            lit("405 Method Not Allowed")
        },
        Status::InternalError => {
            proof {
                reveal_strlit("500 Internal Server Error");
            }
            lit("500 Internal Server Error")
        },
    }
}

/// The name of the custom error page for a status: its three digits
/// followed by `.html`, looked up under the root directory.
pub fn error_page_name(s: Status) -> (v: Vec<u8>)
    requires
        s != Status::Success,
    ensures
        v@ == ascii(status_digits(s)) + ascii(".html"@),
{
    proof {
        reveal_strlit(".html");
    }
    let mut v: Vec<u8> = match s {
        Status::Success => {
            proof {
                reveal_strlit("200");
            }
            lit("200")
        },
        Status::BadRequest => {
            proof {
                reveal_strlit("400");
            }
            lit("400")
        },
        Status::Forbidden => {
            proof {
                reveal_strlit("403");
            }
            lit("403")
        },
        Status::NotFound => {
            proof {
                reveal_strlit("404");
            }
            lit("404")
        },
        Status::MethodNotAllowed => {
            proof {
                reveal_strlit("405");
            }
            lit("405")
        },
        Status::InternalError => {
            proof {
                reveal_strlit("500");
            }
            lit("500")
        },
    };
    let mut suffix = lit(".html");
    v.append(&mut suffix);
    v
}

/// The decimal numeral of `n`, most significant digit first.
pub open spec fn dec_rep(n: nat) -> Seq<u8>
    decreases n,
{
    if n < 10 {
        seq![(48 + n) as u8]
    } else {
        dec_rep(n / 10) + seq![(48 + n % 10) as u8]
    }
}

/// The value a sequence of decimal digit bytes denotes.
pub open spec fn dec_val(s: Seq<u8>) -> int
    decreases s.len(),
{
    if s.len() == 0 {
        0
    } else {
        dec_val(s.drop_last()) * 10 + s.last() - 48
    }
}

/// Every byte of `s` is a decimal digit.
pub open spec fn all_digits(s: Seq<u8>) -> bool {
    forall|i: int| 0 <= i < s.len() ==> 48 <= #[trigger] s[i] <= 57
}

/// The decimal numeral of `n` is non-empty, made of digits only, and
/// denotes exactly `n`.
pub proof fn lemma_dec_rep_value(n: nat)
    ensures
        dec_rep(n).len() >= 1,
        all_digits(dec_rep(n)),
        dec_val(dec_rep(n)) == n,
    decreases n,
{
    if n < 10 {
        assert(dec_rep(n) =~= seq![(48 + n) as u8]);
        assert(dec_rep(n).drop_last() =~= Seq::<u8>::empty());
        assert(dec_val(Seq::<u8>::empty()) == 0);
        assert(dec_val(dec_rep(n)) == dec_val(dec_rep(n).drop_last()) * 10 + dec_rep(n).last()
            - 48);
        assert((48 + n) as u8 == 48 + n);
    } else {
        lemma_dec_rep_value(n / 10);
        assert(dec_rep(n).drop_last() =~= dec_rep(n / 10));
        assert(dec_rep(n).last() == (48 + n % 10) as u8);
        assert(n / 10 * 10 + n % 10 == n) by {
            vstd::arithmetic::div_mod::lemma_fundamental_div_mod(n as int, 10);
        };
    }
}

/// Renders the decimal numeral of `n`.
pub fn dec_vec(n: usize) -> (v: Vec<u8>)
    ensures
        v@ == dec_rep(n as nat),
    decreases n,
{
    if n < 10 {
        let mut v: Vec<u8> = Vec::new();
        v.push(48 + (n as u8));
        assert(v@ =~= dec_rep(n as nat));
        v
    } else {
        let mut v = dec_vec(n / 10);
        v.push(48 + ((n % 10) as u8));
        assert(v@ =~= dec_rep(n as nat));
        v
    }
}

/// The `Connection` header value a response carries.
pub open spec fn connection_token(keep_alive: bool) -> Seq<u8> {
    if keep_alive {
        ascii("keep-alive"@)
    } else {
        ascii("close"@)
    }
}

/// Everything of a response before the Content-Length numeral.
pub open spec fn render_before_length(status: Status, content_type: Seq<u8>) -> Seq<u8> {
    ascii("HTTP/1.1 "@) + ascii(status_text(status)) + ascii("\r\nContent-Type: "@)
        + content_type + ascii("\r\nContent-Length: "@)
}

/// Everything of a response after the Content-Length numeral.
pub open spec fn render_after_length(keep_alive: bool, body: Seq<u8>) -> Seq<u8> {
    ascii("\r\nConnection: "@) + connection_token(keep_alive) + ascii("\r\n\r\n"@) + body
}

/// The full wire rendering of a response.
pub open spec fn render(status: Status, content_type: Seq<u8>, body: Seq<u8>, keep_alive: bool) -> Seq<
    u8,
> {
    render_before_length(status, content_type) + dec_rep(body.len()) + render_after_length(
        keep_alive,
        body,
    )
}

/// The Content-Length header is exact: the numeral rendered between the
/// fixed header text and the rest of the response is made of digits only
/// and denotes precisely the byte length of the body.
pub proof fn lemma_content_length_exact(
    status: Status,
    content_type: Seq<u8>,
    body: Seq<u8>,
    keep_alive: bool,
)
    ensures
        render(status, content_type, body, keep_alive) == render_before_length(
            status,
            content_type,
        ) + dec_rep(body.len()) + render_after_length(keep_alive, body),
        all_digits(dec_rep(body.len())),
        dec_val(dec_rep(body.len())) == body.len(),
{
    lemma_dec_rep_value(body.len());
}

/// Renders a response: status line, the three headers, a blank line, and
/// the body verbatim.  The HTTP version is fixed at 1.1 and never varies
/// with the request.
pub fn render_response(status: Status, content_type: Vec<u8>, body: Vec<u8>, keep_alive: bool) -> (v:
    Vec<u8>)
    ensures
        v@ == render(status, content_type@, body@, keep_alive),
{
    proof {
        reveal_strlit("HTTP/1.1 ");
        reveal_strlit("\r\nContent-Type: ");
        reveal_strlit("\r\nContent-Length: ");
        reveal_strlit("\r\nConnection: ");
        reveal_strlit("keep-alive");
        reveal_strlit("close");
        reveal_strlit("\r\n\r\n");
    }
    let mut v = lit("HTTP/1.1 ");
    let mut part = status_text_vec(status);
    v.append(&mut part);
    let mut part = lit("\r\nContent-Type: ");
    v.append(&mut part);
    let mut ct = content_type;
    v.append(&mut ct);
    let mut part = lit("\r\nContent-Length: ");
    v.append(&mut part);
    let mut part = dec_vec(body.len());
    v.append(&mut part);
    let mut part = lit("\r\nConnection: ");
    v.append(&mut part);
    let mut part = if keep_alive {
        lit("keep-alive")
    } else {
        lit("close")
    };
    v.append(&mut part);
    let mut part = lit("\r\n\r\n");
    v.append(&mut part);
    let mut b = body;
    v.append(&mut b);
    assert(v@ =~= render(status, content_type@, body@, keep_alive));
    v
}

/// Renders a success response for a file: the content type is inferred
/// from the file name and the body is the file's bytes.
pub fn ok_response(filename: &Vec<u8>, body: Vec<u8>, keep_alive: bool) -> (v: Vec<u8>)
    ensures
        v@ == render(Status::Success, content_type_of(filename@), body@, keep_alive),
{
    let ct = get_content_type(filename);
    render_response(Status::Success, ct, body, keep_alive)
}

/// Renders an error response.  When a custom error page was found under
/// the root its bytes are served as `text/html`; otherwise the status's
/// default message is served as `text/plain`.  Error responses always
/// close the connection.
pub fn error_response(status: Status, page: Option<Vec<u8>>) -> (v: Vec<u8>)
    requires
        status != Status::Success,
    ensures
        page matches Some(c) ==> v@ == render(status, ascii("text/html"@), c@, false),
        page is None ==> v@ == render(
            status,
            ascii("text/plain"@),
            ascii(default_message(status)),
            false,
        ),
{
    proof {
        reveal_strlit("text/html");
        reveal_strlit("text/plain");
    }
    match page {
        Some(c) => render_response(status, lit("text/html"), c, false),
        None => {
            let msg = default_message_vec(status);
            render_response(status, lit("text/plain"), msg, false)
        },
    }
}

/// The default plain-text body for a status, as bytes.
fn default_message_vec(s: Status) -> (v: Vec<u8>)
    ensures
        v@ == ascii(default_message(s)),
{
    match s {
        Status::Success => {
            proof {
                reveal_strlit("");
            }
            lit("")
        },
        Status::BadRequest => {
            proof {
                reveal_strlit("Bad Request");
            }
            lit("Bad Request")
        },
        Status::Forbidden => {
            proof {
                reveal_strlit("Directory traversal not allowed");
            }
            lit("Directory traversal not allowed")
        },
        Status::NotFound => {
            proof {
                reveal_strlit("File Not Found");
            }
            lit("File Not Found")
        },
        Status::MethodNotAllowed => {
            proof {
                reveal_strlit("Method Not Allowed");
            }
            lit("Method Not Allowed")
        },
        Status::InternalError => {
            proof {
                reveal_strlit("Error reading file");
            }
            lit("Error reading file")
        },
    }
}

} // verus!
