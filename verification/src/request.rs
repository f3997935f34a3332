//! Request parsing: the request line is split on whitespace into tokens;
//! the first token is the method and the second the request target.  The
//! remaining lines are kept verbatim as headers, and the `Connection`
//! header is scanned case-insensitively for `keep-alive`.

use vstd::prelude::*;
use crate::text::ascii;
use crate::text::contains;
use crate::text::contains_bytes;
use crate::text::has_prefix;
use crate::text::lit;
use crate::text::lower_bytes;
use crate::text::slice_bytes;
use crate::text::starts_with_bytes;
use crate::text::to_lower;

verus! {

/// ASCII whitespace: space, tab, line feed, vertical tab, form feed,
/// carriage return.
pub open spec fn is_ws(b: u8) -> bool {
    b == 32 || (9 <= b && b <= 13)
}

/// The first position at or after `i` holding a non-whitespace byte, or
/// the end of `s`.
pub open spec fn skip_ws(s: Seq<u8>, i: int) -> int
    decreases s.len() - i,
{
    if i < 0 || i >= s.len() {
        s.len() as int
    } else if is_ws(s[i]) {
        skip_ws(s, i + 1)
    } else {
        i
    }
}

/// The first position at or after `i` holding a whitespace byte, or the
/// end of `s`.
pub open spec fn skip_token(s: Seq<u8>, i: int) -> int
    decreases s.len() - i,
{
    if i < 0 || i >= s.len() {
        s.len() as int
    } else if !is_ws(s[i]) {
        skip_token(s, i + 1)
    } else {
        i
    }
}

/// Where the first token of `s` starts.
pub open spec fn token1_start(s: Seq<u8>) -> int {
    skip_ws(s, 0)
}

/// Where the first token of `s` ends.
pub open spec fn token1_end(s: Seq<u8>) -> int {
    skip_token(s, token1_start(s))
}

/// Where the second token of `s` starts.
pub open spec fn token2_start(s: Seq<u8>) -> int {
    skip_ws(s, token1_end(s))
}

/// Where the second token of `s` ends.
pub open spec fn token2_end(s: Seq<u8>) -> int {
    skip_token(s, token2_start(s))
}

/// Splitting `s` on whitespace yields at least two tokens.
pub open spec fn has_two_tokens(s: Seq<u8>) -> bool {
    token1_start(s) < s.len() && token2_start(s) < s.len()
}

/// The method token of a request line.
pub open spec fn method_of(s: Seq<u8>) -> Seq<u8> {
    s.subrange(token1_start(s), token1_end(s))
}

/// The target token of a request line: the path, with any query string
/// passed through unparsed.
pub open spec fn target_of(s: Seq<u8>) -> Seq<u8> {
    s.subrange(token2_start(s), token2_end(s))
}

/// Advances past whitespace.
fn find_token_start(v: &Vec<u8>, from: usize) -> (r: usize)
    requires
        from <= v@.len(),
    ensures
        r == skip_ws(v@, from as int),
        from <= r <= v@.len(),
{
    let mut i: usize = from;
    while i < v.len() && v[i] == 32 || i < v.len() && 9 <= v[i] && v[i] <= 13
        invariant
            from <= i <= v@.len(),
            skip_ws(v@, from as int) == skip_ws(v@, i as int),
        decreases v@.len() - i,
    {
        i = i + 1;
    }
    i
}

/// Advances past non-whitespace.
fn find_token_end(v: &Vec<u8>, from: usize) -> (r: usize)
    requires
        from <= v@.len(),
    ensures
        r == skip_token(v@, from as int),
        from <= r <= v@.len(),
{
    let mut i: usize = from;
    while i < v.len() && v[i] != 32 && !(9 <= v[i] && v[i] <= 13)
        invariant
            from <= i <= v@.len(),
            skip_token(v@, from as int) == skip_token(v@, i as int),
        decreases v@.len() - i,
    {
        i = i + 1;
    }
    i
}

/// A structured request: method, target path, and the header lines kept
/// verbatim.  When parsing succeeds the method and the path are non-empty
/// whitespace-free tokens.
pub struct IncomingRequest {
    pub method: Vec<u8>,
    pub path: Vec<u8>,
    pub headers: Vec<Vec<u8>>,
}

/// Why parsing failed: the stream closed before a request line arrived,
/// or the request line held fewer than two tokens.
#[derive(Clone, Copy, PartialEq, Eq, Structural, Debug)]
pub enum ParseError {
    IoFailure,
    Malformed,
}

/// Parses the text lines of a request: the first line must carry at least
/// two whitespace-separated tokens (method and target); the remaining
/// lines are retained verbatim as headers.  An empty line list means the
/// stream closed before a request line arrived.
pub fn parse_request(lines: &Vec<Vec<u8>>) -> (r: Result<IncomingRequest, ParseError>)
    ensures
        lines@.len() == 0 ==> r === Err(ParseError::IoFailure),
        lines@.len() > 0 && !has_two_tokens(lines@[0]@) ==> r === Err(ParseError::Malformed),
        lines@.len() > 0 && has_two_tokens(lines@[0]@) ==> (r matches Ok(req)
            && req.method@ == method_of(lines@[0]@)
            && req.path@ == target_of(lines@[0]@)
            && req.headers.deep_view() == lines.deep_view().drop_first()),
{
    if lines.len() == 0 {
        return Err(ParseError::IoFailure);
    }
    let line: &Vec<u8> = &lines[0];
    let s1 = find_token_start(line, 0);
    if s1 == line.len() {
        return Err(ParseError::Malformed);
    }
    let e1 = find_token_end(line, s1);
    let s2 = find_token_start(line, e1);
    if s2 == line.len() {
        return Err(ParseError::Malformed);
    }
    let e2 = find_token_end(line, s2);
    let method = slice_bytes(line, s1, e1);
    let path = slice_bytes(line, s2, e2);
    let mut headers: Vec<Vec<u8>> = Vec::new();
    let mut i: usize = 1;
    while i < lines.len()
        invariant
            1 <= i <= lines@.len(),
            headers.deep_view() =~~= lines.deep_view().subrange(1, i as int),
        decreases lines@.len() - i,
    {
        let one = slice_bytes(&lines[i], 0, lines[i].len());
        assert(one@ =~= lines@[i as int]@);
        let ghost pre = headers.deep_view();
        headers.push(one);
        proof {
            assert(headers.deep_view() =~~= pre.push(one@));
            assert(pre.push(one@) =~~= lines.deep_view().subrange(1, i + 1));
        }
        i = i + 1;
    }
    assert(headers.deep_view() =~~= lines.deep_view().drop_first());
    Ok(IncomingRequest { method, path, headers })
}

/// A header line naming the `Connection` header, compared
/// case-insensitively.
pub open spec fn is_connection_line(line: Seq<u8>) -> bool {
    starts_with_bytes(lower_bytes(line), ascii("connection:"@))
}

/// A header line asking for keep-alive, compared case-insensitively.
pub open spec fn line_wants_keep_alive(line: Seq<u8>) -> bool {
    contains_bytes(lower_bytes(line), ascii("keep-alive"@))
}

/// The first `Connection` header line decides the connection mode: it
/// asks for keep-alive exactly when it mentions `keep-alive`.  Without
/// such a line the mode is close.
pub open spec fn wants_keep_alive(headers: Seq<Seq<u8>>) -> bool
    decreases headers.len(),
{
    if headers.len() == 0 {
        false
    } else if is_connection_line(headers[0]) {
        line_wants_keep_alive(headers[0])
    } else {
        wants_keep_alive(headers.drop_first())
    }
}

/// Scans the header lines for the first `Connection` header and reads
/// its keep-alive intent.
pub fn scan_keep_alive(headers: &Vec<Vec<u8>>) -> (r: bool)
    ensures
        r == wants_keep_alive(headers.deep_view()),
{
    proof {
        reveal_strlit("connection:");
        reveal_strlit("keep-alive");
    }
    let conn = lit("connection:");
    let ka = lit("keep-alive");
    let ghost dv: Seq<Seq<u8>> = headers.deep_view();
    proof {
        assert(dv.skip(0) =~= dv);
    }
    let mut i: usize = 0;
    while i < headers.len()
        invariant
            0 <= i <= headers@.len(),
            dv == headers.deep_view(),
            dv.len() == headers@.len(),
            conn@ == ascii("connection:"@),
            ka@ == ascii("keep-alive"@),
            wants_keep_alive(dv) == wants_keep_alive(dv.skip(i as int)),
        decreases headers@.len() - i,
    {
        let low = to_lower(&headers[i]);
        assert(low@ == lower_bytes(dv[i as int]));
        if has_prefix(&low, &conn) {
            assert(is_connection_line(dv.skip(i as int)[0]));
            return contains(&low, &ka);
        }
        proof {
            assert(!is_connection_line(dv.skip(i as int)[0]));
            assert(dv.skip(i as int).drop_first() =~= dv.skip(i + 1));
        }
        i = i + 1;
    }
    assert(dv.skip(i as int) =~= Seq::<Seq<u8>>::empty());
    false
}

} // verus!
