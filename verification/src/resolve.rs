//! Path resolution: `/` stands for `/index.html`; a target mentioning
//! `..` anywhere is refused as a traversal attempt; otherwise one leading
//! slash is stripped and the remainder names a file under the root.
//!
//! The refusal is a literal substring check, deliberately without any
//! canonicalization: it blocks literal `..` tokens and nothing more.

use vstd::prelude::*;
use crate::text::ascii;
use crate::text::bytes_eq;
use crate::text::contains;
use crate::text::contains_bytes;
use crate::text::lit;
use crate::text::slice_bytes;

verus! {

/// The target after the root substitution: `/` stands for `/index.html`.
pub open spec fn substituted(path: Seq<u8>) -> Seq<u8> {
    if path == ascii("/"@) {
        ascii("/index.html"@)
    } else {
        path
    }
}

/// A traversal attempt: the substituted target mentions `..` anywhere.
pub open spec fn is_traversal(path: Seq<u8>) -> bool {
    contains_bytes(substituted(path), ascii(".."@))
}

/// The file name under the root that a target resolves to: the
/// substituted target with one leading slash stripped.
pub open spec fn resolved_target(path: Seq<u8>) -> Seq<u8> {
    let p = substituted(path);
    if p.len() > 0 && p[0] == '/' as u8 {
        p.drop_first()
    } else {
        p
    }
}

/// The outcome of resolving a request target.
pub enum Resolution {
    /// The target mentioned `..` and is refused.
    Traversal,
    /// The name of the file under the root to serve.
    Target(Vec<u8>),
}

/// Resolves a request target to a file name under the root, or refuses
/// it as a traversal attempt.
pub fn resolve_path(path: &Vec<u8>) -> (r: Resolution)
    ensures
        is_traversal(path@) ==> r is Traversal,
        !is_traversal(path@) ==> (r matches Resolution::Target(f) && f@ == resolved_target(
            path@,
        )),
{
    proof {
        reveal_strlit("/");
        reveal_strlit("/index.html");
        reveal_strlit("..");
    }
    let slash = lit("/");
    let p: Vec<u8> = if bytes_eq(path, &slash) {
        lit("/index.html")
    } else {
        slice_bytes(path, 0, path.len())
    };
    assert(p@ =~= substituted(path@));
    let dots = lit("..");
    if contains(&p, &dots) {
        return Resolution::Traversal;
    }
    if p.len() > 0 && p[0] == 47 {
        assert('/' as u8 == 47);
        let f = slice_bytes(&p, 1, p.len());
        assert(f@ =~= substituted(path@).drop_first());
        Resolution::Target(f)
    } else {
        Resolution::Target(p)
    }
}

/// The root target resolves exactly as `/index.html` does: same traversal
/// verdict and same resolved file name.
pub proof fn lemma_root_is_index()
    ensures
        resolved_target(ascii("/"@)) == resolved_target(ascii("/index.html"@)),
        is_traversal(ascii("/"@)) == is_traversal(ascii("/index.html"@)),
{
    reveal_strlit("/");
    reveal_strlit("/index.html");
    assert(ascii("/index.html"@) != ascii("/"@)) by {
        assert(ascii("/index.html"@).len() == 11);
        assert(ascii("/"@).len() == 1);
    }
    assert(substituted(ascii("/"@)) == ascii("/index.html"@));
    assert(substituted(ascii("/index.html"@)) == ascii("/index.html"@));
}

/// A target that begins with a slash, is not bare `/`, and nowhere
/// mentions `..` resolves exactly to itself with the leading slash
/// stripped, and is never refused.
pub proof fn lemma_resolve_strips_slash(p: Seq<u8>)
    requires
        p != ascii("/"@),
        p.len() > 0,
        p[0] == '/' as u8,
        !contains_bytes(p, ascii(".."@)),
    ensures
        !is_traversal(p),
        resolved_target(p) == p.drop_first(),
{
}

} // verus!
