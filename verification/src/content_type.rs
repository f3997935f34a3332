//! Content-type inference: a fixed, case-sensitive suffix table over the
//! file name.  Unknown extensions fall back to a generic binary type.

use vstd::prelude::*;
use crate::text::ascii;
use crate::text::ends_with_bytes;
use crate::text::has_suffix;
use crate::text::lit;

verus! {

/// The content type a file name infers: first matching suffix wins.
pub open spec fn content_type_of(name: Seq<u8>) -> Seq<u8> {
    if ends_with_bytes(name, ascii(".html"@)) {
        ascii("text/html"@)
    } else if ends_with_bytes(name, ascii(".css"@)) {
        ascii("text/css"@)
    } else if ends_with_bytes(name, ascii(".js"@)) {
        ascii("application/javascript"@)
    } else if ends_with_bytes(name, ascii(".png"@)) {
        ascii("image/png"@)
    } else if ends_with_bytes(name, ascii(".jpg"@)) || ends_with_bytes(name, ascii(".jpeg"@)) {
        ascii("image/jpeg"@)
    } else if ends_with_bytes(name, ascii(".gif"@)) {
        ascii("image/gif"@)
    } else if ends_with_bytes(name, ascii(".svg"@)) {
        ascii("image/svg+xml"@)
    } else if ends_with_bytes(name, ascii(".ico"@)) {
        ascii("image/x-icon"@)
    } else if ends_with_bytes(name, ascii(".txt"@)) {
        ascii("text/plain"@)
    } else if ends_with_bytes(name, ascii(".pdf"@)) {
        ascii("application/pdf"@)
    } else {
        ascii("application/octet-stream"@)
    }
}

/// Infers the content type of a file from its name's suffix.
pub fn get_content_type(filename: &Vec<u8>) -> (ct: Vec<u8>)
    ensures
        ct@ == content_type_of(filename@),
{
    proof {
        reveal_strlit(".html");
        reveal_strlit("text/html");
        reveal_strlit(".css");
        reveal_strlit("text/css");
        reveal_strlit(".js");
        reveal_strlit("application/javascript");
        reveal_strlit(".png");
        reveal_strlit("image/png");
        reveal_strlit(".jpg");
        reveal_strlit(".jpeg");
        reveal_strlit("image/jpeg");
        reveal_strlit(".gif");
        reveal_strlit("image/gif");
        reveal_strlit(".svg");
        reveal_strlit("image/svg+xml");
        reveal_strlit(".ico");
        reveal_strlit("image/x-icon");
        reveal_strlit(".txt");
        reveal_strlit("text/plain");
        reveal_strlit(".pdf");
        reveal_strlit("application/pdf");
        reveal_strlit("application/octet-stream");
    }
    if has_suffix(filename, &lit(".html")) {
        lit("text/html")
    } else if has_suffix(filename, &lit(".css")) {
        lit("text/css")
    } else if has_suffix(filename, &lit(".js")) {
        lit("application/javascript")
    } else if has_suffix(filename, &lit(".png")) {
        lit("image/png")
    } else if has_suffix(filename, &lit(".jpg")) || has_suffix(filename, &lit(".jpeg")) {
        lit("image/jpeg")
    } else if has_suffix(filename, &lit(".gif")) {
        lit("image/gif")
    } else if has_suffix(filename, &lit(".svg")) {
        lit("image/svg+xml")
    } else if has_suffix(filename, &lit(".ico")) {
        lit("image/x-icon")
    } else if has_suffix(filename, &lit(".txt")) {
        lit("text/plain")
    } else if has_suffix(filename, &lit(".pdf")) {
        lit("application/pdf")
    } else {
        lit("application/octet-stream")
    }
}

} // verus!
