//! A minimal HTTP file-server core: the request-to-response pipeline.
//!
//! The library turns the raw text lines of an HTTP request into a plan
//! (which file to fetch, or which error to answer), and renders the
//! final wire response, all over plain byte vectors.  Sockets and the
//! filesystem stay outside; callers hand in the request lines and the
//! outcome of each file lookup as plain values.

use vstd::prelude::*;

pub mod content_type;
pub mod request;
pub mod resolve;
pub mod response;
pub mod server;
pub mod text;

verus! {

} // verus!
