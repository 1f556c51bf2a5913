//! Construction of the outbound request.
//!
//! The target URL is the upstream base concatenated with the inbound request's
//! path and query string verbatim (with `/` standing in when the request has
//! none). Method, headers and body are carried over unchanged; a failure to
//! read the inbound body degrades to an empty body rather than failing the
//! request.

use vstd::prelude::*;
use vstd::string::StringExecFns;
use crate::upstream::{opt_chars, resolve_upstream, upstream_of};

verus! {

/// The target URL that a request resolves to: the upstream base followed by
/// the inbound path and query verbatim, or by `/` when the request has none.
pub open spec fn target_of(upstream: Seq<char>, path_and_query: Option<Seq<char>>) -> Seq<char> {
    upstream + (match path_and_query {
        Some(p) => p,
        None => "/"@,
    })
}

/// The body that is forwarded: the inbound bytes when they could be read,
/// and the empty body when reading them failed.
pub open spec fn forwarded_body(read: Option<Vec<u8>>) -> Seq<u8> {
    match read {
        Some(b) => b@,
        None => Seq::<u8>::empty(),
    }
}

/// Everything the outbound call needs: the method and headers of the inbound
/// request unchanged, the rewritten target URL, and the buffered body.
pub struct ForwardPlan {
    pub method: String,
    pub target: String,
    pub headers: Vec<(String, Vec<u8>)>,
    pub body: Vec<u8>,
}

/// Build the target URL from an upstream base and the inbound path and query.
pub fn build_target(upstream: String, path_and_query: Option<String>) -> (r: String)
    ensures
        r@ == target_of(upstream@, opt_chars(path_and_query)),
{
    match path_and_query {
        Some(p) => upstream.concat(p.as_str()),
        None => upstream.concat("/"),
    }
}

/// The body to forward: the inbound bytes, or the empty body when the read failed.
pub fn body_or_empty(read: Option<Vec<u8>>) -> (r: Vec<u8>)
    ensures
        r@ == forwarded_body(read),
{
    match read {
        Some(b) => b,
        None => Vec::new(),
    }
}

/// Build the complete outbound request from the parts of the inbound request:
/// the method and headers pass through unchanged, the target is the resolved
/// upstream followed by the inbound path and query verbatim, and the body is
/// the inbound bytes (empty when they could not be read).
pub fn plan_forward(
    method: String,
    headers: Vec<(String, Vec<u8>)>,
    path_and_query: Option<String>,
    env_upstream: Option<String>,
    body_read: Option<Vec<u8>>,
) -> (p: ForwardPlan)
    ensures
        p.method == method,
        p.headers == headers,
        p.target@ == target_of(upstream_of(opt_chars(env_upstream)), opt_chars(path_and_query)),
        p.body@ == forwarded_body(body_read),
{
    let upstream = resolve_upstream(env_upstream);
    let target = build_target(upstream, path_and_query);
    let body = body_or_empty(body_read);
    ForwardPlan { method, target, headers, body }
}

/// The path and query are forwarded verbatim: the target URL is exactly the
/// upstream base followed by the inbound path and query, with no rewriting.
pub proof fn lemma_path_preserved(upstream: Seq<char>, path_and_query: Seq<char>)
    ensures
        target_of(upstream, Some(path_and_query)) == upstream + path_and_query,
{
}

/// The bare root path is not special-cased: a request to `/`, like a request
/// with no path at all, is forwarded to the upstream base followed by `/`.
pub proof fn lemma_root_not_special(upstream: Seq<char>)
    ensures
        target_of(upstream, Some("/"@)) == upstream + "/"@,
        target_of(upstream, Some("/"@)) == target_of(upstream, None),
{
}

} // verus!
