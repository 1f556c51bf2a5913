//! Resolution of the upstream base address.
//!
//! The upstream is taken from an environment-provided override when one is
//! present, and falls back to a fixed default base URL otherwise. The caller
//! reads the environment and hands the optional value in as a plain
//! `Option<String>`.

use vstd::prelude::*;

verus! {

/// The fixed default upstream base URL, used when no override is set.
pub open spec fn default_upstream_spec() -> Seq<char> {
    "http://localhost:11435"@
}

/// The upstream base that an optional environment override resolves to:
/// the override itself when present, the default otherwise.
pub open spec fn upstream_of(env_value: Option<Seq<char>>) -> Seq<char> {
    match env_value {
        Some(v) => v,
        None => default_upstream_spec(),
    }
}

/// The view of an optional string, for stating contracts over `Option<String>`.
pub open spec fn opt_chars(o: Option<String>) -> Option<Seq<char>> {
    match o {
        Some(s) => Some(s@),
        None => None,
    }
}

/// The default upstream base URL as an owned string.
pub fn default_upstream() -> (r: String)
    ensures
        r@ == default_upstream_spec(),
{
    "http://localhost:11435".to_owned()
}

/// Resolve the upstream base address from an optional environment override.
pub fn resolve_upstream(env_value: Option<String>) -> (r: String)
    ensures
        r@ == upstream_of(opt_chars(env_value)),
{
    match env_value {
        Some(v) => v,
        None => default_upstream(),
    }
}

} // verus!
