//! The response handed back to the original caller.
//!
//! When the outbound call succeeds, the caller gets the upstream's status code
//! exactly, with the upstream body relayed behind it. When the outbound call
//! fails, the caller gets status 502 with a plain-text body naming the error.
//! A handled failure never becomes a dropped connection: every outcome maps
//! to a normal reply.

use vstd::prelude::*;
use vstd::string::StringExecFns;

verus! {

/// The status code of a bad-gateway reply.
pub const BAD_GATEWAY: u16 = 502;

/// The plain-text body of a bad-gateway reply: a fixed prefix followed by the
/// underlying error's description.
pub open spec fn bad_gateway_message(err: Seq<char>) -> Seq<char> {
    "Proxy error: "@ + err
}

/// The reply to the original caller: either the upstream response relayed with
/// its exact status code (the body streams separately), or a bad gateway with
/// a descriptive message.
pub enum ProxyReply {
    Relay { status: u16 },
    BadGateway { message: String },
}

impl ProxyReply {
    /// The status code the caller sees: the upstream's own code when relaying,
    /// and 502 on a bad gateway.
    pub fn status(&self) -> (s: u16)
        ensures
            self matches ProxyReply::Relay { status } ==> s == status,
            self is BadGateway ==> s == BAD_GATEWAY,
    {
        match self {
            ProxyReply::Relay { status } => *status,
            ProxyReply::BadGateway { message: _ } => BAD_GATEWAY,
        }
    }
}

/// Decide the reply from the outcome of the outbound call: a successful call
/// relays the upstream status unchanged, and a failed call becomes a bad
/// gateway whose message holds the error's description.
pub fn decide_reply(outcome: Result<u16, String>) -> (r: ProxyReply)
    ensures
        outcome matches Ok(status) ==> r == (ProxyReply::Relay { status }),
        outcome matches Err(e) ==> r matches ProxyReply::BadGateway { message }
            && message@ == bad_gateway_message(e@),
{
    match outcome {
        Ok(status) => ProxyReply::Relay { status },
        Err(e) => ProxyReply::BadGateway { message: "Proxy error: ".to_owned().concat(e.as_str()) },
    }
}

/// Every bad-gateway body is non-empty and carries the underlying error's
/// description in full, after the fixed prefix.
pub proof fn lemma_bad_gateway_described(err: Seq<char>)
    ensures
        bad_gateway_message(err).len() > err.len(),
        bad_gateway_message(err).skip(13) == err,
{
    reveal_strlit("Proxy error: ");
    assert(bad_gateway_message(err).skip(13) =~= err);
}

} // verus!
