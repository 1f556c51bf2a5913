//! Core logic of a minimal HTTP forwarding proxy.
//!
//! The proxy accepts any inbound request, resolves an upstream base address
//! (from an optional environment override, with a fixed default), rewrites the
//! destination to that upstream, forwards the request unchanged, and relays
//! the upstream response back to the caller. The modules here hold the pure
//! decisions of that path: which upstream to use, what target URL to build,
//! what body to forward, and which status and body the caller gets back.
//! The surrounding server and client plumbing lives outside the library.

pub mod forward;
pub mod reply;
pub mod upstream;
