//! Client library for a hosted message-publishing service.
//!
//! A caller describes a publish: a destination (a direct URL or a named
//! topic), optional delivery directives (delay, absolute not-before time,
//! deduplication, retries, a callback URL, an override method, pass-through
//! headers), and an optional body. The library turns the directives into
//! wire-level request headers, resolves the destination into a request path,
//! and normalizes the service's JSON response into one outcome record per
//! delivery target. The HTTP transport itself is left to the caller.

pub mod client;
