//! Client-side session and data-access layer for a long-lived remote
//! connection: a TTL-based entity cache with selector handles, a login and
//! reconnect state machine, and a persisted device identity.

use vstd::prelude::*;
use std::sync::Arc;

pub mod cache;
pub mod client;
pub mod device;
pub mod entity;
pub mod hexstr;
pub mod json;
pub mod message;
pub mod selector;
pub mod session;

verus! {

/// True when an entry fetched at `at` is still fresh at `now` under `ttl`.
pub open spec fn fresh_at(at: u64, now: u64, ttl: u64) -> bool {
    at <= now && now - at < ttl
}

/// Executable freshness test, the rule every cache read applies.
pub fn is_fresh_at(at: u64, now: u64, ttl: u64) -> (r: bool)
    ensures
        r == fresh_at(at, now, ttl),
{
    at <= now && now - at < ttl
}

/// Relies on `std::sync::Arc::clone`: the returned handle refers to the very
/// same value as the argument.
#[verifier::external_body]
pub fn share<T>(a: &Arc<T>) -> (r: Arc<T>)
    ensures
        r == *a,
{
    Arc::clone(a)
}

} // verus!
