//! Reading the wall clock. Every decision that depends on time takes the
//! instant as an explicit argument, so this is the only place the clock is
//! consulted.

use vstd::prelude::*;
use crate::session_store::SESSION_TTL_MS;

verus! {

/// Relies on chrono::Utc::now and chrono::DateTime::timestamp_millis: the
/// current wall clock as milliseconds since the epoch. Nothing can be
/// promised of the value read.
#[verifier::external_body]
fn utc_now_millis() -> (r: i64) {
    chrono::Utc::now().timestamp_millis()
}

/// The current instant in milliseconds since the epoch, or nothing for a
/// clock set before the epoch. A returned instant always leaves room for the
/// session lifetime without overflow.
pub fn current_time_millis() -> (r: Option<u64>)
    ensures
        r is Some ==> r->0 + SESSION_TTL_MS <= u64::MAX,
{
    let t = utc_now_millis();
    if t >= 0 {
        Some(t as u64)
    } else {
        None
    }
}

} // verus!
