//! Fresh identifiers and the current time, drawn from `uuid` and `chrono`.
//!
//! Identifiers are held as the 128-bit value of a UUID and instants as
//! microseconds since the Unix epoch (UTC), the precision the database keeps.
use vstd::prelude::*;

verus! {

/// Calls `uuid::Uuid::new_v4()` and hands back its 128-bit value
/// (`Uuid::as_u128`, which is lossless). The value is drawn from the
/// system's random source, so nothing is claimed of it.
#[verifier::external_body]
pub(crate) fn new_uuid() -> (id: u128) {
    uuid::Uuid::new_v4().as_u128()
}

/// Calls `chrono::Utc::now()` and hands back `timestamp_micros()` of it.
/// The value is read from the system clock, so nothing is claimed of it.
#[verifier::external_body]
pub(crate) fn utc_now_micros() -> (now: i64) {
    chrono::Utc::now().timestamp_micros()
}

/// Calls `chrono::Utc::now()` and hands back, of that one reading, its
/// whole seconds since the Unix epoch (`timestamp()`) and the nanoseconds
/// past them (`timestamp_subsec_nanos()`). The value is read from the system
/// clock, so nothing is claimed of it.
#[verifier::external_body]
pub(crate) fn utc_now_secs_nanos() -> (now: (i64, u32)) {
    let now = chrono::Utc::now();
    (now.timestamp(), now.timestamp_subsec_nanos())
}

} // verus!
