//! Points in time, as the registry stamps them on readings.

use vstd::prelude::*;

verus! {

/// A point in time: whole seconds since the start of 1970 in universal time,
/// and the nanoseconds since the last whole second.
#[derive(Debug, PartialEq, Eq, Clone, Copy, Structural)]
pub struct Timestamp {
    pub secs: i64,
    pub nanos: u32,
}

/// The present moment, read from the system clock by `chrono::Local::now`
/// and taken apart by `DateTime::timestamp` and
/// `DateTime::timestamp_subsec_nanos`. Nothing is claimed of the result: two
/// calls may give any two values. `chrono` panics where the system clock
/// stands before 1970.
#[verifier::external_body]
pub(crate) fn now() -> Timestamp {
    let t = chrono::Local::now();
    Timestamp { secs: t.timestamp(), nanos: t.timestamp_subsec_nanos() }
}

} // verus!
