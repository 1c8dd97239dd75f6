//! The one place where the library reads the system clock. Everything else
//! takes time readings as plain arguments, so tests can drive the
//! time-dependent logic with a clock of their own.

use vstd::prelude::*;

verus! {

/// Relies on `chrono::Utc::now` and `chrono::DateTime::timestamp`: the
/// current time as non-leap seconds since the Unix epoch. Nothing can be
/// promised of a clock reading.
#[verifier::external_body]
pub fn now_seconds() -> i64 {
    chrono::Utc::now().timestamp()
}

} // verus!
