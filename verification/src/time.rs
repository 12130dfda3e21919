use vstd::prelude::*;

verus! {

/// Relies on chrono's `Utc::now().timestamp_millis()`: the system clock as
/// non-leap milliseconds since the Unix epoch. Nothing can be promised of
/// what the clock reads.
#[verifier::external_body]
pub fn get_timestamp() -> i64 {
    chrono::Utc::now().timestamp_millis()
}

} // verus!
