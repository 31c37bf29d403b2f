//! The clock capability: the single place where the current time
//! enters the library.

use crate::window::clock_in_range;
use vstd::prelude::*;

verus! {

/// Relies on chrono's `Utc::now` and `DateTime::timestamp`: the
/// current UTC time as non-leap Unix seconds. Nothing is assumed of
/// the value; chrono itself aborts (it never returns) on a system
/// clock before the Unix epoch or beyond its representable far
/// future, so a reading, when one arrives, is non-negative.
#[verifier::external_body]
fn unix_now() -> i64 {
    chrono::Utc::now().timestamp()
}

/// Screens a raw clock reading for the window model: a non-negative
/// reading is admitted as Unix seconds, anything else is refused.
/// Every non-negative `i64` is far enough from the top of `u64` for
/// day arithmetic, so an admitted reading is always in range for the
/// window model.
pub fn admit_reading(t: i64) -> (r: Option<u64>)
    ensures
        r == (if 0 <= t {
            Some(t as u64)
        } else {
            None::<u64>
        }),
        r matches Some(u) ==> clock_in_range(u),
{
    if t >= 0 {
        Some(t as u64)
    } else {
        None
    }
}

/// Reads the clock and admits the reading through `admit_reading`.
pub fn current_unix_time() -> (r: Option<u64>)
    ensures
        r matches Some(t) ==> clock_in_range(t),
{
    admit_reading(unix_now())
}

} // verus!
