//! Intervals read from the configuration.

use vstd::prelude::*;

verus! {

/// An interval of `secs` seconds and `nanos` nanoseconds, raised to one
/// second when it is shorter: items are not refreshed more often than that.
pub fn min_interval(secs: u64, nanos: u32) -> (r: (u64, u32))
    ensures
        secs == 0 ==> r == (1u64, 0u32),
        secs > 0 ==> r == (secs, nanos),
{
    if secs == 0 {
        (1, 0)
    } else {
        (secs, nanos)
    }
}

} // verus!
