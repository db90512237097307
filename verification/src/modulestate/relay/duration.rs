//! The job of a relay switched on for a while: it is switched off when the time is up.
use vstd::prelude::*;

verus! {

/// The job of a relay switched on for `duration` seconds: sleep that long, then set the
/// relay off.
pub fn duration_step(duration: u64) -> (r: (u64, u8))
    ensures
        r == (duration, 0u8),
{
    (duration, 0)
}

} // verus!
