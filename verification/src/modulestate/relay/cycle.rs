//! The job of a cycling relay: it alternates between on and off.
use crate::protos::module::CycleConfig;
use vstd::prelude::*;

verus! {

/// A phase of the cycle: the state it sets (off while waiting, on otherwise) and whether
/// the next phase waits.
pub open spec fn cycle_phase(is_waiting: bool) -> (u8, bool) {
    (if is_waiting { 0u8 } else { 1u8 }, !is_waiting)
}

/// One phase of a cycling relay's job. Each phase lasts `waitingTime` seconds; then the
/// phase flips.
pub fn cycle_step(cycle: &CycleConfig, is_waiting: bool) -> (r: (u8, u64, bool))
    ensures
        (r.0, r.2) == cycle_phase(is_waiting),
        r.1 == cycle.waitingTime as u64,
{
    let state: u8 = if is_waiting { 0 } else { 1 };
    (state, cycle.waitingTime as u64, !is_waiting)
}

/// A cycling relay alternates: two consecutive phases set different states, and two
/// phases bring the cycle back where it was.
pub proof fn lemma_cycle_alternates(is_waiting: bool)
    ensures
        cycle_phase(is_waiting).0 != cycle_phase(cycle_phase(is_waiting).1).0,
        cycle_phase(cycle_phase(is_waiting).1).1 == is_waiting,
{
}

} // verus!
