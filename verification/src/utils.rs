//! Small rules shared by the module validators.
use vstd::prelude::*;

verus! {

/// Two readings differ when they are at least `threshold` apart.
pub open spec fn differs_by(a: int, b: int, threshold: int) -> bool {
    if a >= b { a - b >= threshold } else { b - a >= threshold }
}

/// Whether two integer readings are at least `threshold` apart.
pub fn difference_of(a: i32, b: i32, threshold: i32) -> (r: bool)
    ensures
        r == differs_by(a as int, b as int, threshold as int),
{
    let d: i64 = (a as i64) - (b as i64);
    if d >= 0 {
        d >= threshold as i64
    } else {
        -d >= threshold as i64
    }
}

} // verus!
