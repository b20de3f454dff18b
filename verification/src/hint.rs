//! Functions that give the compiler hints about how code should be
//! optimized.
use vstd::prelude::*;

verus! {

/// A "dummy" function that marks the path where it is called as unlikely.
pub fn cold_path() {
}

/// Returns `b`, with the hint that `true` is the likely case.
pub fn likely(b: bool) -> (r: bool)
    ensures
        r == b,
{
    if b {
        true
    } else {
        cold_path();
        false
    }
}

/// Returns `b`, with the hint that `false` is the likely case.
pub fn unlikely(b: bool) -> (r: bool)
    ensures
        r == b,
{
    if b {
        cold_path();
        true
    } else {
        false
    }
}

} // verus!
