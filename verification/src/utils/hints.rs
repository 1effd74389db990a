//! Hints to the compiler that affect how code should be emitted or optimized.
use vstd::prelude::*;

verus! {

/// Documents a condition that always holds at the call site.
///
/// The caller must establish `cond`; the function itself does nothing.
#[inline(always)]
pub fn assert_hint(cond: bool, debug_msg: &str)
    requires
        cond,
{
}

/// Indicates that a given branch is **not** likely to be taken, relatively speaking.
#[inline(always)]
pub fn cold_path() {
}

/// Indicates that a given condition is likely to be true. Returns `b` unchanged.
#[inline(always)]
pub fn likely(b: bool) -> (r: bool)
    ensures
        r == b,
{
    if !b {
        cold_path();
    }
    b
}

/// Indicates that a given condition is likely to be false. Returns `b` unchanged.
#[inline(always)]
pub fn unlikely(b: bool) -> (r: bool)
    ensures
        r == b,
{
    if b {
        cold_path();
    }
    b
}

} // verus!
