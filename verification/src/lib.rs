//! A minimal screen-oriented text editor core: an in-memory document held as
//! a sequence of lines, a logical cursor inside it, and a viewport that maps
//! the cursor onto a bounded rectangle for display.

pub mod buffer;
pub mod editor;

use vstd::prelude::*;

verus! {

/// Clamps `v` to the inclusive range `[lo, hi]`.
pub open spec fn clamped(v: int, lo: int, hi: int) -> int {
    if v < lo {
        lo
    } else if v > hi {
        hi
    } else {
        v
    }
}

} // verus!
