//! The records that are handed to the GPU as they lie in memory.

use vstd::prelude::*;

verus! {

/// One corner of the triangle: where it is, in pixels, and its colour.
#[derive(Clone, Copy, Debug, PartialEq, Eq)]
pub struct MyVertex {
    /// Two signed 32-bit integers.
    pub position: [i32; 2],
    /// Red, green and blue, 8 bits each.
    pub color: [u8; 3],
}

} // verus!
