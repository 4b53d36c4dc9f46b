//! Dimensions of the GPU textures a canvas renders into.

use vstd::prelude::*;

verus! {

/// The smallest admissible texture dimension or sample count: `value`, but
/// at least one.
pub fn min_one(value: u32) -> (r: u32)
    ensures
        r == if value == 0 { 1 } else { value },
{
    if value == 0 {
        1
    } else {
        value
    }
}

} // verus!
