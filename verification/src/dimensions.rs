//! Size of a character grid.

use vstd::prelude::*;

verus! {

/// Width and height of a terminal, in character cells.
pub struct Dimensions {
    pub w: u16,
    pub h: u16,
}

impl Dimensions {
    pub fn new(w: u16, h: u16) -> (d: Self)
        ensures
            d.w == w,
            d.h == h,
    {
        Self { w, h }
    }
}

} // verus!
