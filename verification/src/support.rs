//! Arithmetic helpers shared by the screen and render code.

use vstd::prelude::*;
use vstd::std_specs::cmp::PartialOrdSpec;
use vstd::std_specs::convert::FromSpec;
use vstd::std_specs::ops::SubSpec;
use std::cmp::Ordering;

verus! {

/// The smaller of two integers.
pub open spec fn min_int(a: int, b: int) -> int {
    if a <= b {
        a
    } else {
        b
    }
}

/// `v` kept within `lo ..= hi`.
pub open spec fn clamp_int(v: int, lo: int, hi: int) -> int {
    if v < lo {
        lo
    } else if v > hi {
        hi
    } else {
        v
    }
}

/// Marker for the unsigned integer types.
pub trait Unsigned {}

impl Unsigned for u8 {}

impl Unsigned for u16 {}

impl Unsigned for u32 {}

impl Unsigned for u64 {}

impl Unsigned for u128 {}

impl Unsigned for usize {}

/// Whether `y` orders strictly above `x`.
pub open spec fn exceeds<T: PartialOrd>(y: T, x: T) -> bool {
    y.partial_cmp_spec(&x) == Some(Ordering::Greater)
}

/// Subtraction that stops at zero: `x - y`, or zero when `y` is above `x`.
pub fn usubtraction<T>(x: T, y: T) -> (r: T) where
    T: std::ops::Sub<Output = T> + std::cmp::PartialOrd + From<u8> + Unsigned,

    requires
        T::obeys_partial_cmp_spec(),
        !exceeds(y, x) ==> x.sub_req(y),
    ensures
        exceeds(y, x) && T::obeys_from_spec() ==> r == T::from_spec(0u8),
        !exceeds(y, x) && T::obeys_sub_spec() ==> r == x.sub_spec(y),
{
    if y > x {
        T::from(0)
    } else {
        x - y
    }
}

} // verus!
