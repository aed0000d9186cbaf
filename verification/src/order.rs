use std::cmp::Ordering;
use vstd::prelude::*;

verus! {

/// The ordering of two integers, the way `u8::cmp` would report it.
pub open spec fn ordering_of(a: u8, b: u8) -> Ordering {
    if a < b {
        Ordering::Less
    } else if a == b {
        Ordering::Equal
    } else {
        Ordering::Greater
    }
}

/// Compares two small ranks; the result is exactly `ordering_of` of them.
pub fn compare_ranks(a: u8, b: u8) -> (r: Ordering)
    ensures
        r == ordering_of(a, b),
{
    if a < b {
        Ordering::Less
    } else if a == b {
        Ordering::Equal
    } else {
        Ordering::Greater
    }
}

} // verus!
