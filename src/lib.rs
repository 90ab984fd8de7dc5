use vstd::prelude::*;

verus! {

/// The value the boundary returns for `x`: `x + 2` reduced into the range of a
/// 32-bit two's-complement integer.
pub open spec fn plus_two_wrapped(x: int) -> int {
    if x + 2 > i32::MAX {
        x + 2 - 0x1_0000_0000
    } else {
        x + 2
    }
}

/// Adds two to `x` with two's-complement wraparound. Total and pure: every
/// 32-bit input has a result, and nothing else is read or changed.
pub fn rust_plus_2_callable(x: i32) -> (r: i32)
    ensures
        r as int == plus_two_wrapped(x as int),
        x < i32::MAX - 1 ==> r as int == x as int + 2,
        x == i32::MAX - 1 ==> r == i32::MIN,
        x == i32::MAX ==> r == i32::MIN + 1,
{
    x.wrapping_add(2)
}

} // verus!
