use vstd::prelude::*;

verus! {

/// The sum of two 32-bit integers, wrapped into the 32-bit range in two's complement.
pub open spec fn wrapped_sum(a: i32, b: i32) -> int {
    let s = a + b;
    if s > i32::MAX {
        s - 0x1_0000_0000
    } else if s < i32::MIN {
        s + 0x1_0000_0000
    } else {
        s
    }
}

/// Adds two 32-bit integers with wraparound; a sum that fits is returned exactly.
pub fn add_numbers(a: i32, b: i32) -> (r: i32)
    ensures
        r as int == wrapped_sum(a, b),
        i32::MIN <= a + b <= i32::MAX ==> r as int == a + b,
{
    a.wrapping_add(b)
}

} // verus!
