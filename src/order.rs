use vstd::prelude::*;

verus! {

/// The position of an IEEE-754 double, given by its bit pattern, in the total
/// order that `f64::total_cmp` uses: non-negative patterns keep their value,
/// negative ones are mirrored below zero so that a larger magnitude sorts lower.
pub open spec fn order_key(bits: u64) -> int {
    if bits < 0x8000_0000_0000_0000u64 {
        bits as int
    } else {
        -((bits - 0x8000_0000_0000_0000u64) as int) - 1
    }
}

/// The total-order key of a double's bit pattern: comparing two keys as integers
/// compares the doubles as `f64::total_cmp` does.
pub fn total_order_key(bits: u64) -> (r: i64)
    ensures
        r as int == order_key(bits),
{
    if bits < 0x8000_0000_0000_0000u64 {
        bits as i64
    } else {
        let magnitude: u64 = bits - 0x8000_0000_0000_0000u64;
        -(magnitude as i64) - 1
    }
}

} // verus!
