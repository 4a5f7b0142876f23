use vstd::prelude::*;

verus! {

/// The numeric type of a block's byte length.
pub type BlockSize = usize;

/// The largest byte length a memory block may have.
pub const MAX_MEMBLOCK_SIZE: BlockSize = 4096;

/// The alignment used when a caller has no particular need.
pub const ALIGNMENT: usize = 8;

/// `n` is an exact power of two (1, 2, 4, ...).
pub open spec fn is_pow2(n: nat) -> bool
    decreases n,
{
    if n == 0 {
        false
    } else if n == 1 {
        true
    } else {
        n % 2 == 0 && is_pow2(n / 2)
    }
}

/// Decides whether `n` is an exact power of two.
pub fn is_power_of_two(n: usize) -> (r: bool)
    ensures
        r == is_pow2(n as nat),
{
    if n == 0 {
        return false;
    }
    let mut m: usize = n;
    while m > 1 && m % 2 == 0
        invariant
            m > 0,
            is_pow2(n as nat) == is_pow2(m as nat),
        decreases m,
    {
        m = m / 2;
    }
    m == 1
}

} // verus!
