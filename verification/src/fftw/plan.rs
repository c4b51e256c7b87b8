//! Window sizes accepted by the transform engine.

use vstd::prelude::*;

verus! {

/// The window sizes the transform engine accepts: 2, 4, 8, 16, ...
pub open spec fn valid_fft_size(x: int) -> bool {
    x >= 2 && vstd::arithmetic::power2::is_pow2(x)
}

/// Determine if a number is a power of two. One does not count: a window of
/// a single sample has no spectrum.
pub fn is_power_of_two(x: usize) -> (r: bool)
    ensures
        r == valid_fft_size(x as int),
{
    if x == 0 || x == 1 {
        proof {
            reveal(vstd::arithmetic::power2::is_pow2);
        }
        return false;
    }
    proof {
        lemma_clear_lowest_bit(x);
    }
    (x & (x - 1)) == 0
}

/// Clearing the lowest set bit of `x` leaves zero exactly when `x` is a
/// power of two.
pub proof fn lemma_clear_lowest_bit(x: usize)
    requires
        x >= 1,
    ensures
        (x & ((x - 1) as usize)) == 0 <==> vstd::arithmetic::power2::is_pow2(x as int),
    decreases x,
{
    reveal(vstd::arithmetic::power2::is_pow2);
    if x == 1 {
        assert(1usize & 0usize == 0) by (bit_vector);
    } else {
        let h: usize = x / 2;
        assert(h >= 1);
        lemma_clear_lowest_bit(h);
        let xm: usize = (x - 1) as usize;
        let hm: usize = (h - 1) as usize;
        assert(x >= 2 && xm == x - 1 && h == x / 2 && hm == h - 1 ==> ((x & xm) == 0 <==> (x % 2 == 0
            && (h & hm) == 0))) by (bit_vector);
    }
}

} // verus!
