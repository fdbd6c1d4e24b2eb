use vstd::prelude::*;

verus! {

/// Bit `n` of `x`, counting from the least significant bit; no such bit
/// exists for `n >= 8`, and it reads as unset.
pub open spec fn bit(x: u8, n: u8) -> bool {
    n < 8 && (x >> n) & 1u8 == 1u8
}

/// Tests bit `n` of `input`. An index past the top of the byte yields
/// `false` rather than a panic.
pub fn get_bit_at(input: u8, n: u8) -> (r: bool)
    ensures
        r == bit(input, n),
{
    if n < 8 {
        proof {
            assert((input & (1u8 << n)) != 0u8 <==> (input >> n) & 1u8 == 1u8) by (bit_vector)
                requires
                    n < 8u8,
            ;
        }
        (input & (1u8 << n)) != 0
    } else {
        false
    }
}

} // verus!
