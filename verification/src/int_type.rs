//! Integer types, and the value with every bit set in each of them.

use vstd::arithmetic::div_mod::{lemma_fundamental_div_mod_converse, lemma_small_mod};
use vstd::arithmetic::power2::{
    lemma2_to64, lemma_pow2_adds, lemma_pow2_pos, lemma_pow2_strictly_increases,
    lemma_pow2_unfold, pow2,
};
use vstd::bits::lemma_u128_shr_is_div;
use vstd::prelude::*;

use crate::constant::IntegerConstant;

verus! {

/// The widest integer type whose values an [`IntegerConstant`] can hold.
pub const MAX_WIDTH: u32 = 128;

/// What the host knows of an operand's integer type.
#[derive(Clone, Copy, Debug, PartialEq, Eq, Structural)]
pub struct IntegerTypeInfo {
    pub signed: bool,
    pub width: u32,
}

/// The value, in a type of `ty.width` bits, whose bits are all one: `-1` in a
/// signed type, `2^width - 1` in an unsigned one. With no bits there is only zero.
pub open spec fn all_ones_value(ty: IntegerTypeInfo) -> int {
    if ty.width == 0 {
        0
    } else if ty.signed {
        -1
    } else {
        pow2(ty.width as nat) - 1
    }
}

/// The low `ty.width` bits of `bits`, as a natural number.
pub open spec fn low_bits(ty: IntegerTypeInfo, bits: nat) -> nat {
    bits % pow2(ty.width as nat)
}

/// The value that a pattern of `ty.width` bits has in `ty`: in a signed type a
/// pattern with the top bit set stands for `pattern - 2^width` (two's
/// complement), every other pattern for itself.
pub open spec fn pattern_value(ty: IntegerTypeInfo, pattern: nat) -> int {
    if ty.signed && ty.width > 0 && pattern >= pow2((ty.width - 1) as nat) {
        pattern - pow2(ty.width as nat)
    } else {
        pattern as int
    }
}

/// The integer that the bits of a host's constant stand for in an operand of
/// type `ty`. Without a type there is no width to cut to and no sign to read,
/// and the bits stand for themselves.
pub open spec fn value_of_bits(ty: Option<IntegerTypeInfo>, bits: nat) -> int {
    match ty {
        Some(info) => pattern_value(info, low_bits(info, bits)),
        None => bits as int,
    }
}

/// `2^128` is one more than the largest `u128`.
pub proof fn lemma_pow2_128()
    ensures
        pow2(128) == u128::MAX + 1,
{
    lemma2_to64();
    lemma_pow2_adds(64, 64);
    assert(0x10000000000000000int * 0x10000000000000000int
        == 0x100000000000000000000000000000000int) by (nonlinear_arith);
}

/// The largest `u128`, shifted right until `width` bits are left, is `2^width - 1`.
proof fn lemma_max_shifted(width: u32)
    requires
        1 <= width <= MAX_WIDTH,
    ensures
        (u128::MAX >> ((MAX_WIDTH - width) as u128)) as int == pow2(width as nat) - 1,
{
    let dropped: u128 = (MAX_WIDTH - width) as u128;
    let low = pow2(dropped as nat) as int;
    let high = pow2(width as nat) as int;
    lemma_u128_shr_is_div(u128::MAX, dropped);
    lemma_pow2_pos(dropped as nat);
    lemma_pow2_pos(width as nat);
    lemma_pow2_adds(width as nat, dropped as nat);
    lemma_pow2_128();
    assert(high * low == u128::MAX + 1);
    assert(u128::MAX as int == (high - 1) * low + (low - 1)) by (nonlinear_arith)
        requires
            high * low == u128::MAX + 1,
    ;
    lemma_fundamental_div_mod_converse(u128::MAX as int, low, high - 1, low - 1);
}

/// Half of `2^width - 1`, rounded down, is `2^(width - 1) - 1`.
proof fn lemma_half_of_mask(width: u32, mask: u128)
    requires
        1 <= width,
        mask as int == pow2(width as nat) - 1,
    ensures
        (mask >> 1u128) as int == pow2((width - 1) as nat) - 1,
{
    lemma_u128_shr_is_div(mask, 1);
    lemma2_to64();
    lemma_pow2_unfold(width as nat);
}

/// A type of more than 128 bits has room for every `u128` below its top bit.
proof fn lemma_wide_types_hold_every_pattern(width: u32, bits: u128)
    requires
        width > MAX_WIDTH,
    ensures
        bits < pow2((width - 1) as nat) < pow2(width as nat),
{
    lemma_pow2_128();
    lemma_pow2_unfold(width as nat);
    if width > MAX_WIDTH + 1 {
        lemma_pow2_strictly_increases(128, (width - 1) as nat);
    }
}

/// The number whose low `width` bits are one and whose other bits are zero.
fn mask_of(width: u32) -> (mask: u128)
    requires
        1 <= width <= MAX_WIDTH,
    ensures
        mask as int == pow2(width as nat) - 1,
{
    proof {
        lemma_max_shifted(width);
    }
    let dropped: u128 = (MAX_WIDTH - width) as u128;
    u128::MAX >> dropped
}

impl IntegerTypeInfo {
    /// The value with every bit set, where an [`IntegerConstant`] can hold it:
    /// in every signed type, and in the unsigned types of at most 128 bits.
    pub fn all_ones(&self) -> (r: Option<IntegerConstant>)
        ensures
            r is Some <==> (self.signed || self.width <= MAX_WIDTH),
            r matches Some(c) ==> c@ == all_ones_value(*self),
            r is None ==> all_ones_value(*self) > u128::MAX,
    {
        if self.width == 0 {
            Some(IntegerConstant::from_u128(0))
        } else if self.signed {
            Some(IntegerConstant { negative: true, magnitude: 1 })
        } else if self.width <= MAX_WIDTH {
            Some(IntegerConstant::from_u128(mask_of(self.width)))
        } else {
            proof {
                lemma_pow2_128();
                lemma_pow2_strictly_increases(128, self.width as nat);
            }
            None
        }
    }

    /// Reads the low `width` bits of `bits` as a value of this type: the
    /// constant that a host has which keeps constants as raw bit patterns.
    pub fn constant_from_bits(&self, bits: u128) -> (c: IntegerConstant)
        ensures
            c@ == pattern_value(*self, low_bits(*self, bits as nat)),
    {
        if self.width == 0 {
            proof {
                lemma2_to64();
            }
            IntegerConstant::from_u128(0)
        } else if self.width <= MAX_WIDTH {
            let mask = mask_of(self.width);
            let pattern: u128 = if self.width < MAX_WIDTH {
                proof {
                    lemma_pow2_128();
                    lemma_pow2_strictly_increases(self.width as nat, 128);
                }
                bits % (mask + 1)
            } else {
                proof {
                    lemma_pow2_128();
                    lemma_small_mod(bits as nat, pow2(128));
                }
                bits
            };
            proof {
                lemma_half_of_mask(self.width, mask);
            }
            if self.signed && pattern > (mask >> 1u128) {
                IntegerConstant { negative: true, magnitude: mask - pattern + 1 }
            } else {
                IntegerConstant::from_u128(pattern)
            }
        } else {
            proof {
                lemma_wide_types_hold_every_pattern(self.width, bits);
                lemma_small_mod(bits as nat, pow2(self.width as nat));
            }
            IntegerConstant::from_u128(bits)
        }
    }
}

/// The constant of an operand of type `ty` that a host holds as `bits`.
pub fn constant_of_bits(ty: &Option<IntegerTypeInfo>, bits: u128) -> (c: IntegerConstant)
    ensures
        c@ == value_of_bits(*ty, bits as nat),
{
    match ty {
        Some(info) => info.constant_from_bits(bits),
        None => IntegerConstant::from_u128(bits),
    }
}

} // verus!
