//! Single-bit operations on a byte.
//!
//! Bits are numbered from 0 (least significant) to 7 (most significant);
//! every operation requires the bit index to lie in `0..8`.

use vstd::prelude::*;
use vstd::arithmetic::power2::{lemma2_to64, pow2};

verus! {

/// The mask that has only bit `bit` set.
pub open spec fn bit_mask(bit: u8) -> u8 {
    1u8 << bit
}

/// Whether bit `bit` of `v` is set.
pub open spec fn is_bit_set(v: u8, bit: u8) -> bool {
    v & bit_mask(bit) != 0
}

/// `v` with bit `bit` set.
pub open spec fn with_bit_set(v: u8, bit: u8) -> u8 {
    v | bit_mask(bit)
}

/// `v` with bit `bit` cleared.
pub open spec fn with_bit_cleared(v: u8, bit: u8) -> u8 {
    v & !bit_mask(bit)
}

/// `v` with bit `bit` set when `is_set` holds and cleared otherwise.
pub open spec fn with_bit_written(v: u8, bit: u8, is_set: bool) -> u8 {
    if is_set {
        with_bit_set(v, bit)
    } else {
        with_bit_cleared(v, bit)
    }
}

/// Sets one bit of a value, leaving the others as they were.
pub trait SetBit {
    fn set_bit(&mut self, bit: u8)
        requires
            bit < 8,
    ;
}

/// Clears one bit of a value, leaving the others as they were.
pub trait ClearBit {
    fn clear_bit(&mut self, bit: u8)
        requires
            bit < 8,
    ;
}

/// Sets or clears one bit of a value, leaving the others as they were.
pub trait WriteBit {
    fn write_bit(&mut self, bit: u8, is_set: bool)
        requires
            bit < 8,
    ;
}

/// Tells whether one bit of a value is set.
pub trait TestBit {
    fn test_bit(self, bit: u8) -> bool
        requires
            bit < 8,
    ;
}

impl SetBit for u8 {
    fn set_bit(&mut self, bit: u8)
        ensures
            *final(self) == with_bit_set(*old(self), bit),
            forall|i: u8|
                i < 8 ==> #[trigger] is_bit_set(*final(self), i) == (i == bit || is_bit_set(
                    *old(self),
                    i,
                )),
    {
        proof {
            assert forall|i: u8| i < 8 implies #[trigger] is_bit_set(with_bit_set(*self, bit), i)
                == (i == bit || is_bit_set(*self, i)) by {
                lemma_set_bit_only_touches_bit(*self, bit, i);
            }
        }
        *self = *self | (1u8 << bit);
    }
}

impl ClearBit for u8 {
    fn clear_bit(&mut self, bit: u8)
        ensures
            *final(self) == with_bit_cleared(*old(self), bit),
            forall|i: u8|
                i < 8 ==> #[trigger] is_bit_set(*final(self), i) == (i != bit && is_bit_set(
                    *old(self),
                    i,
                )),
    {
        proof {
            assert forall|i: u8| i < 8 implies #[trigger] is_bit_set(
                with_bit_cleared(*self, bit),
                i,
            ) == (i != bit && is_bit_set(*self, i)) by {
                lemma_clear_bit_only_touches_bit(*self, bit, i);
            }
        }
        *self = *self & !(1u8 << bit);
    }
}

impl WriteBit for u8 {
    fn write_bit(&mut self, bit: u8, is_set: bool)
        ensures
            *final(self) == with_bit_written(*old(self), bit, is_set),
            forall|i: u8|
                i < 8 ==> #[trigger] is_bit_set(*final(self), i) == if i == bit {
                    is_set
                } else {
                    is_bit_set(*old(self), i)
                },
    {
        if is_set {
            self.set_bit(bit);
        } else {
            self.clear_bit(bit);
        }
    }
}

impl TestBit for u8 {
    fn test_bit(self, bit: u8) -> (r: bool)
        ensures
            r == is_bit_set(self, bit),
    {
        self & (1u8 << bit) != 0
    }
}

/// Setting bit `bit` sets that bit and leaves every other bit as it was.
pub proof fn lemma_set_bit_only_touches_bit(v: u8, bit: u8, i: u8)
    by (bit_vector)
    requires
        bit < 8,
        i < 8,
    ensures
        is_bit_set(with_bit_set(v, bit), i) == (i == bit || is_bit_set(v, i)),
{
}

/// Clearing bit `bit` clears that bit and leaves every other bit as it was.
pub proof fn lemma_clear_bit_only_touches_bit(v: u8, bit: u8, i: u8)
    by (bit_vector)
    requires
        bit < 8,
        i < 8,
    ensures
        is_bit_set(with_bit_cleared(v, bit), i) == (i != bit && is_bit_set(v, i)),
{
}

/// Writing bit `bit` and then testing it gives back the written value; testing any
/// other bit gives what it was before the write.
pub proof fn lemma_test_after_write(v: u8, bit: u8, is_set: bool, i: u8)
    requires
        bit < 8,
        i < 8,
    ensures
        is_bit_set(with_bit_written(v, bit, is_set), i) == if i == bit {
            is_set
        } else {
            is_bit_set(v, i)
        },
{
    lemma_set_bit_only_touches_bit(v, bit, i);
    lemma_clear_bit_only_touches_bit(v, bit, i);
}

proof fn lemma_eight_bits_determine_byte(a: u8, b: u8)
    by (bit_vector)
    requires
        a & 1 == b & 1,
        a & 2 == b & 2,
        a & 4 == b & 4,
        a & 8 == b & 8,
        a & 16 == b & 16,
        a & 32 == b & 32,
        a & 64 == b & 64,
        a & 128 == b & 128,
    ensures
        a == b,
{
}

proof fn lemma_bit_is_flag(v: u8, i: u8)
    by (bit_vector)
    requires
        i < 8,
    ensures
        v & (1u8 << i) == 0 || v & (1u8 << i) == (1u8 << i),
        i == 0 ==> 1u8 << i == 1,
        i == 1 ==> 1u8 << i == 2,
        i == 2 ==> 1u8 << i == 4,
        i == 3 ==> 1u8 << i == 8,
        i == 4 ==> 1u8 << i == 16,
        i == 5 ==> 1u8 << i == 32,
        i == 6 ==> 1u8 << i == 64,
        i == 7 ==> 1u8 << i == 128,
{
}

/// A byte is determined by its eight bits.
pub proof fn lemma_bits_determine_byte(a: u8, b: u8)
    requires
        forall|i: u8| i < 8 ==> #[trigger] is_bit_set(a, i) == is_bit_set(b, i),
    ensures
        a == b,
{
    assert forall|i: u8| i < 8 implies #[trigger] (a & (1u8 << i)) == b & (1u8 << i) by {
        lemma_bit_is_flag(a, i);
        lemma_bit_is_flag(b, i);
        assert(is_bit_set(a, i) == is_bit_set(b, i));
    }
    lemma_bit_is_flag(a, 0);
    lemma_bit_is_flag(a, 1);
    lemma_bit_is_flag(a, 2);
    lemma_bit_is_flag(a, 3);
    lemma_bit_is_flag(a, 4);
    lemma_bit_is_flag(a, 5);
    lemma_bit_is_flag(a, 6);
    lemma_bit_is_flag(a, 7);
    lemma_eight_bits_determine_byte(a, b);
}

/// Setting a bit that was clear and then clearing it again gives back the original
/// byte, and clearing a bit that was set and then setting it again does too.
pub proof fn lemma_set_then_clear_restores(v: u8, bit: u8)
    requires
        bit < 8,
    ensures
        !is_bit_set(v, bit) ==> with_bit_cleared(with_bit_set(v, bit), bit) == v,
        is_bit_set(v, bit) ==> with_bit_set(with_bit_cleared(v, bit), bit) == v,
{
    assert forall|i: u8| i < 8 implies #[trigger] is_bit_set(
        with_bit_cleared(with_bit_set(v, bit), bit),
        i,
    ) == (i != bit && is_bit_set(v, i)) by {
        lemma_set_bit_only_touches_bit(v, bit, i);
        lemma_clear_bit_only_touches_bit(with_bit_set(v, bit), bit, i);
    }
    assert forall|i: u8| i < 8 implies #[trigger] is_bit_set(
        with_bit_set(with_bit_cleared(v, bit), bit),
        i,
    ) == (i == bit || is_bit_set(v, i)) by {
        lemma_clear_bit_only_touches_bit(v, bit, i);
        lemma_set_bit_only_touches_bit(with_bit_cleared(v, bit), bit, i);
    }
    if !is_bit_set(v, bit) {
        lemma_bits_determine_byte(with_bit_cleared(with_bit_set(v, bit), bit), v);
    } else {
        lemma_bits_determine_byte(with_bit_set(with_bit_cleared(v, bit), bit), v);
    }
}

/// The mask of bit `bit` is 2 to the power `bit`.
pub proof fn lemma_bit_mask_is_power_of_two(bit: u8)
    requires
        bit < 8,
    ensures
        bit_mask(bit) == pow2(bit as nat),
{
    lemma2_to64();
    lemma_bit_is_flag(0, bit);
}

/// Bit `bit` of `v` is its binary digit of weight 2^`bit`: it is set exactly when
/// `v / 2^bit` is odd.
pub proof fn lemma_bit_is_binary_digit(v: u8, bit: u8)
    requires
        bit < 8,
    ensures
        is_bit_set(v, bit) == ((v as nat / pow2(bit as nat)) % 2 == 1),
{
    lemma_bit_mask_is_power_of_two(bit);
    assert(((v & (1u8 << bit)) != 0) == ((v / (1u8 << bit)) % 2 == 1)) by (bit_vector)
        requires
            bit < 8,
    ;
}

/// Setting a clear bit adds 2^`bit`; setting a set bit changes nothing. Clearing a
/// set bit subtracts 2^`bit`; clearing a clear bit changes nothing.
pub proof fn lemma_bit_updates_as_arithmetic(v: u8, bit: u8)
    requires
        bit < 8,
    ensures
        with_bit_set(v, bit) == if is_bit_set(v, bit) {
            v as int
        } else {
            v + pow2(bit as nat)
        },
        with_bit_cleared(v, bit) == if is_bit_set(v, bit) {
            v - pow2(bit as nat)
        } else {
            v as int
        },
{
    lemma_bit_mask_is_power_of_two(bit);
    assert((v & (1u8 << bit)) == 0 ==> (v | (1u8 << bit)) == v + (1u8 << bit)) by (bit_vector)
        requires
            bit < 8,
    ;
    assert((v & (1u8 << bit)) != 0 ==> (v | (1u8 << bit)) == v) by (bit_vector);
    assert((v & (1u8 << bit)) != 0 ==> (v & !(1u8 << bit)) == v - (1u8 << bit)) by (bit_vector)
        requires
            bit < 8,
    ;
    assert((v & (1u8 << bit)) == 0 ==> (v & !(1u8 << bit)) == v) by (bit_vector);
}

} // verus!
