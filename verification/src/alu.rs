//! The arithmetic of the processor, as mathematics on bytes and flags.
//!
//! Each operation is defined here by its meaning on integers. The bit-level
//! formulas that the instructions compute are proved equal to these
//! definitions by the lemmas at the end of the file.

use vstd::prelude::*;
use crate::flags::Flags;
use crate::registers::signed;

verus! {

/// 1 for a set carry, 0 for a clear one.
pub open spec fn carry_in(carry: bool) -> int {
    if carry {
        1
    } else {
        0
    }
}

/// The low eight bits of `n`.
#[verifier::opaque]
pub open spec fn low_byte(n: int) -> u8 {
    (n % 256) as u8
}

/// `flags` with zero and negative set from the result byte `val`.
pub open spec fn zero_neg(flags: Flags, val: u8) -> Flags {
    Flags { zero: val == 0, neg: val >= 128, ..flags }
}

/// Add with carry: the new accumulator and flags for `acc + val + carry`.
///
/// Carry is set when the unsigned sum does not fit in a byte, overflow when
/// the signed sum does not.
pub open spec fn add_with_carry(acc: u8, val: u8, flags: Flags) -> (u8, Flags) {
    let sum = acc as int + val as int + carry_in(flags.carry);
    let signed_sum = signed(acc) + signed(val) + carry_in(flags.carry);
    let result = low_byte(sum);
    (
        result,
        zero_neg(
            Flags { carry: sum > 255, overflow: signed_sum < -128 || signed_sum > 127, ..flags },
            result,
        ),
    )
}

/// Subtract with carry: the new accumulator and flags for
/// `acc - val - (1 - carry)`.
///
/// Carry is set when no borrow occurs, overflow when the signed difference
/// does not fit in a byte.
pub open spec fn subtract_with_carry(acc: u8, val: u8, flags: Flags) -> (u8, Flags) {
    let borrow = 1 - carry_in(flags.carry);
    let diff = acc as int - val as int - borrow;
    let signed_diff = signed(acc) - signed(val) - borrow;
    let result = low_byte(diff);
    (
        result,
        zero_neg(
            Flags {
                carry: diff >= 0,
                overflow: signed_diff < -128 || signed_diff > 127,
                ..flags
            },
            result,
        ),
    )
}

/// The flags after comparing `reg` with `val`: carry when `reg >= val`, zero
/// and negative from the difference truncated to a byte.
pub open spec fn compare(reg: u8, val: u8, flags: Flags) -> Flags {
    zero_neg(Flags { carry: reg >= val, ..flags }, low_byte(reg as int - val as int))
}

/// Shift left by one: the result and the bit shifted out.
pub open spec fn shift_left(val: u8) -> (u8, bool) {
    (low_byte(2 * val as int), val >= 128)
}

/// Shift right by one: the result and the bit shifted out.
pub open spec fn shift_right(val: u8) -> (u8, bool) {
    (val / 2, val % 2 == 1)
}

/// Rotate left through carry: the result and the new carry.
pub open spec fn rotate_left(carry: bool, val: u8) -> (u8, bool) {
    (low_byte(2 * val as int + carry_in(carry)), val >= 128)
}

/// Rotate right through carry: the result and the new carry.
pub open spec fn rotate_right(carry: bool, val: u8) -> (u8, bool) {
    ((val as int / 2 + 128 * carry_in(carry)) as u8, val % 2 == 1)
}

/// The flags after a bit test of `val` against the accumulator: zero from
/// the conjunction, overflow and negative from bits 6 and 7 of `val`.
pub open spec fn bit_test(acc: u8, val: u8, flags: Flags) -> Flags {
    Flags { zero: val & acc == 0, overflow: (val / 64) % 2 == 1, neg: val >= 128, ..flags }
}

/// The accumulator and flags after AND followed by a rotate right, with carry
/// from bit 6 of the result and overflow from bits 6 and 5 differing.
pub open spec fn and_rotate_right(acc: u8, val: u8, flags: Flags) -> (u8, Flags) {
    let result = rotate_right(flags.carry, acc & val).0;
    let bit6 = (result / 64) % 2 == 1;
    let bit5 = (result / 32) % 2 == 1;
    (result, zero_neg(Flags { carry: bit6, overflow: bit6 != bit5, ..flags }, result))
}

/// For every accumulator, operand and carry-in, subtracting `val` is adding
/// the complement of `val`.
pub proof fn law_subtract_is_add_complement(acc: u8, val: u8, flags: Flags)
    ensures
        subtract_with_carry(acc, val, flags) == add_with_carry(acc, val ^ 0xFF, flags),
{
    reveal(low_byte);
    lemma_complement(val);
}

/// The flags of add-with-carry, stated one by one.
pub proof fn law_add_with_carry_flags(acc: u8, val: u8, flags: Flags)
    ensures
        ({
            let (result, after) = add_with_carry(acc, val, flags);
            let sum = acc as int + val as int + carry_in(flags.carry);
            &&& result as int == if sum > 255 {
                sum - 256
            } else {
                sum
            }
            &&& after.carry == (sum > 255)
            &&& after.zero == (result == 0)
            &&& after.neg == (signed(result) < 0)
            &&& after.overflow == (signed(acc) + signed(val) + carry_in(flags.carry) != signed(
                result,
            ))
            &&& after.itr == flags.itr && after.dec == flags.dec && after.brk == flags.brk
                && after.unused == flags.unused
        }),
{
    reveal(low_byte);
}

/// The decimal flag plays no part in addition or subtraction: it is carried
/// through, and changes nothing else.
pub proof fn law_decimal_plays_no_part(acc: u8, val: u8, flags: Flags)
    ensures
        ({
            let other = Flags { dec: !flags.dec, ..flags };
            &&& add_with_carry(acc, val, other).0 == add_with_carry(acc, val, flags).0
            &&& add_with_carry(acc, val, other).1 == (Flags {
                dec: !flags.dec,
                ..add_with_carry(acc, val, flags).1
            })
            &&& subtract_with_carry(acc, val, other).0 == subtract_with_carry(acc, val, flags).0
            &&& subtract_with_carry(acc, val, other).1 == (Flags {
                dec: !flags.dec,
                ..subtract_with_carry(acc, val, flags).1
            })
            &&& add_with_carry(acc, val, flags).1.dec == flags.dec
        }),
{
}

/// After a compare the carry says exactly whether the register is at least
/// the operand, and zero whether they are equal.
pub proof fn law_compare_flags(reg: u8, val: u8, flags: Flags)
    ensures
        compare(reg, val, flags).carry == (reg >= val),
        compare(reg, val, flags).zero == (reg == val),
        compare(reg, val, flags).neg == (signed(low_byte(reg as int - val as int)) < 0),
        compare(reg, val, flags).overflow == flags.overflow,
{
    reveal(low_byte);
}

/// Wrapping arithmetic on bytes is arithmetic modulo 256.
pub proof fn lemma_wrapping_byte(a: u8, b: u8)
    ensures
        a.wrapping_add(b) == low_byte(a + b),
        a.wrapping_sub(b) == low_byte(a - b),
        low_byte(a as int) == a,
{
    reveal(low_byte);
}

/// Exclusive-or with 0xFF is the complement to 255.
pub proof fn lemma_complement(val: u8)
    ensures
        (val ^ 0xFF) == 255 - val,
{
    assert((val ^ 0xFF) == 255 - val) by (bit_vector);
}

/// The sign bit and the low bit of a byte, as tested by shifts and masks.
pub proof fn lemma_end_bits(val: u8)
    ensures
        (val >> 7 == 1) == (val >= 128),
        ((val >> 7) != 0) == (val >= 128),
        ((val & 0x80) != 0) == (val >= 128),
        ((val & 0x01) != 0) == (val % 2 == 1),
        ((val & 0x40) != 0) == ((val / 64) % 2 == 1),
{
    assert((val >> 7 == 1) == (val >= 128) && ((val >> 7) != 0) == (val >= 128) && ((val & 0x80)
        != 0) == (val >= 128) && ((val & 0x01) != 0) == (val % 2 == 1) && ((val & 0x40) != 0) == ((
    val / 64) % 2 == 1)) by (bit_vector);
}

/// Shifts by one place are doubling and halving.
pub proof fn lemma_shifts(val: u8)
    ensures
        val << 1 == low_byte(2 * val as int),
        val >> 1 == val / 2,
        (val << 1) | 1 == low_byte(2 * val as int + 1),
        (val >> 1) | 0x80 == val / 2 + 128,
        (val << 1) | 0 == val << 1,
        (val >> 1) | 0 == val >> 1,
        1u8 << 7 == 0x80,
        0u8 << 7 == 0,
{
    reveal(low_byte);
    assert(val << 1 == (2 * val) % 256 && val >> 1 == val / 2 && (val << 1) | 1 == (2 * val + 1)
        % 256 && (val >> 1) | 0x80 == val / 2 + 128 && (val << 1) | 0 == val << 1 && (val >> 1) | 0
        == val >> 1 && 1u8 << 7 == 0x80 && 0u8 << 7 == 0) by (bit_vector);
}

/// The overflow test on the nine-bit sum `sum` of `acc`, `val` and a carry:
/// the operands agree in sign and the result does not.
pub proof fn lemma_overflow_test(acc: u8, val: u8, sum: u16)
    requires
        sum == acc + val || sum == acc + val + 1,
    ensures
        sum as u8 == low_byte(sum as int),
        (((acc as u16 ^ sum) & (val as u16 ^ sum) & 0x80) != 0) == (signed(acc) + signed(val) + (sum
            - acc - val) < -128 || signed(acc) + signed(val) + (sum - acc - val) > 127),
{
    reveal(low_byte);
    assert(sum as u8 == sum % 256 && (((acc as u16 ^ sum) & (val as u16 ^ sum) & 0x80) != 0) == ((
    acc < 128) == (val < 128) && (sum % 256 < 128) != (acc < 128))) by (bit_vector)
        requires
            sum == acc + val || sum == acc + val + 1,
    ;
}

/// Bits 6 and 5 of a byte, as extracted by shift and mask.
pub proof fn lemma_middle_bits(val: u8)
    ensures
        ((val >> 6) & 1 == 1) == ((val / 64) % 2 == 1),
        ((val >> 5) & 1 == 1) == ((val / 32) % 2 == 1),
        (((val >> 6) & 1) ^ ((val >> 5) & 1) == 1) == (((val / 64) % 2 == 1) != ((val / 32) % 2
            == 1)),
{
    assert(((val >> 6) & 1 == 1) == ((val / 64) % 2 == 1) && ((val >> 5) & 1 == 1) == ((val / 32)
        % 2 == 1) && (((val >> 6) & 1) ^ ((val >> 5) & 1) == 1) == (((val / 64) % 2 == 1) != ((val
        / 32) % 2 == 1))) by (bit_vector);
}

} // verus!
