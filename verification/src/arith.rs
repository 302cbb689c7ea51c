//! The ALU's arithmetic: add with carry-in and subtract with borrow, in both
//! widths, with their carry-out and signed-overflow conditions.

use vstd::prelude::*;

use crate::flags::flag_set;
use crate::flags::spec_set_flag;
use crate::flags::spec_set_szp16;
use crate::flags::spec_set_szp8;
use crate::flags::lemma_flag_update;
use crate::flags::lemma_szp16_flags;
use crate::flags::lemma_szp8_flags;
use crate::flags::CARRY_FLAG;
use crate::flags::OVERFLOW_FLAG;

verus! {

/// The carry-in as an amount.
pub open spec fn carry_in(carry: bool) -> int {
    if carry {
        1
    } else {
        0
    }
}

/// The borrow charged when the carry flag is clear.
pub open spec fn borrow_in(carry: bool) -> int {
    if carry {
        0
    } else {
        1
    }
}

/// The sign bit of a 16-bit operand.
pub open spec fn sign16(v: u16) -> bool {
    v >= 0x8000
}

/// The sign bit of an 8-bit operand.
pub open spec fn sign8(v: u8) -> bool {
    v >= 0x80
}

/// Add with carry-in, modulo 2^16.
pub open spec fn spec_adc16_value(lhs: u16, rhs: u16, carry: bool) -> u16 {
    (((lhs + rhs + carry_in(carry)) % 0x10000) as u16)
}

/// The true carry-out of a 16-bit add.
pub open spec fn spec_adc16_carry(lhs: u16, rhs: u16, carry: bool) -> bool {
    lhs + rhs + carry_in(carry) >= 0x10000
}

/// Add with carry-in, modulo 2^8.
pub open spec fn spec_adc8_value(lhs: u8, rhs: u8, carry: bool) -> u8 {
    (((lhs + rhs + carry_in(carry)) % 0x100) as u8)
}

/// The true carry-out of an 8-bit add.
pub open spec fn spec_adc8_carry(lhs: u8, rhs: u8, carry: bool) -> bool {
    lhs + rhs + carry_in(carry) >= 0x100
}

/// Subtract with borrow, modulo 2^16.
pub open spec fn spec_sbc16_value(lhs: u16, rhs: u16, carry: bool) -> u16 {
    (((lhs + 0x10000 - rhs - borrow_in(carry)) % 0x10000) as u16)
}

/// The borrow-out of a 16-bit subtract.
pub open spec fn spec_sbc16_borrow(lhs: u16, rhs: u16, carry: bool) -> bool {
    lhs < rhs + borrow_in(carry)
}

/// Subtract with borrow, modulo 2^8.
pub open spec fn spec_sbc8_value(lhs: u8, rhs: u8, carry: bool) -> u8 {
    (((lhs + 0x100 - rhs - borrow_in(carry)) % 0x100) as u8)
}

/// The borrow-out of an 8-bit subtract.
pub open spec fn spec_sbc8_borrow(lhs: u8, rhs: u8, carry: bool) -> bool {
    lhs < rhs + borrow_in(carry)
}

/// Signed overflow, for add and subtract alike: the operands agree in sign
/// and the result does not.
pub open spec fn spec_overflow16(lhs: u16, rhs: u16, result: u16) -> bool {
    sign16(lhs) == sign16(rhs) && sign16(lhs) != sign16(result)
}

/// Signed overflow of an 8-bit operation.
pub open spec fn spec_overflow8(lhs: u8, rhs: u8, result: u8) -> bool {
    sign8(lhs) == sign8(rhs) && sign8(lhs) != sign8(result)
}

/// The status after a 16-bit add: sign, zero and parity from the result,
/// carry from the true carry-out, overflow from the signs.
pub open spec fn spec_adc16_status(status: u8, lhs: u16, rhs: u16, carry: bool) -> u8 {
    let result = spec_adc16_value(lhs, rhs, carry);
    spec_set_flag(
        spec_set_flag(spec_set_szp16(status, result), CARRY_FLAG, spec_adc16_carry(lhs, rhs, carry)),
        OVERFLOW_FLAG,
        spec_overflow16(lhs, rhs, result),
    )
}

/// The status after an 8-bit add.
pub open spec fn spec_adc8_status(status: u8, lhs: u8, rhs: u8, carry: bool) -> u8 {
    let result = spec_adc8_value(lhs, rhs, carry);
    spec_set_flag(
        spec_set_flag(spec_set_szp8(status, result), CARRY_FLAG, spec_adc8_carry(lhs, rhs, carry)),
        OVERFLOW_FLAG,
        spec_overflow8(lhs, rhs, result),
    )
}

/// The status after a 16-bit subtract: carry is NOT borrow.
pub open spec fn spec_sbc16_status(status: u8, lhs: u16, rhs: u16, carry: bool) -> u8 {
    let result = spec_sbc16_value(lhs, rhs, carry);
    spec_set_flag(
        spec_set_flag(
            spec_set_szp16(status, result),
            CARRY_FLAG,
            !spec_sbc16_borrow(lhs, rhs, carry),
        ),
        OVERFLOW_FLAG,
        spec_overflow16(lhs, rhs, result),
    )
}

/// The status after an 8-bit subtract: carry is NOT borrow.
pub open spec fn spec_sbc8_status(status: u8, lhs: u8, rhs: u8, carry: bool) -> u8 {
    let result = spec_sbc8_value(lhs, rhs, carry);
    spec_set_flag(
        spec_set_flag(spec_set_szp8(status, result), CARRY_FLAG, !spec_sbc8_borrow(lhs, rhs, carry)),
        OVERFLOW_FLAG,
        spec_overflow8(lhs, rhs, result),
    )
}

/// Add with a clear carry flag is ordinary addition modulo 2^16; the carry
/// flag afterwards is the true carry-out, and the overflow flag says the
/// operands agreed in sign while the result did not.
pub proof fn lemma_adc16_is_modular_addition(status: u8, lhs: u16, rhs: u16)
    requires
        !flag_set(status, CARRY_FLAG),
    ensures
        spec_adc16_value(lhs, rhs, false) == (lhs + rhs) % 0x10000,
        flag_set(spec_adc16_status(status, lhs, rhs, false), CARRY_FLAG) == (lhs + rhs >= 0x10000),
        flag_set(spec_adc16_status(status, lhs, rhs, false), OVERFLOW_FLAG) == (sign16(lhs)
            == sign16(rhs) && sign16(lhs) != sign16(spec_adc16_value(lhs, rhs, false))),
{
    let result = spec_adc16_value(lhs, rhs, false);
    let carried = spec_set_flag(
        spec_set_szp16(status, result),
        CARRY_FLAG,
        spec_adc16_carry(lhs, rhs, false),
    );
    lemma_flag_update(carried, OVERFLOW_FLAG, spec_overflow16(lhs, rhs, result), CARRY_FLAG);
    lemma_flag_update(carried, OVERFLOW_FLAG, spec_overflow16(lhs, rhs, result), OVERFLOW_FLAG);
    lemma_flag_update(
        spec_set_szp16(status, result),
        CARRY_FLAG,
        spec_adc16_carry(lhs, rhs, false),
        CARRY_FLAG,
    );
}

/// The 8-bit counterpart of the addition law.
pub proof fn lemma_adc8_is_modular_addition(status: u8, lhs: u8, rhs: u8)
    requires
        !flag_set(status, CARRY_FLAG),
    ensures
        spec_adc8_value(lhs, rhs, false) == (lhs + rhs) % 0x100,
        flag_set(spec_adc8_status(status, lhs, rhs, false), CARRY_FLAG) == (lhs + rhs >= 0x100),
        flag_set(spec_adc8_status(status, lhs, rhs, false), OVERFLOW_FLAG) == (sign8(lhs) == sign8(
            rhs,
        ) && sign8(lhs) != sign8(spec_adc8_value(lhs, rhs, false))),
{
    let result = spec_adc8_value(lhs, rhs, false);
    let carried = spec_set_flag(
        spec_set_szp8(status, result),
        CARRY_FLAG,
        spec_adc8_carry(lhs, rhs, false),
    );
    lemma_flag_update(carried, OVERFLOW_FLAG, spec_overflow8(lhs, rhs, result), CARRY_FLAG);
    lemma_flag_update(carried, OVERFLOW_FLAG, spec_overflow8(lhs, rhs, result), OVERFLOW_FLAG);
    lemma_flag_update(
        spec_set_szp8(status, result),
        CARRY_FLAG,
        spec_adc8_carry(lhs, rhs, false),
        CARRY_FLAG,
    );
}

/// Subtract with a set carry flag is ordinary subtraction modulo 2^16, and
/// the carry flag afterwards is NOT borrow: set exactly when no borrow was
/// needed.
pub proof fn lemma_sbc16_is_modular_subtraction(status: u8, lhs: u16, rhs: u16)
    requires
        flag_set(status, CARRY_FLAG),
    ensures
        lhs >= rhs ==> spec_sbc16_value(lhs, rhs, true) == lhs - rhs,
        spec_sbc16_value(lhs, rhs, true) == (lhs - rhs + 0x10000) % 0x10000,
        flag_set(spec_sbc16_status(status, lhs, rhs, true), CARRY_FLAG) == !(lhs < rhs),
{
    let result = spec_sbc16_value(lhs, rhs, true);
    let carried = spec_set_flag(
        spec_set_szp16(status, result),
        CARRY_FLAG,
        !spec_sbc16_borrow(lhs, rhs, true),
    );
    lemma_flag_update(carried, OVERFLOW_FLAG, spec_overflow16(lhs, rhs, result), CARRY_FLAG);
    lemma_flag_update(
        spec_set_szp16(status, result),
        CARRY_FLAG,
        !spec_sbc16_borrow(lhs, rhs, true),
        CARRY_FLAG,
    );
}

/// The 8-bit counterpart of the subtraction law.
pub proof fn lemma_sbc8_is_modular_subtraction(status: u8, lhs: u8, rhs: u8)
    requires
        flag_set(status, CARRY_FLAG),
    ensures
        lhs >= rhs ==> spec_sbc8_value(lhs, rhs, true) == lhs - rhs,
        spec_sbc8_value(lhs, rhs, true) == (lhs - rhs + 0x100) % 0x100,
        flag_set(spec_sbc8_status(status, lhs, rhs, true), CARRY_FLAG) == !(lhs < rhs),
{
    let result = spec_sbc8_value(lhs, rhs, true);
    let carried = spec_set_flag(
        spec_set_szp8(status, result),
        CARRY_FLAG,
        !spec_sbc8_borrow(lhs, rhs, true),
    );
    lemma_flag_update(carried, OVERFLOW_FLAG, spec_overflow8(lhs, rhs, result), CARRY_FLAG);
    lemma_flag_update(
        spec_set_szp8(status, result),
        CARRY_FLAG,
        !spec_sbc8_borrow(lhs, rhs, true),
        CARRY_FLAG,
    );
}

} // verus!
