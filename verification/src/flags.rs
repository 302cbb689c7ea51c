//! The 8-bit status register: `S Z P C . O I .` from high bit to low.
//! Reserved bits read as written.

use vstd::prelude::*;

verus! {

/// Sign: the MSB of the operation's result. For 16-bit results the sign is
/// taken from bit 7 of the value, an 8-bit-style quirk kept for
/// compatibility with existing binaries.
pub const SIGN_FLAG: u8 = 0x80;

/// Zero: the result was zero.
pub const ZERO_FLAG: u8 = 0x40;

/// Parity: the result's popcount is even.
pub const PARITY_FLAG: u8 = 0x20;

/// Carry: add carry-out, or the inverse of the subtract borrow.
pub const CARRY_FLAG: u8 = 0x10;

/// Overflow: signed overflow of an add or subtract.
pub const OVERFLOW_FLAG: u8 = 0x08;

/// Interrupt disable: IRQs are masked while set; NMIs never are.
pub const INTERRUPT_DISABLE_FLAG: u8 = 0x04;

/// Whether the flags under `mask` are set in `status`.
pub open spec fn flag_set(status: u8, mask: u8) -> bool {
    status & mask != 0
}

/// The status with the flags under `mask` forced on or off.
pub open spec fn spec_set_flag(status: u8, mask: u8, on: bool) -> u8 {
    if on {
        status | mask
    } else {
        status & !mask
    }
}

/// Setting one status flag reads back as written and leaves every other
/// status flag alone.
pub proof fn lemma_flag_update(status: u8, mask: u8, on: bool, other: u8)
    by (bit_vector)
    requires
        mask == 0x80 || mask == 0x40 || mask == 0x20 || mask == 0x10 || mask == 0x08 || mask
            == 0x04,
        other == 0x80 || other == 0x40 || other == 0x20 || other == 0x10 || other == 0x08 || other
            == 0x04,
    ensures
        mask == other ==> flag_set(spec_set_flag(status, mask, on), other) == on,
        mask != other ==> flag_set(spec_set_flag(status, mask, on), other) == flag_set(
            status,
            other,
        ),
{
}

/// The number of set bits of a 16-bit value.
pub open spec fn pop16(v: u16) -> nat
    decreases v,
{
    if v == 0 {
        0
    } else {
        ((v % 2) + pop16(v / 2)) as nat
    }
}

/// The number of set bits of an 8-bit value.
pub open spec fn pop8(v: u8) -> nat
    decreases v,
{
    if v == 0 {
        0
    } else {
        ((v % 2) + pop8(v / 2)) as nat
    }
}

/// Whether a 16-bit value has an even number of set bits.
pub fn parity_even16(v: u16) -> (r: bool)
    ensures
        r == (pop16(v) % 2 == 0),
{
    proof {
        lemma_pop16_bound(v);
    }
    let mut x = v;
    let mut count: u32 = 0;
    while x != 0
        invariant
            pop16(v) <= 0xFFFF,
            pop16(v) == count + pop16(x),
        decreases x,
    {
        count = count + (x % 2) as u32;
        x = x / 2;
    }
    count % 2 == 0
}

/// Whether an 8-bit value has an even number of set bits.
pub fn parity_even8(v: u8) -> (r: bool)
    ensures
        r == (pop8(v) % 2 == 0),
{
    proof {
        lemma_pop8_bound(v);
    }
    let mut x = v;
    let mut count: u32 = 0;
    while x != 0
        invariant
            pop8(v) <= 0xFF,
            pop8(v) == count + pop8(x),
        decreases x,
    {
        count = count + (x % 2) as u32;
        x = x / 2;
    }
    count % 2 == 0
}

/// The popcount of a word never exceeds the word itself.
proof fn lemma_pop16_bound(v: u16)
    ensures
        pop16(v) <= v,
    decreases v,
{
    if v != 0 {
        lemma_pop16_bound(v / 2);
    }
}

/// The popcount of a byte never exceeds the byte itself.
proof fn lemma_pop8_bound(v: u8)
    ensures
        pop8(v) <= v,
    decreases v,
{
    if v != 0 {
        lemma_pop8_bound(v / 2);
    }
}

/// The status after a 16-bit result: sign from bit 7 of the value (the
/// compatibility quirk), zero, and even parity over all 16 bits; carry and
/// overflow untouched.
pub open spec fn spec_set_szp16(status: u8, value: u16) -> u8 {
    spec_set_flag(
        spec_set_flag(spec_set_flag(status, SIGN_FLAG, value & 0x80 != 0), ZERO_FLAG, value == 0),
        PARITY_FLAG,
        pop16(value) % 2 == 0,
    )
}

/// The status after an 8-bit result: sign from bit 7, zero, even parity;
/// carry and overflow untouched.
pub open spec fn spec_set_szp8(status: u8, value: u8) -> u8 {
    spec_set_flag(
        spec_set_flag(spec_set_flag(status, SIGN_FLAG, value & 0x80 != 0), ZERO_FLAG, value == 0),
        PARITY_FLAG,
        pop8(value) % 2 == 0,
    )
}

/// What each flag reads after a sign/zero/parity update from a 16-bit
/// result: carry, overflow and interrupt-disable are untouched.
pub proof fn lemma_szp16_flags(status: u8, value: u16)
    ensures
        flag_set(spec_set_szp16(status, value), SIGN_FLAG) == (value & 0x80 != 0),
        flag_set(spec_set_szp16(status, value), ZERO_FLAG) == (value == 0),
        flag_set(spec_set_szp16(status, value), PARITY_FLAG) == (pop16(value) % 2 == 0),
        flag_set(spec_set_szp16(status, value), CARRY_FLAG) == flag_set(status, CARRY_FLAG),
        flag_set(spec_set_szp16(status, value), OVERFLOW_FLAG) == flag_set(status, OVERFLOW_FLAG),
        flag_set(spec_set_szp16(status, value), INTERRUPT_DISABLE_FLAG) == flag_set(
            status,
            INTERRUPT_DISABLE_FLAG,
        ),
{
    let s1 = spec_set_flag(status, SIGN_FLAG, value & 0x80 != 0);
    let s2 = spec_set_flag(s1, ZERO_FLAG, value == 0);
    assert forall|other: u8|
        other == 0x80 || other == 0x40 || other == 0x20 || other == 0x10 || other == 0x08 || other
            == 0x04 implies {
        &&& flag_set(spec_set_szp16(status, value), other) == (if other == PARITY_FLAG {
            pop16(value) % 2 == 0
        } else if other == ZERO_FLAG {
            value == 0
        } else if other == SIGN_FLAG {
            value & 0x80 != 0
        } else {
            flag_set(status, other)
        })
    } by {
        lemma_flag_update(s2, PARITY_FLAG, pop16(value) % 2 == 0, other);
        lemma_flag_update(s1, ZERO_FLAG, value == 0, other);
        lemma_flag_update(status, SIGN_FLAG, value & 0x80 != 0, other);
    }
}

/// What each flag reads after a sign/zero/parity update from an 8-bit
/// result: carry, overflow and interrupt-disable are untouched.
pub proof fn lemma_szp8_flags(status: u8, value: u8)
    ensures
        flag_set(spec_set_szp8(status, value), SIGN_FLAG) == (value & 0x80 != 0),
        flag_set(spec_set_szp8(status, value), ZERO_FLAG) == (value == 0),
        flag_set(spec_set_szp8(status, value), PARITY_FLAG) == (pop8(value) % 2 == 0),
        flag_set(spec_set_szp8(status, value), CARRY_FLAG) == flag_set(status, CARRY_FLAG),
        flag_set(spec_set_szp8(status, value), OVERFLOW_FLAG) == flag_set(status, OVERFLOW_FLAG),
        flag_set(spec_set_szp8(status, value), INTERRUPT_DISABLE_FLAG) == flag_set(
            status,
            INTERRUPT_DISABLE_FLAG,
        ),
{
    let s1 = spec_set_flag(status, SIGN_FLAG, value & 0x80 != 0);
    let s2 = spec_set_flag(s1, ZERO_FLAG, value == 0);
    assert forall|other: u8|
        other == 0x80 || other == 0x40 || other == 0x20 || other == 0x10 || other == 0x08 || other
            == 0x04 implies {
        &&& flag_set(spec_set_szp8(status, value), other) == (if other == PARITY_FLAG {
            pop8(value) % 2 == 0
        } else if other == ZERO_FLAG {
            value == 0
        } else if other == SIGN_FLAG {
            value & 0x80 != 0
        } else {
            flag_set(status, other)
        })
    } by {
        lemma_flag_update(s2, PARITY_FLAG, pop8(value) % 2 == 0, other);
        lemma_flag_update(s1, ZERO_FLAG, value == 0, other);
        lemma_flag_update(status, SIGN_FLAG, value & 0x80 != 0, other);
    }
}

} // verus!
