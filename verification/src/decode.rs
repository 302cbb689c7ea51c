//! The instruction decoder. One 16-bit word multiplexes operation, width,
//! byte-half selector and the two operand modes:
//! bits 15-12 the destination mode, bits 11-8 the source mode, bit 7 the
//! half selector, bit 6 the width, bits 5-0 the operation code.

use vstd::prelude::*;

verus! {

/// An operation the CPU can execute. Every code outside the known five
/// decodes to `Nop`.
#[derive(Clone, Copy, PartialEq, Eq, Structural, Debug)]
pub enum Operation {
    Mov,
    Adc,
    Sbc,
    Stp,
    Rst,
    Nop,
}

/// An operand location: a literal, a register, or one of ten memory forms.
#[derive(Clone, Copy, PartialEq, Eq, Structural, Debug)]
pub enum Location {
    Immediate,
    A,
    B,
    C,
    D,
    Idx,
    Idy,
    Address,
    IndexedAddress,
    IndirectAddress,
    IndirectIndexedAddress,
    IndexedIndirectAddress,
    IndexedPointer,
    IndirectPointer,
    IndirectIndexedPointer,
    IndexedIndirectPointer,
}

/// The operation code field of an instruction word.
pub open spec fn spec_operation_bits(instruction: u16) -> u16 {
    instruction & 0x003F
}

/// The destination mode field of an instruction word.
pub open spec fn spec_destination_bits(instruction: u16) -> u16 {
    (instruction & 0xF000) >> 12u16
}

/// The source mode field of an instruction word.
pub open spec fn spec_source_bits(instruction: u16) -> u16 {
    (instruction & 0x0F00) >> 8u16
}

/// The width bit: set selects 8-bit operation.
pub open spec fn spec_byte_mode(instruction: u16) -> bool {
    instruction & 0x0040 != 0
}

/// The half-selector bit: set selects the high byte of a register operand.
pub open spec fn spec_lo_hi(instruction: u16) -> bool {
    instruction & 0x0080 != 0
}

/// The operation a code names; unknown codes fall back to `Nop`.
pub open spec fn spec_operation(instruction: u16) -> Operation {
    let code = spec_operation_bits(instruction);
    if code == 0x00 {
        Operation::Mov
    } else if code == 0x01 {
        Operation::Adc
    } else if code == 0x02 {
        Operation::Sbc
    } else if code == 0x30 {
        Operation::Stp
    } else if code == 0x31 {
        Operation::Rst
    } else {
        Operation::Nop
    }
}

/// The location a four-bit mode code names.
pub open spec fn spec_location(code: u16) -> Location {
    if code == 0x0 {
        Location::Immediate
    } else if code == 0x1 {
        Location::A
    } else if code == 0x2 {
        Location::B
    } else if code == 0x3 {
        Location::C
    } else if code == 0x4 {
        Location::D
    } else if code == 0x5 {
        Location::Idx
    } else if code == 0x6 {
        Location::Idy
    } else if code == 0x7 {
        Location::Address
    } else if code == 0x8 {
        Location::IndexedAddress
    } else if code == 0x9 {
        Location::IndirectAddress
    } else if code == 0xA {
        Location::IndirectIndexedAddress
    } else if code == 0xB {
        Location::IndexedIndirectAddress
    } else if code == 0xC {
        Location::IndexedPointer
    } else if code == 0xD {
        Location::IndirectPointer
    } else if code == 0xE {
        Location::IndirectIndexedPointer
    } else {
        Location::IndexedIndirectPointer
    }
}

/// The destination mode of an instruction word.
pub open spec fn spec_destination(instruction: u16) -> Location {
    spec_location(spec_destination_bits(instruction))
}

/// The source mode of an instruction word.
pub open spec fn spec_source(instruction: u16) -> Location {
    spec_location(spec_source_bits(instruction))
}

impl Operation {
    /// The six-bit code that stands for this operation in an instruction
    /// word; `Nop` is encoded as one of the free codes.
    pub open spec fn spec_code(self) -> u16 {
        match self {
            Operation::Mov => 0x00,
            Operation::Adc => 0x01,
            Operation::Sbc => 0x02,
            Operation::Stp => 0x30,
            Operation::Rst => 0x31,
            Operation::Nop => 0x03,
        }
    }

    /// Decode the operation field of an instruction word.
    pub fn get_operation_from_instruction(instruction: u16) -> (r: Operation)
        ensures
            r == spec_operation(instruction),
    {
        let operation = instruction & 0x003F;
        match operation {
            0x00 => Operation::Mov,
            0x01 => Operation::Adc,
            0x02 => Operation::Sbc,
            0x30 => Operation::Stp,
            0x31 => Operation::Rst,
            _ => Operation::Nop,
        }
    }

    /// The six-bit code, as a value.
    pub fn code(self) -> (r: u16)
        ensures
            r == self.spec_code(),
    {
        match self {
            Operation::Mov => 0x00,
            Operation::Adc => 0x01,
            Operation::Sbc => 0x02,
            Operation::Stp => 0x30,
            Operation::Rst => 0x31,
            Operation::Nop => 0x03,
        }
    }
}

impl Location {
    /// The four-bit code that stands for this location in a mode field.
    pub open spec fn spec_code(self) -> u16 {
        match self {
            Location::Immediate => 0x0,
            Location::A => 0x1,
            Location::B => 0x2,
            Location::C => 0x3,
            Location::D => 0x4,
            Location::Idx => 0x5,
            Location::Idy => 0x6,
            Location::Address => 0x7,
            Location::IndexedAddress => 0x8,
            Location::IndirectAddress => 0x9,
            Location::IndirectIndexedAddress => 0xA,
            Location::IndexedIndirectAddress => 0xB,
            Location::IndexedPointer => 0xC,
            Location::IndirectPointer => 0xD,
            Location::IndirectIndexedPointer => 0xE,
            Location::IndexedIndirectPointer => 0xF,
        }
    }

    /// Decode the destination mode field of an instruction word.
    pub fn get_destination_from_instruction(instruction: u16) -> (r: Location)
        ensures
            r == spec_destination(instruction),
    {
        let destination = (instruction & 0xF000) >> 12u16;
        proof {
            assert((instruction & 0xF000) >> 12u16 < 16) by (bit_vector);
        }
        Location::from_code(destination)
    }

    /// Decode the source mode field of an instruction word.
    pub fn get_source_from_instruction(instruction: u16) -> (r: Location)
        ensures
            r == spec_source(instruction),
    {
        let source = (instruction & 0x0F00) >> 8u16;
        proof {
            assert((instruction & 0x0F00) >> 8u16 < 16) by (bit_vector);
        }
        Location::from_code(source)
    }

    /// The location a four-bit code names.
    pub fn from_code(code: u16) -> (r: Location)
        requires
            code < 16,
        ensures
            r == spec_location(code),
    {
        match code {
            0x0 => Location::Immediate,
            0x1 => Location::A,
            0x2 => Location::B,
            0x3 => Location::C,
            0x4 => Location::D,
            0x5 => Location::Idx,
            0x6 => Location::Idy,
            0x7 => Location::Address,
            0x8 => Location::IndexedAddress,
            0x9 => Location::IndirectAddress,
            0xA => Location::IndirectIndexedAddress,
            0xB => Location::IndexedIndirectAddress,
            0xC => Location::IndexedPointer,
            0xD => Location::IndirectPointer,
            0xE => Location::IndirectIndexedPointer,
            _ => Location::IndexedIndirectPointer,
        }
    }

    /// The four-bit code, as a value.
    pub fn code(self) -> (r: u16)
        ensures
            r == self.spec_code(),
    {
        match self {
            Location::Immediate => 0x0,
            Location::A => 0x1,
            Location::B => 0x2,
            Location::C => 0x3,
            Location::D => 0x4,
            Location::Idx => 0x5,
            Location::Idy => 0x6,
            Location::Address => 0x7,
            Location::IndexedAddress => 0x8,
            Location::IndirectAddress => 0x9,
            Location::IndirectIndexedAddress => 0xA,
            Location::IndexedIndirectAddress => 0xB,
            Location::IndexedPointer => 0xC,
            Location::IndirectPointer => 0xD,
            Location::IndirectIndexedPointer => 0xE,
            Location::IndexedIndirectPointer => 0xF,
        }
    }
}

/// The instruction word that carries the given fields.
pub open spec fn spec_encode(
    operation: Operation,
    byte_mode: bool,
    lo_hi: bool,
    destination: Location,
    source: Location,
) -> u16 {
    (destination.spec_code() << 12u16) | (source.spec_code() << 8u16) | (if lo_hi {
        0x0080u16
    } else {
        0
    }) | (if byte_mode {
        0x0040u16
    } else {
        0
    }) | operation.spec_code()
}

/// Build the instruction word that carries the given fields.
pub fn encode_instruction(
    operation: Operation,
    byte_mode: bool,
    lo_hi: bool,
    destination: Location,
    source: Location,
) -> (r: u16)
    ensures
        r == spec_encode(operation, byte_mode, lo_hi, destination, source),
{
    let dst = destination.code();
    let src = source.code();
    let lh: u16 = if lo_hi {
        0x0080
    } else {
        0
    };
    let w: u16 = if byte_mode {
        0x0040
    } else {
        0
    };
    let op = operation.code();
    proof {
        assert((dst << 12u16) | (src << 8u16) | lh | w | op < 0x10000) by (bit_vector);
    }
    (dst << 12u16) | (src << 8u16) | lh | w | op
}

/// The field extractors recover the fields of an encoded word, for four-bit
/// mode codes, one-bit flags and a six-bit operation code.
proof fn lemma_field_extraction(dst: u16, src: u16, lh: u16, w: u16, op: u16)
    by (bit_vector)
    requires
        dst < 16,
        src < 16,
        lh == 0 || lh == 0x0080,
        w == 0 || w == 0x0040,
        op < 0x40,
    ensures
        ((((dst << 12u16) | (src << 8u16) | lh | w | op) & 0xF000) >> 12u16) == dst,
        ((((dst << 12u16) | (src << 8u16) | lh | w | op) & 0x0F00) >> 8u16) == src,
        (((dst << 12u16) | (src << 8u16) | lh | w | op) & 0x0080) == lh,
        (((dst << 12u16) | (src << 8u16) | lh | w | op) & 0x0040) == w,
        (((dst << 12u16) | (src << 8u16) | lh | w | op) & 0x003F) == op,
{
}

/// Encoding round-trip: over the whole legal domain, decoding the encoded
/// word gives back the operation, width, half selector and both modes.
pub proof fn lemma_encode_decode_round_trip(
    operation: Operation,
    byte_mode: bool,
    lo_hi: bool,
    destination: Location,
    source: Location,
)
    ensures
        spec_operation(spec_encode(operation, byte_mode, lo_hi, destination, source)) == operation,
        spec_byte_mode(spec_encode(operation, byte_mode, lo_hi, destination, source)) == byte_mode,
        spec_lo_hi(spec_encode(operation, byte_mode, lo_hi, destination, source)) == lo_hi,
        spec_destination(spec_encode(operation, byte_mode, lo_hi, destination, source))
            == destination,
        spec_source(spec_encode(operation, byte_mode, lo_hi, destination, source)) == source,
{
    let dst = destination.spec_code();
    let src = source.spec_code();
    let lh: u16 = if lo_hi {
        0x0080
    } else {
        0
    };
    let w: u16 = if byte_mode {
        0x0040
    } else {
        0
    };
    let op = operation.spec_code();
    lemma_field_extraction(dst, src, lh, w, op);
}

} // verus!
