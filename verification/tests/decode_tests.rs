//! The instruction decoder and encoder: field extraction, the NOP fallback,
//! and the encode/decode round trip over samples of the legal domain.

use emu16::decode::encode_instruction;
use emu16::decode::Location;
use emu16::decode::Operation;

#[test]
fn known_operation_codes_decode() {
    assert_eq!(Operation::get_operation_from_instruction(0x0000), Operation::Mov);
    assert_eq!(Operation::get_operation_from_instruction(0x0001), Operation::Adc);
    assert_eq!(Operation::get_operation_from_instruction(0x0002), Operation::Sbc);
    assert_eq!(Operation::get_operation_from_instruction(0x0030), Operation::Stp);
    assert_eq!(Operation::get_operation_from_instruction(0x0031), Operation::Rst);
}

#[test]
fn unknown_operation_codes_decode_to_nop() {
    assert_eq!(Operation::get_operation_from_instruction(0x0003), Operation::Nop);
    assert_eq!(Operation::get_operation_from_instruction(0x002F), Operation::Nop);
    assert_eq!(Operation::get_operation_from_instruction(0x003F), Operation::Nop);
}

#[test]
fn operation_field_ignores_upper_bits() {
    assert_eq!(Operation::get_operation_from_instruction(0xFFC0), Operation::Mov);
    assert_eq!(Operation::get_operation_from_instruction(0x12C1), Operation::Adc);
}

#[test]
fn mode_fields_extract() {
    // dst = A (0x1), src = Immediate (0x0).
    assert_eq!(Location::get_destination_from_instruction(0x1000), Location::A);
    assert_eq!(Location::get_source_from_instruction(0x1000), Location::Immediate);
    // dst = abs (0x7), src = Y,X (0xC).
    assert_eq!(Location::get_destination_from_instruction(0x7C00), Location::Address);
    assert_eq!(Location::get_source_from_instruction(0x7C00), Location::IndexedPointer);
    // dst = (Y,X) (0xF), src = (abs) (0x9).
    assert_eq!(
        Location::get_destination_from_instruction(0xF900),
        Location::IndexedIndirectPointer
    );
    assert_eq!(Location::get_source_from_instruction(0xF900), Location::IndirectAddress);
}

#[test]
fn encode_produces_the_documented_words() {
    assert_eq!(
        encode_instruction(Operation::Mov, false, false, Location::A, Location::Immediate),
        0x1000
    );
    assert_eq!(
        encode_instruction(Operation::Stp, false, false, Location::Immediate, Location::Immediate),
        0x0030
    );
    assert_eq!(
        encode_instruction(Operation::Mov, true, true, Location::A, Location::Immediate),
        0x10C0
    );
    assert_eq!(
        encode_instruction(Operation::Mov, true, false, Location::B, Location::IndexedIndirectPointer),
        0x2F40
    );
    assert_eq!(
        encode_instruction(Operation::Adc, false, false, Location::A, Location::Immediate),
        0x1001
    );
}

#[test]
fn encode_decode_round_trip_over_samples() {
    let operations = [
        Operation::Mov,
        Operation::Adc,
        Operation::Sbc,
        Operation::Stp,
        Operation::Rst,
        Operation::Nop,
    ];
    let locations = [
        Location::Immediate,
        Location::A,
        Location::B,
        Location::C,
        Location::D,
        Location::Idx,
        Location::Idy,
        Location::Address,
        Location::IndexedAddress,
        Location::IndirectAddress,
        Location::IndirectIndexedAddress,
        Location::IndexedIndirectAddress,
        Location::IndexedPointer,
        Location::IndirectPointer,
        Location::IndirectIndexedPointer,
        Location::IndexedIndirectPointer,
    ];
    for operation in operations {
        for destination in locations {
            for source in locations {
                for byte_mode in [false, true] {
                    for lo_hi in [false, true] {
                        let word = encode_instruction(
                            operation, byte_mode, lo_hi, destination, source,
                        );
                        assert_eq!(
                            Operation::get_operation_from_instruction(word),
                            operation
                        );
                        assert_eq!(
                            Location::get_destination_from_instruction(word),
                            destination
                        );
                        assert_eq!(Location::get_source_from_instruction(word), source);
                        assert_eq!((word & 0x0040) != 0, byte_mode);
                        assert_eq!((word & 0x0080) != 0, lo_hi);
                    }
                }
            }
        }
    }
}
