//! The memory controller and the two concrete devices, exercised through
//! the bus: dispatch, unmapped behaviour, little-endian word accesses,
//! mapping and unmapping.

use emu16::device::Device;
use emu16::device::MappedDevice;
use emu16::device::RAM;
use emu16::device::ROM;
use emu16::memory::MemoryController;
use emu16::memory::MemoryError;

#[test]
fn unmapped_reads_zero_and_absorbs_writes() {
    let mut bus = MemoryController::new();
    assert_eq!(bus.read_8(0x1234), 0x00);
    assert_eq!(bus.read_16(0x1234), 0x0000);
    bus.write_8(0x1234, 0xAB);
    assert_eq!(bus.read_8(0x1234), 0x00);
    bus.write_16(0x4000, 0xBEEF);
    assert_eq!(bus.read_16(0x4000), 0x0000);
}

#[test]
fn ram_byte_roundtrip() {
    let mut bus = MemoryController::new();
    bus.map_device(0, 1, Device::Ram(RAM::new(0x1000))).unwrap();
    bus.write_8(0x0123, 0xAB);
    assert_eq!(bus.read_8(0x0123), 0xAB);
    bus.write_8(0x0000, 0x01);
    bus.write_8(0x0FFF, 0xFF);
    assert_eq!(bus.read_8(0x0000), 0x01);
    assert_eq!(bus.read_8(0x0FFF), 0xFF);
}

#[test]
fn ram_word_roundtrip() {
    let mut bus = MemoryController::new();
    bus.map_device(0, 1, Device::Ram(RAM::new(0x1000))).unwrap();
    bus.write_16(0x0200, 0xBEEF);
    assert_eq!(bus.read_16(0x0200), 0xBEEF);
    assert_eq!(bus.read_8(0x0200), 0xEF);
    assert_eq!(bus.read_8(0x0201), 0xBE);
}

#[test]
fn word_store_straddling_into_unmapped_block_drops_high_half() {
    let mut bus = MemoryController::new();
    bus.map_device(0, 1, Device::Ram(RAM::new(0x1000))).unwrap();
    bus.write_16(0x0FFF, 0xBEEF);
    assert_eq!(bus.read_8(0x0FFF), 0xEF);
    assert_eq!(bus.read_16(0x0FFF), 0x00EF);
}

#[test]
fn word_access_spans_two_devices() {
    let mut bus = MemoryController::new();
    bus.map_device(0, 1, Device::Ram(RAM::new(0x1000))).unwrap();
    bus.map_device(1, 1, Device::Ram(RAM::new(0x1000))).unwrap();
    bus.write_16(0x0FFF, 0xCAFE);
    assert_eq!(bus.read_8(0x0FFF), 0xFE);
    assert_eq!(bus.read_8(0x1000), 0xCA);
    assert_eq!(bus.read_16(0x0FFF), 0xCAFE);
}

#[test]
fn rom_ignores_bus_writes() {
    let mut bus = MemoryController::new();
    let mut rom = ROM::new(0x1000);
    rom.poke_bytes(0x0010, &[0x55, 0x66]);
    bus.map_device(0, 1, Device::Rom(rom)).unwrap();
    bus.write_8(0x0010, 0xAA);
    bus.write_16(0x0010, 0xABCD);
    assert_eq!(bus.read_8(0x0010), 0x55);
    assert_eq!(bus.read_16(0x0010), 0x6655);
}

#[test]
fn rom_poke_is_out_of_band_and_mutates() {
    let mut rom = ROM::new(0x100);
    rom.poke_bytes(0x20, &[0x11, 0x22, 0x33]);
    assert_eq!(rom.read_8(0x20), 0x11);
    assert_eq!(rom.read_8(0x21), 0x22);
    assert_eq!(rom.read_8(0x22), 0x33);
    let view = rom.peek_bytes(0x20, 3);
    assert_eq!(view, &[0x11, 0x22, 0x33]);
}

#[test]
fn map_overlap_is_refused_and_changes_nothing() {
    let mut bus = MemoryController::new();
    let first = bus.map_device(0, 2, Device::Ram(RAM::new(0x2000))).unwrap();
    assert_eq!(first, 0);
    let clash = bus.map_device(1, 2, Device::Ram(RAM::new(0x2000)));
    assert_eq!(clash, Err(MemoryError::Overlap));
    bus.write_8(0x1800, 0x42);
    assert_eq!(bus.read_8(0x1800), 0x42);
    let beside = bus.map_device(2, 1, Device::Ram(RAM::new(0x1000))).unwrap();
    assert_eq!(beside, 1);
}

#[test]
fn unmap_with_bad_handle_is_refused() {
    let mut bus = MemoryController::new();
    assert_eq!(bus.unmap_device(0), Err(MemoryError::OutOfRange));
    bus.map_device(0, 1, Device::Ram(RAM::new(0x1000))).unwrap();
    assert_eq!(bus.unmap_device(5), Err(MemoryError::OutOfRange));
    assert_eq!(bus.unmap_device(0), Ok(()));
}

#[test]
fn unmap_relocates_handles() {
    let mut bus = MemoryController::new();
    let h1 = bus.map_device(0, 1, Device::Ram(RAM::new(0x1000))).unwrap();
    let h2 = bus.map_device(8, 8, Device::Rom(ROM::new(0x8000))).unwrap();
    assert_eq!(h1, 0);
    assert_eq!(h2, 1);
    bus.unmap_device(h1).unwrap();
    // Block 0 is empty now.
    bus.write_8(0x0000, 0x99);
    assert_eq!(bus.read_8(0x0000), 0x00);
    // Blocks 8..=15 still route to the remaining mapping.
    assert_eq!(bus.read_8(0x8000), 0x00);
    // Swap-removal moved the last mapping into slot 0: the handle names ROM.
    let device = bus.get_device(0).unwrap();
    assert!(matches!(device, Device::Rom(_)));
    assert!(matches!(bus.get_device(1), Err(MemoryError::OutOfRange)));
}

#[test]
fn controller_reset_clears_ram_and_keeps_rom() {
    let mut bus = MemoryController::new();
    bus.map_device(0, 1, Device::Ram(RAM::new(0x1000))).unwrap();
    let mut rom = ROM::new(0x1000);
    rom.poke_bytes(0x0000, &[0xAA]);
    bus.map_device(1, 1, Device::Rom(rom)).unwrap();
    bus.write_8(0x0040, 0x77);
    bus.reset();
    assert_eq!(bus.read_8(0x0040), 0x00);
    assert_eq!(bus.read_8(0x1000), 0xAA);
}

#[test]
fn device_reads_past_reported_size_yield_zero() {
    let ram = RAM::new(16);
    assert_eq!(ram.read_8(20), 0x00);
    assert_eq!(ram.read_16(16), 0x0000);
    let rom = ROM::new(16);
    assert_eq!(rom.read_8(100), 0x00);
}

#[test]
fn device_word_read_straddling_the_end_reads_zero_high_byte() {
    let mut ram = RAM::new(16);
    ram.write_8(15, 0x5A);
    assert_eq!(ram.read_16(15), 0x005A);
}

#[test]
fn device_writes_past_reported_size_are_dropped() {
    let mut ram = RAM::new(16);
    ram.write_8(16, 0xFF);
    ram.write_16(15, 0xBEEF);
    assert_eq!(ram.read_8(15), 0xEF);
    assert_eq!(ram.read_8(16), 0x00);
}

#[test]
fn ram_fill_and_reset() {
    let mut ram = RAM::new(8);
    ram.fill(0x3C);
    assert_eq!(ram.read_8(0), 0x3C);
    assert_eq!(ram.read_8(7), 0x3C);
    ram.reset();
    assert_eq!(ram.read_8(0), 0x00);
    assert_eq!(ram.read_8(7), 0x00);
}

#[test]
fn rom_fill_and_reset_keeps_contents() {
    let mut rom = ROM::new(8);
    rom.fill(0x3C);
    rom.reset();
    assert_eq!(rom.read_8(0), 0x3C);
    assert_eq!(rom.size(), 8);
}

#[test]
fn device_enum_dispatches_like_its_store() {
    let mut dev = Device::Ram(RAM::new(4));
    dev.write_8(1, 0x42);
    assert_eq!(dev.read_8(1), 0x42);
    dev.reset();
    assert_eq!(dev.read_8(1), 0x00);
    let mut shield = Device::Rom(ROM::new(4));
    shield.write_8(1, 0x42);
    assert_eq!(shield.read_8(1), 0x00);
    assert_eq!(shield.size(), 4);
}

#[test]
fn get_device_mut_allows_out_of_band_loading() {
    let mut bus = MemoryController::new();
    let handle = bus.map_device(2, 1, Device::Rom(ROM::new(0x1000))).unwrap();
    let device = bus.get_device_mut(handle);
    device.poke_bytes(0x0005, &[0xE7]);
    assert_eq!(bus.read_8(0x2005), 0xE7);
}

#[test]
fn word_access_at_the_top_of_the_address_space() {
    let mut bus = MemoryController::new();
    bus.map_device(15, 1, Device::Ram(RAM::new(0x1000))).unwrap();
    bus.write_8(0xFFFF, 0x7A);
    // The byte above 0xFFFF does not exist: it reads as zero and its half
    // of a word store is dropped.
    assert_eq!(bus.read_16(0xFFFF), 0x007A);
    bus.write_16(0xFFFF, 0xBEEF);
    assert_eq!(bus.read_8(0xFFFF), 0xEF);
    assert_eq!(bus.read_16(0xFFFF), 0x00EF);
}

#[test]
fn zero_capacity_device_reads_zero_and_drops_writes() {
    let mut bus = MemoryController::new();
    bus.map_device(0, 1, Device::Ram(RAM::new(0))).unwrap();
    assert_eq!(bus.read_8(0x0000), 0x00);
    bus.write_8(0x0000, 0x42);
    assert_eq!(bus.read_8(0x0000), 0x00);
}

#[test]
fn one_mapping_can_cover_the_whole_address_space() {
    let mut bus = MemoryController::new();
    bus.map_device(0, 16, Device::Ram(RAM::new(0x10000))).unwrap();
    bus.write_8(0x0000, 0x01);
    bus.write_16(0x7FFF, 0xABCD);
    bus.write_8(0xFFFE, 0xFE);
    assert_eq!(bus.read_8(0x0000), 0x01);
    assert_eq!(bus.read_16(0x7FFF), 0xABCD);
    assert_eq!(bus.read_8(0xFFFE), 0xFE);
}

#[test]
fn every_offset_of_a_ram_mapping_round_trips() {
    let mut bus = MemoryController::new();
    bus.map_device(3, 1, Device::Ram(RAM::new(0x1000))).unwrap();
    for offset in 0..0x1000usize {
        let value = (offset % 251) as u8;
        bus.write_8(0x3000 + offset, value);
        assert_eq!(bus.read_8(0x3000 + offset), value);
    }
}

#[test]
fn mapping_fewer_blocks_than_the_store_leaves_the_rest_unreachable() {
    let mut bus = MemoryController::new();
    let mut ram = RAM::new(0x2000);
    ram.fill(0x11);
    bus.map_device(0, 1, Device::Ram(ram)).unwrap();
    assert_eq!(bus.read_8(0x0FFF), 0x11);
    // Block 1 is unmapped even though the store is larger.
    assert_eq!(bus.read_8(0x1000), 0x00);
}
