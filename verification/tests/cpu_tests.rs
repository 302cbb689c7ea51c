//! The execution engine end to end, on one memory map: RAM over
//! 0x0000-0x0FFF, ROM over 0x8000-0xFFFF, all ROM bytes poked before reset.

use emu16::cpu::CPU;
use emu16::device::Device;
use emu16::device::MappedDevice;
use emu16::device::RAM;
use emu16::device::ROM;

const SIGN: u8 = 0x80;
const ZERO: u8 = 0x40;
const PARITY: u8 = 0x20;
const CARRY: u8 = 0x10;
const OVERFLOW: u8 = 0x08;
const INTERRUPT_DISABLE: u8 = 0x04;

/// A machine with RAM at 0x0000, ROM at 0x8000, the reset vector pointing
/// at 0x8000 and the program poked there, reset and running.
fn machine_with_program(program: &[u8]) -> CPU {
    let mut cpu = CPU::new();
    cpu.memory_controller
        .map_device(0, 1, Device::Ram(RAM::new(0x1000)))
        .expect("RAM blocks are free");
    let rom_index = cpu
        .memory_controller
        .map_device(8, 8, Device::Rom(ROM::new(0x8000)))
        .expect("ROM blocks are free");
    let rom = cpu.memory_controller.get_device_mut(rom_index);
    rom.poke_bytes(0x7FFE, &[0x00, 0x80]);
    rom.poke_bytes(0x0000, program);
    cpu.reset();
    cpu
}

#[test]
fn smoke_reset() {
    // STP with dst/src = 0, byte-mode 0: word 0x0030, little-endian 30 00.
    let mut cpu = machine_with_program(&[0x30, 0x00]);
    assert_eq!(cpu.program_counter, 0x8000);
    assert!(cpu.enable);
    cpu.process(false, None);
    assert!(!cpu.enable);
    assert_eq!(cpu.program_counter, 0x8002);
    cpu.process(false, None);
    assert!(!cpu.enable);
    assert_eq!(cpu.program_counter, 0x8002);
}

#[test]
fn reset_clears_registers_and_latches_pc() {
    let mut cpu = machine_with_program(&[0x30, 0x00]);
    cpu.a = 0x1234;
    cpu.index_x = 0x5678;
    cpu.status = 0xFF;
    cpu.reset();
    assert_eq!(cpu.program_counter, 0x8000);
    assert_eq!(cpu.a, 0x0000);
    assert_eq!(cpu.b, 0x0000);
    assert_eq!(cpu.c, 0x0000);
    assert_eq!(cpu.d, 0x0000);
    assert_eq!(cpu.index_x, 0x0000);
    assert_eq!(cpu.index_y, 0x0000);
    assert_eq!(cpu.stack_pointer, 0x0000);
    assert_eq!(cpu.status, 0x00);
    assert!(!cpu.waiting_for_interrupt);
}

#[test]
fn reset_clears_ram_but_rom_survives() {
    let mut cpu = machine_with_program(&[0x30, 0x00]);
    cpu.memory_controller.write_8(0x0100, 0x42);
    cpu.reset();
    assert_eq!(cpu.memory_controller.read_8(0x0100), 0x00);
    assert_eq!(cpu.memory_controller.read_16(0xFFFE), 0x8000);
}

#[test]
fn mov_immediate_word_into_a() {
    // MOV dst=A, src=Imm, W=0: word 0x1000, then immediate 0xBEEF.
    let mut cpu = machine_with_program(&[0x00, 0x10, 0xEF, 0xBE]);
    cpu.process(false, None);
    assert_eq!(cpu.a, 0xBEEF);
    assert_eq!(cpu.program_counter, 0x8004);
    // Sign comes from bit 7 of the value: bit 7 of 0xBEEF is set.
    assert_ne!(cpu.status & SIGN, 0);
    assert_eq!(cpu.status & ZERO, 0);
    // popcount(0xBEEF) is 13, odd, so even-parity is clear.
    assert_eq!(cpu.status & PARITY, 0);
}

#[test]
fn mov_immediate_zero_sets_zero_and_parity() {
    let mut cpu = machine_with_program(&[0x00, 0x10, 0x00, 0x00]);
    cpu.process(false, None);
    assert_eq!(cpu.a, 0x0000);
    assert_ne!(cpu.status & ZERO, 0);
    // popcount(0) is 0, even.
    assert_ne!(cpu.status & PARITY, 0);
    assert_eq!(cpu.status & SIGN, 0);
}

#[test]
fn adc_sets_overflow() {
    // ADC dst=A, src=Imm, W=0: word 0x1001, then immediate 0x0001.
    let mut cpu = machine_with_program(&[0x01, 0x10, 0x01, 0x00]);
    cpu.a = 0x7FFF;
    cpu.process(false, None);
    assert_eq!(cpu.a, 0x8000);
    assert_eq!(cpu.status & CARRY, 0);
    assert_ne!(cpu.status & OVERFLOW, 0);
    // Sign comes from bit 7 of 0x8000, which is clear.
    assert_eq!(cpu.status & SIGN, 0);
}

#[test]
fn adc_carry_out_and_carry_in() {
    // ADC dst=A, src=Imm twice: 0xFFFF + 1 wraps with carry-out, then the
    // carry feeds the next add.
    let mut cpu = machine_with_program(&[0x01, 0x10, 0x01, 0x00, 0x01, 0x10, 0x10, 0x00]);
    cpu.a = 0xFFFF;
    cpu.process(false, None);
    assert_eq!(cpu.a, 0x0000);
    assert_ne!(cpu.status & CARRY, 0);
    cpu.process(false, None);
    assert_eq!(cpu.a, 0x0011);
    assert_eq!(cpu.status & CARRY, 0);
}

#[test]
fn sbc_with_carry_set_is_plain_subtraction() {
    // SBC dst=A, src=Imm, W=0: word 0x1002, then immediate 0x0001.
    let mut cpu = machine_with_program(&[0x02, 0x10, 0x01, 0x00]);
    cpu.a = 0x0005;
    cpu.status = CARRY;
    cpu.process(false, None);
    assert_eq!(cpu.a, 0x0004);
    // No borrow was needed: carry stays set.
    assert_ne!(cpu.status & CARRY, 0);
}

#[test]
fn sbc_borrow_clears_carry_and_wraps() {
    let mut cpu = machine_with_program(&[0x02, 0x10, 0x02, 0x00]);
    cpu.a = 0x0001;
    cpu.status = CARRY;
    cpu.process(false, None);
    assert_eq!(cpu.a, 0xFFFF);
    assert_eq!(cpu.status & CARRY, 0);
}

#[test]
fn byte_mode_high_half_write() {
    // MOV dst=A, src=Imm, W=1, LH=1: word 0x10C0, then immediate byte 0x42.
    let mut cpu = machine_with_program(&[0xC0, 0x10, 0x42]);
    cpu.a = 0x1234;
    cpu.process(false, None);
    assert_eq!(cpu.a, 0x4234);
    assert_eq!(cpu.program_counter, 0x8003);
}

#[test]
fn byte_mode_low_half_write_preserves_high() {
    // MOV dst=A, src=Imm, W=1, LH=0: word 0x1040, then immediate byte 0x42.
    let mut cpu = machine_with_program(&[0x40, 0x10, 0x42]);
    cpu.a = 0x1234;
    cpu.process(false, None);
    assert_eq!(cpu.a, 0x1242);
}

#[test]
fn indexed_indirect_pointer_byte_read() {
    // MOV byte, src = (Y,X), dst = B, LH=0: word 0x2F40.
    let mut cpu = machine_with_program(&[0x40, 0x2F]);
    cpu.index_x = 0x0004;
    cpu.index_y = 0x0010;
    cpu.memory_controller.write_16(0x0014, 0x0120);
    cpu.memory_controller.write_8(0x0120, 0x77);
    cpu.process(false, None);
    assert_eq!(cpu.b, 0x0077);
}

#[test]
fn mov_register_to_absolute_address() {
    // MOV dst=abs, src=A, W=0: word 0x7100, then destination address 0x0020.
    let mut cpu = machine_with_program(&[0x00, 0x71, 0x20, 0x00]);
    cpu.a = 0xABCD;
    cpu.process(false, None);
    assert_eq!(cpu.memory_controller.read_16(0x0020), 0xABCD);
    assert_eq!(cpu.memory_controller.read_8(0x0020), 0xCD);
    assert_eq!(cpu.memory_controller.read_8(0x0021), 0xAB);
    assert_eq!(cpu.program_counter, 0x8004);
}

#[test]
fn mov_absolute_indexed_source() {
    // MOV dst=A, src=abs,X, W=0: word 0x1800, then base address 0x0100.
    let mut cpu = machine_with_program(&[0x00, 0x18, 0x00, 0x01]);
    cpu.index_x = 0x0008;
    cpu.memory_controller.write_16(0x0108, 0x4321);
    cpu.process(false, None);
    assert_eq!(cpu.a, 0x4321);
}

#[test]
fn mov_indirect_address_source() {
    // MOV dst=A, src=(abs), W=0: word 0x1900, then pointer address 0x0040;
    // RAM at 0x0040 points at 0x0200.
    let mut cpu = machine_with_program(&[0x00, 0x19, 0x40, 0x00]);
    cpu.memory_controller.write_16(0x0040, 0x0200);
    cpu.memory_controller.write_16(0x0200, 0x5A5A);
    cpu.process(false, None);
    assert_eq!(cpu.a, 0x5A5A);
}

#[test]
fn mov_immediate_destination_discards_write_but_sets_flags() {
    // MOV dst=Imm, src=A, W=0: word 0x0100.
    let mut cpu = machine_with_program(&[0x00, 0x01]);
    cpu.a = 0x0000;
    cpu.process(false, None);
    assert_eq!(cpu.program_counter, 0x8002);
    assert_ne!(cpu.status & ZERO, 0);
}

#[test]
fn adc_byte_mode_uses_selected_half() {
    // ADC dst=A, src=Imm, W=1, LH=1: word 0x10C1, then immediate byte 0x01.
    // The high half 0xFF takes the add: it wraps to 0x00 with carry-out.
    let mut cpu = machine_with_program(&[0xC1, 0x10, 0x01]);
    cpu.a = 0xFF34;
    cpu.process(false, None);
    assert_eq!(cpu.a, 0x0034);
    assert_ne!(cpu.status & CARRY, 0);
    assert_ne!(cpu.status & ZERO, 0);
}

#[test]
fn adc_to_memory_destination() {
    // ADC dst=abs, src=Imm, W=0: word 0x7001, immediate 0x0005, then
    // destination address 0x0030 holding 0x0010.
    let mut cpu = machine_with_program(&[0x01, 0x70, 0x05, 0x00, 0x30, 0x00]);
    cpu.memory_controller.write_16(0x0030, 0x0010);
    cpu.process(false, None);
    assert_eq!(cpu.memory_controller.read_16(0x0030), 0x0015);
    assert_eq!(cpu.program_counter, 0x8006);
}

#[test]
fn nop_advances_past_the_word_only() {
    // Operation code 0x03 is not assigned: NOP.
    let mut cpu = machine_with_program(&[0x03, 0x10, 0xEF, 0xBE]);
    cpu.process(false, None);
    assert_eq!(cpu.program_counter, 0x8002);
    assert_eq!(cpu.a, 0x0000);
    assert_eq!(cpu.status, 0x00);
}

#[test]
fn rst_instruction_acts_as_the_reset_pin() {
    // MOV imm into A, then RST: word 0x0031.
    let mut cpu = machine_with_program(&[0x00, 0x10, 0xEF, 0xBE, 0x31, 0x00]);
    cpu.memory_controller.write_8(0x0100, 0x42);
    cpu.process(false, None);
    assert_eq!(cpu.a, 0xBEEF);
    cpu.process(false, None);
    assert_eq!(cpu.a, 0x0000);
    assert_eq!(cpu.program_counter, 0x8000);
    assert_eq!(cpu.status, 0x00);
    assert!(cpu.enable);
    // The reset reached the devices: RAM is zero-filled again.
    assert_eq!(cpu.memory_controller.read_8(0x0100), 0x00);
}

#[test]
fn off_cpu_does_nothing() {
    let mut cpu = CPU::new();
    assert!(!cpu.enable);
    cpu.process(true, Some(3));
    assert_eq!(cpu.program_counter, 0x0000);
    assert_eq!(cpu.status, 0x00);
    assert!(!cpu.waiting_for_interrupt);
}

#[test]
fn nmi_wakes_a_waiting_cpu() {
    let mut cpu = machine_with_program(&[0x30, 0x00]);
    let rom = cpu.memory_controller.get_device_mut(1);
    // NMI vector at 0xFFFC names handler 0x9000.
    rom.poke_bytes(0x7FFC, &[0x00, 0x90]);
    cpu.waiting_for_interrupt = true;
    cpu.process(true, None);
    assert!(!cpu.waiting_for_interrupt);
    assert_eq!(cpu.program_counter, 0x9000);
    assert_ne!(cpu.status & INTERRUPT_DISABLE, 0);
}

#[test]
fn masked_irq_only_clears_the_wait_latch() {
    let mut cpu = machine_with_program(&[0x30, 0x00]);
    cpu.waiting_for_interrupt = true;
    cpu.status = INTERRUPT_DISABLE;
    cpu.process(false, Some(3));
    assert!(!cpu.waiting_for_interrupt);
    assert_eq!(cpu.program_counter, 0x8000);
}

#[test]
fn irq_vectors_through_the_handler_table() {
    let mut cpu = machine_with_program(&[0x30, 0x00]);
    let rom = cpu.memory_controller.get_device_mut(1);
    // IRQ table base pointer at 0xFFFA names 0x9100; entry 2 at 0x9104
    // names handler 0x9ABC.
    rom.poke_bytes(0x7FFA, &[0x00, 0x91]);
    rom.poke_bytes(0x1104, &[0xBC, 0x9A]);
    cpu.waiting_for_interrupt = true;
    cpu.process(false, Some(2));
    assert!(!cpu.waiting_for_interrupt);
    assert_eq!(cpu.program_counter, 0x9ABC);
    assert_ne!(cpu.status & INTERRUPT_DISABLE, 0);
}

#[test]
fn waiting_cpu_without_interrupt_stays_waiting() {
    let mut cpu = machine_with_program(&[0x30, 0x00]);
    cpu.waiting_for_interrupt = true;
    cpu.process(false, None);
    assert!(cpu.waiting_for_interrupt);
    assert_eq!(cpu.program_counter, 0x8000);
}

#[test]
fn new_cpu_is_off_and_zeroed() {
    let cpu = CPU::new();
    assert!(!cpu.enable);
    assert!(!cpu.waiting_for_interrupt);
    assert_eq!(cpu.program_counter, 0x0000);
    assert_eq!(cpu.stack_pointer, 0x0000);
    assert_eq!(cpu.index_x, 0x0000);
    assert_eq!(cpu.index_y, 0x0000);
    assert_eq!(cpu.status, 0x00);
    assert_eq!(cpu.a, 0x0000);
    assert_eq!(cpu.b, 0x0000);
    assert_eq!(cpu.c, 0x0000);
    assert_eq!(cpu.d, 0x0000);
}
