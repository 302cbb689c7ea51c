//! The mathematical model of the machine: the state the CPU and bus together
//! hold, and what one `process` call does to it — fetch, decode, operand
//! resolution, operation semantics and interrupt handling.

use vstd::prelude::*;

use crate::arith::spec_adc16_status;
use crate::arith::spec_adc16_value;
use crate::arith::spec_adc8_status;
use crate::arith::spec_adc8_value;
use crate::arith::spec_sbc16_status;
use crate::arith::spec_sbc16_value;
use crate::arith::spec_sbc8_status;
use crate::arith::spec_sbc8_value;
use crate::cpu::IRQ_VECTOR;
use crate::device::device_reset;
use crate::cpu::NMI_VECTOR;
use crate::cpu::RESET_VECTOR;
use crate::decode::spec_byte_mode;
use crate::decode::spec_destination;
use crate::decode::spec_lo_hi;
use crate::decode::spec_operation;
use crate::decode::spec_source;
use crate::decode::Location;
use crate::decode::Operation;
use crate::flags::flag_set;
use crate::flags::spec_set_flag;
use crate::flags::spec_set_szp16;
use crate::flags::spec_set_szp8;
use crate::flags::CARRY_FLAG;
use crate::flags::INTERRUPT_DISABLE_FLAG;
use crate::memory::BusView;

verus! {

/// The mathematical image of the whole machine: every register, the two
/// latches, and the bus.
#[verifier::ext_equal]
pub struct CpuView {
    pub enable: bool,
    pub waiting_for_interrupt: bool,
    pub bus: BusView,
    pub program_counter: u16,
    pub stack_pointer: u16,
    pub index_x: u16,
    pub index_y: u16,
    pub status: u8,
    pub a: u16,
    pub b: u16,
    pub c: u16,
    pub d: u16,
}

/// 16-bit address arithmetic: every sum wraps modulo 2^16.
pub open spec fn wrap_add(lhs: u16, rhs: u16) -> u16 {
    (((lhs + rhs) % 0x10000) as u16)
}

/// The low or high byte of a register, selected by the half bit.
pub open spec fn register_half(value: u16, high: bool) -> u8 {
    if high {
        ((value / 256) as u8)
    } else {
        ((value % 256) as u8)
    }
}

/// A register with its low or high byte replaced, the other half kept.
pub open spec fn set_register_half(value: u16, high: bool, byte: u8) -> u16 {
    if high {
        ((value % 256 + 256 * byte) as u16)
    } else {
        ((value / 256 * 256 + byte) as u16)
    }
}

impl CpuView {
    /// The machine is consistent when its bus is.
    pub open spec fn wf(self) -> bool {
        self.bus.wf()
    }

    /// The same machine at another program counter.
    pub open spec fn with_pc(self, program_counter: u16) -> CpuView {
        CpuView { program_counter, ..self }
    }

    /// The same machine with another status register.
    pub open spec fn with_status(self, status: u8) -> CpuView {
        CpuView { status, ..self }
    }

    /// The same machine over another bus state.
    pub open spec fn with_bus(self, bus: BusView) -> CpuView {
        CpuView { bus, ..self }
    }

    /// The same machine halted or released.
    pub open spec fn with_enable(self, enable: bool) -> CpuView {
        CpuView { enable, ..self }
    }

    /// The same machine with the wait latch set or cleared.
    pub open spec fn with_waiting(self, waiting_for_interrupt: bool) -> CpuView {
        CpuView { waiting_for_interrupt, ..self }
    }

    /// The register a register location names.
    pub open spec fn read_register(self, register: Location) -> u16 {
        match register {
            Location::A => self.a,
            Location::B => self.b,
            Location::C => self.c,
            Location::D => self.d,
            Location::Idx => self.index_x,
            Location::Idy => self.index_y,
            _ => 0,
        }
    }

    /// The same machine with the named register replaced.
    pub open spec fn with_register(self, register: Location, value: u16) -> CpuView {
        match register {
            Location::A => CpuView { a: value, ..self },
            Location::B => CpuView { b: value, ..self },
            Location::C => CpuView { c: value, ..self },
            Location::D => CpuView { d: value, ..self },
            Location::Idx => CpuView { index_x: value, ..self },
            Location::Idy => CpuView { index_y: value, ..self },
            _ => self,
        }
    }
}

/// Whether a location is one of the six registers.
pub open spec fn is_register_mode(mode: Location) -> bool {
    match mode {
        Location::A | Location::B | Location::C | Location::D | Location::Idx
            | Location::Idy => true,
        _ => false,
    }
}

/// Whether a location is one of the ten memory forms.
pub open spec fn is_memory_mode(mode: Location) -> bool {
    match mode {
        Location::Address | Location::IndexedAddress | Location::IndirectAddress
            | Location::IndirectIndexedAddress | Location::IndexedIndirectAddress
            | Location::IndexedPointer | Location::IndirectPointer
            | Location::IndirectIndexedPointer | Location::IndexedIndirectPointer => true,
        _ => false,
    }
}

/// The effective address of a memory-form operand, and the program counter
/// after the extra bytes the form consumes. Address arithmetic wraps.
pub open spec fn spec_operand_address(s: CpuView, mode: Location) -> (u16, u16) {
    match mode {
        Location::Address => (
            s.bus.read_word(s.program_counter as int),
            wrap_add(s.program_counter, 2),
        ),
        Location::IndexedAddress => (
            wrap_add(s.bus.read_word(s.program_counter as int), s.index_x),
            wrap_add(s.program_counter, 2),
        ),
        Location::IndirectAddress => (
            s.bus.read_word(s.bus.read_word(s.program_counter as int) as int),
            wrap_add(s.program_counter, 2),
        ),
        Location::IndirectIndexedAddress => (
            wrap_add(s.bus.read_word(s.bus.read_word(s.program_counter as int) as int), s.index_x),
            wrap_add(s.program_counter, 2),
        ),
        Location::IndexedIndirectAddress => (
            s.bus.read_word(wrap_add(s.bus.read_word(s.program_counter as int), s.index_x) as int),
            wrap_add(s.program_counter, 2),
        ),
        Location::IndexedPointer => (wrap_add(s.index_y, s.index_x), s.program_counter),
        Location::IndirectPointer => (s.bus.read_word(s.index_y as int), s.program_counter),
        Location::IndirectIndexedPointer => (
            wrap_add(s.bus.read_word(s.index_y as int), s.index_x),
            s.program_counter,
        ),
        Location::IndexedIndirectPointer => (
            s.bus.read_word(wrap_add(s.index_y, s.index_x) as int),
            s.program_counter,
        ),
        _ => (0, s.program_counter),
    }
}

/// The 16-bit source operand and the program counter after resolving it.
pub open spec fn spec_source_value16(s: CpuView, source: Location) -> (u16, u16) {
    if source == Location::Immediate {
        (s.bus.read_word(s.program_counter as int), wrap_add(s.program_counter, 2))
    } else if is_register_mode(source) {
        (s.read_register(source), s.program_counter)
    } else {
        let (address, pc) = spec_operand_address(s, source);
        (s.bus.read_word(address as int), pc)
    }
}

/// The 8-bit source operand and the program counter after resolving it. A
/// register source reads the half the half bit selects; a memory source
/// ignores the half bit, its byte address being exact.
pub open spec fn spec_source_value8(s: CpuView, lo_hi: bool, source: Location) -> (u8, u16) {
    if source == Location::Immediate {
        (s.bus.read_byte(s.program_counter as int), wrap_add(s.program_counter, 1))
    } else if is_register_mode(source) {
        (register_half(s.read_register(source), lo_hi), s.program_counter)
    } else {
        let (address, pc) = spec_operand_address(s, source);
        (s.bus.read_byte(address as int), pc)
    }
}

/// One 16-bit MOV: resolve the source, set sign, zero and parity from it,
/// then commit it to the destination. An immediate destination discards the
/// write; the flags are still set.
pub open spec fn spec_execute_mov16(s: CpuView, destination: Location, source: Location) -> CpuView {
    let (value, pc1) = spec_source_value16(s, source);
    let s1 = s.with_pc(pc1).with_status(spec_set_szp16(s.status, value));
    if destination == Location::Immediate {
        s1
    } else if is_register_mode(destination) {
        s1.with_register(destination, value)
    } else {
        let (address, pc2) = spec_operand_address(s1, destination);
        s1.with_pc(pc2).with_bus(s1.bus.write_word(address as int, value))
    }
}

/// One 8-bit MOV: as the 16-bit form, over the selected register halves.
pub open spec fn spec_execute_mov8(
    s: CpuView,
    lo_hi: bool,
    destination: Location,
    source: Location,
) -> CpuView {
    let (value, pc1) = spec_source_value8(s, lo_hi, source);
    let s1 = s.with_pc(pc1).with_status(spec_set_szp8(s.status, value));
    if destination == Location::Immediate {
        s1
    } else if is_register_mode(destination) {
        s1.with_register(
            destination,
            set_register_half(s1.read_register(destination), lo_hi, value),
        )
    } else {
        let (address, pc2) = spec_operand_address(s1, destination);
        s1.with_pc(pc2).with_bus(s1.bus.write_byte(address as int, value))
    }
}

/// One 16-bit ADC: the destination's current value plus the source plus the
/// carry flag. An immediate destination resolves the source and stops: no
/// write, no flags.
pub open spec fn spec_execute_adc16(s: CpuView, destination: Location, source: Location) -> CpuView {
    let (value, pc1) = spec_source_value16(s, source);
    let s1 = s.with_pc(pc1);
    let carry = flag_set(s.status, CARRY_FLAG);
    if destination == Location::Immediate {
        s1
    } else if is_register_mode(destination) {
        let lhs = s1.read_register(destination);
        s1.with_status(spec_adc16_status(s1.status, lhs, value, carry)).with_register(
            destination,
            spec_adc16_value(lhs, value, carry),
        )
    } else {
        let (address, pc2) = spec_operand_address(s1, destination);
        let lhs = s1.bus.read_word(address as int);
        s1.with_pc(pc2).with_status(spec_adc16_status(s1.status, lhs, value, carry)).with_bus(
            s1.bus.write_word(address as int, spec_adc16_value(lhs, value, carry)),
        )
    }
}

/// One 8-bit ADC over the selected register halves.
pub open spec fn spec_execute_adc8(
    s: CpuView,
    lo_hi: bool,
    destination: Location,
    source: Location,
) -> CpuView {
    let (value, pc1) = spec_source_value8(s, lo_hi, source);
    let s1 = s.with_pc(pc1);
    let carry = flag_set(s.status, CARRY_FLAG);
    if destination == Location::Immediate {
        s1
    } else if is_register_mode(destination) {
        let lhs = register_half(s1.read_register(destination), lo_hi);
        s1.with_status(spec_adc8_status(s1.status, lhs, value, carry)).with_register(
            destination,
            set_register_half(
                s1.read_register(destination),
                lo_hi,
                spec_adc8_value(lhs, value, carry),
            ),
        )
    } else {
        let (address, pc2) = spec_operand_address(s1, destination);
        let lhs = s1.bus.read_byte(address as int);
        s1.with_pc(pc2).with_status(spec_adc8_status(s1.status, lhs, value, carry)).with_bus(
            s1.bus.write_byte(address as int, spec_adc8_value(lhs, value, carry)),
        )
    }
}

/// One 16-bit SBC: the destination's current value minus the source minus
/// the borrow (the negation of the carry flag).
pub open spec fn spec_execute_sbc16(s: CpuView, destination: Location, source: Location) -> CpuView {
    let (value, pc1) = spec_source_value16(s, source);
    let s1 = s.with_pc(pc1);
    let carry = flag_set(s.status, CARRY_FLAG);
    if destination == Location::Immediate {
        s1
    } else if is_register_mode(destination) {
        let lhs = s1.read_register(destination);
        s1.with_status(spec_sbc16_status(s1.status, lhs, value, carry)).with_register(
            destination,
            spec_sbc16_value(lhs, value, carry),
        )
    } else {
        let (address, pc2) = spec_operand_address(s1, destination);
        let lhs = s1.bus.read_word(address as int);
        s1.with_pc(pc2).with_status(spec_sbc16_status(s1.status, lhs, value, carry)).with_bus(
            s1.bus.write_word(address as int, spec_sbc16_value(lhs, value, carry)),
        )
    }
}

/// One 8-bit SBC over the selected register halves.
pub open spec fn spec_execute_sbc8(
    s: CpuView,
    lo_hi: bool,
    destination: Location,
    source: Location,
) -> CpuView {
    let (value, pc1) = spec_source_value8(s, lo_hi, source);
    let s1 = s.with_pc(pc1);
    let carry = flag_set(s.status, CARRY_FLAG);
    if destination == Location::Immediate {
        s1
    } else if is_register_mode(destination) {
        let lhs = register_half(s1.read_register(destination), lo_hi);
        s1.with_status(spec_sbc8_status(s1.status, lhs, value, carry)).with_register(
            destination,
            set_register_half(
                s1.read_register(destination),
                lo_hi,
                spec_sbc8_value(lhs, value, carry),
            ),
        )
    } else {
        let (address, pc2) = spec_operand_address(s1, destination);
        let lhs = s1.bus.read_byte(address as int);
        s1.with_pc(pc2).with_status(spec_sbc8_status(s1.status, lhs, value, carry)).with_bus(
            s1.bus.write_byte(address as int, spec_sbc8_value(lhs, value, carry)),
        )
    }
}

/// A full reset, as the reset pin gives it: every mapped device reset, the
/// program counter latched from the reset vector of the reset bus, every
/// other register and both latches cleared, the CPU running.
pub open spec fn spec_reset(s: CpuView) -> CpuView {
    let bus = s.bus.reset();
    CpuView {
        enable: true,
        waiting_for_interrupt: false,
        bus,
        program_counter: bus.read_word(RESET_VECTOR as int),
        stack_pointer: 0,
        index_x: 0,
        index_y: 0,
        status: 0,
        a: 0,
        b: 0,
        c: 0,
        d: 0,
    }
}

/// What a `process` call does while the CPU waits for an interrupt. An NMI
/// always wakes it, masks IRQs and vectors. An IRQ clears the wait latch
/// even when masked; unmasked, it masks further IRQs and vectors through the
/// handler table.
pub open spec fn spec_service_interrupts(s: CpuView, nmi: bool, irq: Option<u8>) -> CpuView {
    if nmi {
        CpuView {
            waiting_for_interrupt: false,
            status: spec_set_flag(s.status, INTERRUPT_DISABLE_FLAG, true),
            program_counter: s.bus.read_word(NMI_VECTOR as int),
            ..s
        }
    } else {
        match irq {
            Some(irq_code) => {
                if flag_set(s.status, INTERRUPT_DISABLE_FLAG) {
                    s.with_waiting(false)
                } else {
                    CpuView {
                        waiting_for_interrupt: false,
                        status: spec_set_flag(s.status, INTERRUPT_DISABLE_FLAG, true),
                        program_counter: s.bus.read_word(
                            wrap_add(
                                s.bus.read_word(IRQ_VECTOR as int),
                                (((irq_code as u16) * 2) as u16),
                            ) as int,
                        ),
                        ..s
                    }
                }
            },
            None => s,
        }
    }
}

/// One `process(nmi, irq)` call. Off: nothing. Waiting: interrupt service.
/// Running: fetch the word at the program counter, advance it past the word,
/// and apply the decoded operation; unknown codes are a NOP.
pub open spec fn spec_step(s: CpuView, nmi: bool, irq: Option<u8>) -> CpuView {
    if !s.enable {
        s
    } else if s.waiting_for_interrupt {
        spec_service_interrupts(s, nmi, irq)
    } else {
        let instruction = s.bus.read_word(s.program_counter as int);
        let s1 = s.with_pc(wrap_add(s.program_counter, 2));
        let byte_mode = spec_byte_mode(instruction);
        let lo_hi = spec_lo_hi(instruction);
        let destination = spec_destination(instruction);
        let source = spec_source(instruction);
        match spec_operation(instruction) {
            Operation::Mov => if byte_mode {
                spec_execute_mov8(s1, lo_hi, destination, source)
            } else {
                spec_execute_mov16(s1, destination, source)
            },
            Operation::Adc => if byte_mode {
                spec_execute_adc8(s1, lo_hi, destination, source)
            } else {
                spec_execute_adc16(s1, destination, source)
            },
            Operation::Sbc => if byte_mode {
                spec_execute_sbc8(s1, lo_hi, destination, source)
            } else {
                spec_execute_sbc16(s1, destination, source)
            },
            Operation::Stp => s1.with_enable(false),
            Operation::Rst => spec_reset(s1),
            Operation::Nop => s1,
        }
    }
}

/// What reset leaves behind: the program counter holds the little-endian
/// word at the reset vector of the reset bus, every other register and both
/// latches are zero, the CPU runs, the block table is untouched, and every
/// mapped device has been reset exactly once — volatile stores zero-filled,
/// write-protected ones keeping their bytes.
pub proof fn lemma_reset_properties(s: CpuView)
    ensures
        spec_reset(s).enable,
        !spec_reset(s).waiting_for_interrupt,
        spec_reset(s).program_counter == spec_reset(s).bus.read_word(RESET_VECTOR as int),
        spec_reset(s).stack_pointer == 0,
        spec_reset(s).index_x == 0,
        spec_reset(s).index_y == 0,
        spec_reset(s).status == 0,
        spec_reset(s).a == 0,
        spec_reset(s).b == 0,
        spec_reset(s).c == 0,
        spec_reset(s).d == 0,
        spec_reset(s).bus.blocks == s.bus.blocks,
        spec_reset(s).bus.mappings.len() == s.bus.mappings.len(),
        forall|i: int|
            0 <= i < s.bus.mappings.len() ==> (#[trigger] spec_reset(s).bus.mappings[i]) == (
            crate::memory::MappingView {
                offset: s.bus.mappings[i].offset,
                dev: device_reset(s.bus.mappings[i].dev),
            }),
{
}

} // verus!
