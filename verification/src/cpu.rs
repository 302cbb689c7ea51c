//! The CPU execution engine: registers, flags, fetch, operand resolution and
//! the operation semantics, all against the model in `step`.

use vstd::prelude::*;

use crate::arith::spec_adc16_status;
use crate::arith::spec_adc16_value;
use crate::arith::spec_adc8_status;
use crate::arith::spec_adc8_value;
use crate::arith::spec_sbc16_status;
use crate::arith::spec_sbc16_value;
use crate::arith::spec_sbc8_status;
use crate::arith::spec_sbc8_value;
use crate::decode::Location;
use crate::decode::Operation;
use crate::flags::flag_set;
use crate::flags::parity_even16;
use crate::flags::parity_even8;
use crate::flags::spec_set_flag;
use crate::flags::spec_set_szp16;
use crate::flags::spec_set_szp8;
use crate::flags::CARRY_FLAG;
use crate::flags::INTERRUPT_DISABLE_FLAG;
use crate::flags::OVERFLOW_FLAG;
use crate::flags::PARITY_FLAG;
use crate::flags::SIGN_FLAG;
use crate::flags::ZERO_FLAG;
use crate::memory::MappingView;
use crate::memory::MemoryController;
use crate::memory::MAP_BLOCKS;
use crate::step::is_memory_mode;
use crate::step::set_register_half;
use crate::step::spec_execute_adc16;
use crate::step::spec_execute_adc8;
use crate::step::spec_execute_mov16;
use crate::step::spec_execute_mov8;
use crate::step::spec_execute_sbc16;
use crate::step::spec_execute_sbc8;
use crate::step::spec_operand_address;
use crate::step::spec_reset;
use crate::step::spec_service_interrupts;
use crate::step::spec_source_value16;
use crate::step::spec_source_value8;
use crate::step::spec_step;
use crate::step::wrap_add;
use crate::step::CpuView;

verus! {

/// Width of the address bus in bits.
pub const ADDRESS_BUS_WIDTH: u32 = 16;

/// Where the program counter is latched from on reset (little-endian word).
pub const RESET_VECTOR: usize = 0xFFFE;

/// Where the program counter is latched from on a non-maskable interrupt.
pub const NMI_VECTOR: usize = 0xFFFC;

/// Where the base pointer of the IRQ handler table lives.
pub const IRQ_VECTOR: usize = 0xFFFA;

/// The processor: six 16-bit registers, a 16-bit program counter and stack
/// pointer, an 8-bit status register, two latches, and the bus it owns.
pub struct CPU {
    pub enable: bool,
    pub waiting_for_interrupt: bool,
    pub memory_controller: MemoryController,
    pub program_counter: u16,
    pub stack_pointer: u16,
    pub index_x: u16,
    pub index_y: u16,
    pub status: u8,
    pub a: u16,
    pub b: u16,
    pub c: u16,
    pub d: u16,
}

impl View for CPU {
    type V = CpuView;

    open spec fn view(&self) -> CpuView {
        CpuView {
            enable: self.enable,
            waiting_for_interrupt: self.waiting_for_interrupt,
            bus: self.memory_controller@,
            program_counter: self.program_counter,
            stack_pointer: self.stack_pointer,
            index_x: self.index_x,
            index_y: self.index_y,
            status: self.status,
            a: self.a,
            b: self.b,
            c: self.c,
            d: self.d,
        }
    }
}

impl CPU {
    /// The CPU is consistent when its memory controller is.
    pub open spec fn wf(&self) -> bool {
        self.memory_controller.wf()
    }

    /// A CPU constructed off, with zeroed registers and an empty bus.
    pub fn new() -> (r: CPU)
        ensures
            r.wf(),
            r@.enable == false,
            r@.waiting_for_interrupt == false,
            r@.program_counter == 0,
            r@.stack_pointer == 0,
            r@.index_x == 0,
            r@.index_y == 0,
            r@.status == 0,
            r@.a == 0,
            r@.b == 0,
            r@.c == 0,
            r@.d == 0,
            r@.bus.mappings == Seq::<MappingView>::empty(),
            r@.bus.blocks == Seq::new(MAP_BLOCKS as nat, |b: int| None::<int>),
    {
        CPU {
            enable: false,
            waiting_for_interrupt: false,
            memory_controller: MemoryController::new(),
            program_counter: 0x0000,
            stack_pointer: 0x0000,
            index_x: 0x0000,
            index_y: 0x0000,
            status: 0b0000_0000,
            a: 0x0000,
            b: 0x0000,
            c: 0x0000,
            d: 0x0000,
        }
    }

    /// Full reset, as the reset pin gives it: every mapped device is reset,
    /// the program counter is latched from the reset vector, every other
    /// register and both latches clear, and the CPU runs.
    pub fn reset(&mut self)
        requires
            old(self).wf(),
        ensures
            final(self).wf(),
            final(self)@ == spec_reset(old(self)@),
    {
        self.enable = true;
        self.waiting_for_interrupt = false;
        self.memory_controller.reset();
        self.program_counter = self.memory_controller.read_16(RESET_VECTOR);
        self.stack_pointer = 0x0000;
        self.index_x = 0x0000;
        self.index_y = 0x0000;
        self.status = 0b0000_0000;
        self.a = 0x0000;
        self.b = 0x0000;
        self.c = 0x0000;
        self.d = 0x0000;
        proof {
            assert(self@ =~~= spec_reset(old(self)@));
        }
    }

    /// One cycle: nothing while off; interrupt service while waiting; else
    /// fetch, decode and execute one instruction.
    pub fn process(&mut self, nmi: bool, irq: Option<u8>)
        requires
            old(self).wf(),
        ensures
            final(self).wf(),
            final(self)@ == spec_step(old(self)@, nmi, irq),
    {
        if !self.enable {
            return ;
        }
        if self.waiting_for_interrupt {
            if nmi {
                self.waiting_for_interrupt = false;
                self.set_interrupt_disable_flag(true);
                self.program_counter = self.memory_controller.read_16(NMI_VECTOR);
                proof {
                    assert(self@ =~~= spec_service_interrupts(old(self)@, nmi, irq));
                }
                return ;
            }
            match irq {
                Some(irq_code) => {
                    self.waiting_for_interrupt = false;
                    if self.get_interrupt_disable_flag() {
                        proof {
                            assert(self@ =~~= spec_service_interrupts(old(self)@, nmi, irq));
                        }
                        return ;
                    }
                    self.set_interrupt_disable_flag(true);
                    let table = self.memory_controller.read_16(IRQ_VECTOR);
                    let entry = table.wrapping_add((irq_code as u16) * 2);
                    self.program_counter = self.memory_controller.read_16(entry as usize);
                    proof {
                        assert(self@ =~~= spec_service_interrupts(old(self)@, nmi, irq));
                    }
                },
                None => (),
            }
            return ;
        }
        let instruction = self.fetch16();
        let operation = Operation::get_operation_from_instruction(instruction);
        let byte_mode = (instruction & 0x0040) != 0;
        let lo_hi = (instruction & 0x0080) != 0;
        let destination = Location::get_destination_from_instruction(instruction);
        let source = Location::get_source_from_instruction(instruction);
        match operation {
            Operation::Mov => {
                if byte_mode {
                    self.execute_mov8(lo_hi, destination, source);
                } else {
                    self.execute_mov16(destination, source);
                }
            },
            Operation::Adc => {
                if byte_mode {
                    self.execute_adc8(lo_hi, destination, source);
                } else {
                    self.execute_adc16(destination, source);
                }
            },
            Operation::Sbc => {
                if byte_mode {
                    self.execute_sbc8(lo_hi, destination, source);
                } else {
                    self.execute_sbc16(destination, source);
                }
            },
            Operation::Stp => {
                self.enable = false;
            },
            Operation::Rst => {
                self.reset();
            },
            Operation::Nop => (),
        }
        proof {
            assert(self@ =~~= spec_step(old(self)@, nmi, irq));
        }
    }

    /// Fetch the 16-bit word at the program counter and advance it by two.
    fn fetch16(&mut self) -> (r: u16)
        requires
            old(self).wf(),
        ensures
            final(self).wf(),
            r == old(self)@.bus.read_word(old(self)@.program_counter as int),
            final(self)@ == old(self)@.with_pc(wrap_add(old(self)@.program_counter, 2)),
    {
        let fetched_value = self.memory_controller.read_16(self.program_counter as usize);
        self.program_counter = self.program_counter.wrapping_add(2);
        proof {
            assert(self@ =~~= old(self)@.with_pc(wrap_add(old(self)@.program_counter, 2)));
        }
        fetched_value
    }

    /// Fetch the byte at the program counter and advance it by one.
    fn fetch8(&mut self) -> (r: u8)
        requires
            old(self).wf(),
        ensures
            final(self).wf(),
            r == old(self)@.bus.read_byte(old(self)@.program_counter as int),
            final(self)@ == old(self)@.with_pc(wrap_add(old(self)@.program_counter, 1)),
    {
        let fetched_value = self.memory_controller.read_8(self.program_counter as usize);
        self.program_counter = self.program_counter.wrapping_add(1);
        proof {
            assert(self@ =~~= old(self)@.with_pc(wrap_add(old(self)@.program_counter, 1)));
        }
        fetched_value
    }

    /// Absolute: the fetched word is the address.
    fn fetch_address(&mut self) -> (address: u16)
        requires
            old(self).wf(),
        ensures
            final(self).wf(),
            address == spec_operand_address(old(self)@, Location::Address).0,
            final(self)@ == old(self)@.with_pc(
                spec_operand_address(old(self)@, Location::Address).1,
            ),
    {
        self.fetch16()
    }

    /// Absolute indexed: the fetched word plus X.
    fn fetch_indexed_address(&mut self) -> (address: u16)
        requires
            old(self).wf(),
        ensures
            final(self).wf(),
            address == spec_operand_address(old(self)@, Location::IndexedAddress).0,
            final(self)@ == old(self)@.with_pc(
                spec_operand_address(old(self)@, Location::IndexedAddress).1,
            ),
    {
        let base = self.fetch16();
        base.wrapping_add(self.index_x)
    }

    /// Absolute indirect: the word the fetched word points at.
    fn fetch_indirect_address(&mut self) -> (address: u16)
        requires
            old(self).wf(),
        ensures
            final(self).wf(),
            address == spec_operand_address(old(self)@, Location::IndirectAddress).0,
            final(self)@ == old(self)@.with_pc(
                spec_operand_address(old(self)@, Location::IndirectAddress).1,
            ),
    {
        let indirect_address = self.fetch16();
        self.memory_controller.read_16(indirect_address as usize)
    }

    /// Indirect indexed: the pointed-at word plus X.
    fn fetch_indirect_indexed_address(&mut self) -> (address: u16)
        requires
            old(self).wf(),
        ensures
            final(self).wf(),
            address == spec_operand_address(old(self)@, Location::IndirectIndexedAddress).0,
            final(self)@ == old(self)@.with_pc(
                spec_operand_address(old(self)@, Location::IndirectIndexedAddress).1,
            ),
    {
        let indirect_address = self.fetch16();
        let pointed = self.memory_controller.read_16(indirect_address as usize);
        proof {
            assert(indirect_address == old(self)@.bus.read_word(old(self)@.program_counter as int));
            assert(pointed == old(self)@.bus.read_word(indirect_address as int));
        }
        pointed.wrapping_add(self.index_x)
    }

    /// Indexed indirect: the word that the fetched word plus X points at.
    fn fetch_indexed_indirect_address(&mut self) -> (address: u16)
        requires
            old(self).wf(),
        ensures
            final(self).wf(),
            address == spec_operand_address(old(self)@, Location::IndexedIndirectAddress).0,
            final(self)@ == old(self)@.with_pc(
                spec_operand_address(old(self)@, Location::IndexedIndirectAddress).1,
            ),
    {
        let base = self.fetch16();
        let indirect_address = base.wrapping_add(self.index_x);
        proof {
            assert(base == old(self)@.bus.read_word(old(self)@.program_counter as int));
            assert(indirect_address == wrap_add(base, old(self)@.index_x));
        }
        self.memory_controller.read_16(indirect_address as usize)
    }

    /// Pointer indexed: Y plus X.
    fn get_pointer_indexed_address(&self) -> (address: u16)
        requires
            self.wf(),
        ensures
            address == spec_operand_address(self@, Location::IndexedPointer).0,
    {
        self.index_y.wrapping_add(self.index_x)
    }

    /// Pointer indirect: the word Y points at.
    fn get_pointer_indirect_address(&self) -> (address: u16)
        requires
            self.wf(),
        ensures
            address == spec_operand_address(self@, Location::IndirectPointer).0,
    {
        self.memory_controller.read_16(self.index_y as usize)
    }

    /// Pointer indirect indexed: the word Y points at, plus X.
    fn get_pointer_indirect_indexed_address(&self) -> (address: u16)
        requires
            self.wf(),
        ensures
            address == spec_operand_address(self@, Location::IndirectIndexedPointer).0,
    {
        let pointed = self.memory_controller.read_16(self.index_y as usize);
        pointed.wrapping_add(self.index_x)
    }

    /// Pointer indexed indirect: the word that Y plus X points at.
    fn get_pointer_indexed_indirect_address(&self) -> (address: u16)
        requires
            self.wf(),
        ensures
            address == spec_operand_address(self@, Location::IndexedIndirectPointer).0,
    {
        let indirect_address = self.index_y.wrapping_add(self.index_x);
        self.memory_controller.read_16(indirect_address as usize)
    }

    /// The effective address of a memory-form destination or source,
    /// consuming whatever extra bytes the form requires.
    fn operand_address(&mut self, mode: Location) -> (address: u16)
        requires
            old(self).wf(),
            is_memory_mode(mode),
        ensures
            final(self).wf(),
            address == spec_operand_address(old(self)@, mode).0,
            final(self)@ == old(self)@.with_pc(spec_operand_address(old(self)@, mode).1),
    {
        let address = match mode {
            Location::Address => self.fetch_address(),
            Location::IndexedAddress => self.fetch_indexed_address(),
            Location::IndirectAddress => self.fetch_indirect_address(),
            Location::IndirectIndexedAddress => self.fetch_indirect_indexed_address(),
            Location::IndexedIndirectAddress => self.fetch_indexed_indirect_address(),
            Location::IndexedPointer => self.get_pointer_indexed_address(),
            Location::IndirectPointer => self.get_pointer_indirect_address(),
            Location::IndirectIndexedPointer => self.get_pointer_indirect_indexed_address(),
            Location::IndexedIndirectPointer => self.get_pointer_indexed_indirect_address(),
            _ => {
                proof {
                    assert(false);
                }
                0
            },
        };
        proof {
            assert(self@ =~~= old(self)@.with_pc(spec_operand_address(old(self)@, mode).1));
        }
        address
    }

    fn get_sign_flag(&self) -> (r: bool)
        ensures
            r == flag_set(self@.status, SIGN_FLAG),
    {
        self.status & SIGN_FLAG != 0
    }

    fn get_zero_flag(&self) -> (r: bool)
        ensures
            r == flag_set(self@.status, ZERO_FLAG),
    {
        self.status & ZERO_FLAG != 0
    }

    fn get_parity_flag(&self) -> (r: bool)
        ensures
            r == flag_set(self@.status, PARITY_FLAG),
    {
        self.status & PARITY_FLAG != 0
    }

    fn get_carry_flag(&self) -> (r: bool)
        ensures
            r == flag_set(self@.status, CARRY_FLAG),
    {
        self.status & CARRY_FLAG != 0
    }

    fn get_overflow_flag(&self) -> (r: bool)
        ensures
            r == flag_set(self@.status, OVERFLOW_FLAG),
    {
        self.status & OVERFLOW_FLAG != 0
    }

    fn get_interrupt_disable_flag(&self) -> (r: bool)
        ensures
            r == flag_set(self@.status, INTERRUPT_DISABLE_FLAG),
    {
        self.status & INTERRUPT_DISABLE_FLAG != 0
    }

    fn set_sign_flag(&mut self, flag: bool)
        ensures
            final(self)@ == old(self)@.with_status(
                spec_set_flag(old(self)@.status, SIGN_FLAG, flag),
            ),
    {
        if flag {
            self.status = self.status | SIGN_FLAG;
        } else {
            self.status = self.status & !SIGN_FLAG;
        }
        proof {
            assert(self@ =~~= old(self)@.with_status(
                spec_set_flag(old(self)@.status, SIGN_FLAG, flag),
            ));
        }
    }

    fn set_zero_flag(&mut self, flag: bool)
        ensures
            final(self)@ == old(self)@.with_status(
                spec_set_flag(old(self)@.status, ZERO_FLAG, flag),
            ),
    {
        if flag {
            self.status = self.status | ZERO_FLAG;
        } else {
            self.status = self.status & !ZERO_FLAG;
        }
        proof {
            assert(self@ =~~= old(self)@.with_status(
                spec_set_flag(old(self)@.status, ZERO_FLAG, flag),
            ));
        }
    }

    fn set_parity_flag(&mut self, flag: bool)
        ensures
            final(self)@ == old(self)@.with_status(
                spec_set_flag(old(self)@.status, PARITY_FLAG, flag),
            ),
    {
        if flag {
            self.status = self.status | PARITY_FLAG;
        } else {
            self.status = self.status & !PARITY_FLAG;
        }
        proof {
            assert(self@ =~~= old(self)@.with_status(
                spec_set_flag(old(self)@.status, PARITY_FLAG, flag),
            ));
        }
    }

    fn set_carry_flag(&mut self, flag: bool)
        ensures
            final(self)@ == old(self)@.with_status(
                spec_set_flag(old(self)@.status, CARRY_FLAG, flag),
            ),
    {
        if flag {
            self.status = self.status | CARRY_FLAG;
        } else {
            self.status = self.status & !CARRY_FLAG;
        }
        proof {
            assert(self@ =~~= old(self)@.with_status(
                spec_set_flag(old(self)@.status, CARRY_FLAG, flag),
            ));
        }
    }

    fn set_overflow_flag(&mut self, flag: bool)
        ensures
            final(self)@ == old(self)@.with_status(
                spec_set_flag(old(self)@.status, OVERFLOW_FLAG, flag),
            ),
    {
        if flag {
            self.status = self.status | OVERFLOW_FLAG;
        } else {
            self.status = self.status & !OVERFLOW_FLAG;
        }
        proof {
            assert(self@ =~~= old(self)@.with_status(
                spec_set_flag(old(self)@.status, OVERFLOW_FLAG, flag),
            ));
        }
    }

    fn set_interrupt_disable_flag(&mut self, flag: bool)
        ensures
            final(self)@ == old(self)@.with_status(
                spec_set_flag(old(self)@.status, INTERRUPT_DISABLE_FLAG, flag),
            ),
    {
        if flag {
            self.status = self.status | INTERRUPT_DISABLE_FLAG;
        } else {
            self.status = self.status & !INTERRUPT_DISABLE_FLAG;
        }
        proof {
            assert(self@ =~~= old(self)@.with_status(
                spec_set_flag(old(self)@.status, INTERRUPT_DISABLE_FLAG, flag),
            ));
        }
    }

    /// Set sign, zero and parity from a 16-bit result; carry and overflow
    /// keep their values. Sign comes from bit 7 of the value: the quirk is
    /// kept for compatibility with existing binaries.
    fn set_flags_from_value16(&mut self, value: u16)
        ensures
            final(self)@ == old(self)@.with_status(spec_set_szp16(old(self)@.status, value)),
    {
        self.set_sign_flag(value & 0x80 != 0);
        self.set_zero_flag(value == 0);
        let parity = parity_even16(value);
        self.set_parity_flag(parity);
        proof {
            assert(self@ =~~= old(self)@.with_status(spec_set_szp16(old(self)@.status, value)));
        }
    }

    /// Set sign, zero and parity from an 8-bit result; carry and overflow
    /// keep their values.
    fn set_flags_from_value8(&mut self, value: u8)
        ensures
            final(self)@ == old(self)@.with_status(spec_set_szp8(old(self)@.status, value)),
    {
        self.set_sign_flag(value & 0x80 != 0);
        self.set_zero_flag(value == 0);
        let parity = parity_even8(value);
        self.set_parity_flag(parity);
        proof {
            assert(self@ =~~= old(self)@.with_status(spec_set_szp8(old(self)@.status, value)));
        }
    }

    fn set_al(&mut self, value: u8)
        ensures
            final(self)@ == old(self)@.with_register(
                Location::A,
                set_register_half(old(self).a, false, value),
            ),
    {
        self.a = self.a / 256 * 256 + value as u16;
        proof {
            assert(self@ =~~= old(self)@.with_register(
                Location::A,
                set_register_half(old(self).a, false, value),
            ));
        }
    }

    fn set_ah(&mut self, value: u8)
        ensures
            final(self)@ == old(self)@.with_register(
                Location::A,
                set_register_half(old(self).a, true, value),
            ),
    {
        self.a = self.a % 256 + 256 * value as u16;
        proof {
            assert(self@ =~~= old(self)@.with_register(
                Location::A,
                set_register_half(old(self).a, true, value),
            ));
        }
    }

    fn set_bl(&mut self, value: u8)
        ensures
            final(self)@ == old(self)@.with_register(
                Location::B,
                set_register_half(old(self).b, false, value),
            ),
    {
        self.b = self.b / 256 * 256 + value as u16;
        proof {
            assert(self@ =~~= old(self)@.with_register(
                Location::B,
                set_register_half(old(self).b, false, value),
            ));
        }
    }

    fn set_bh(&mut self, value: u8)
        ensures
            final(self)@ == old(self)@.with_register(
                Location::B,
                set_register_half(old(self).b, true, value),
            ),
    {
        self.b = self.b % 256 + 256 * value as u16;
        proof {
            assert(self@ =~~= old(self)@.with_register(
                Location::B,
                set_register_half(old(self).b, true, value),
            ));
        }
    }

    fn set_cl(&mut self, value: u8)
        ensures
            final(self)@ == old(self)@.with_register(
                Location::C,
                set_register_half(old(self).c, false, value),
            ),
    {
        self.c = self.c / 256 * 256 + value as u16;
        proof {
            assert(self@ =~~= old(self)@.with_register(
                Location::C,
                set_register_half(old(self).c, false, value),
            ));
        }
    }

    fn set_ch(&mut self, value: u8)
        ensures
            final(self)@ == old(self)@.with_register(
                Location::C,
                set_register_half(old(self).c, true, value),
            ),
    {
        self.c = self.c % 256 + 256 * value as u16;
        proof {
            assert(self@ =~~= old(self)@.with_register(
                Location::C,
                set_register_half(old(self).c, true, value),
            ));
        }
    }

    fn set_dl(&mut self, value: u8)
        ensures
            final(self)@ == old(self)@.with_register(
                Location::D,
                set_register_half(old(self).d, false, value),
            ),
    {
        self.d = self.d / 256 * 256 + value as u16;
        proof {
            assert(self@ =~~= old(self)@.with_register(
                Location::D,
                set_register_half(old(self).d, false, value),
            ));
        }
    }

    fn set_dh(&mut self, value: u8)
        ensures
            final(self)@ == old(self)@.with_register(
                Location::D,
                set_register_half(old(self).d, true, value),
            ),
    {
        self.d = self.d % 256 + 256 * value as u16;
        proof {
            assert(self@ =~~= old(self)@.with_register(
                Location::D,
                set_register_half(old(self).d, true, value),
            ));
        }
    }

    fn set_idxl(&mut self, value: u8)
        ensures
            final(self)@ == old(self)@.with_register(
                Location::Idx,
                set_register_half(old(self).index_x, false, value),
            ),
    {
        self.index_x = self.index_x / 256 * 256 + value as u16;
        proof {
            assert(self@ =~~= old(self)@.with_register(
                Location::Idx,
                set_register_half(old(self).index_x, false, value),
            ));
        }
    }

    fn set_idxh(&mut self, value: u8)
        ensures
            final(self)@ == old(self)@.with_register(
                Location::Idx,
                set_register_half(old(self).index_x, true, value),
            ),
    {
        self.index_x = self.index_x % 256 + 256 * value as u16;
        proof {
            assert(self@ =~~= old(self)@.with_register(
                Location::Idx,
                set_register_half(old(self).index_x, true, value),
            ));
        }
    }

    fn set_idyl(&mut self, value: u8)
        ensures
            final(self)@ == old(self)@.with_register(
                Location::Idy,
                set_register_half(old(self).index_y, false, value),
            ),
    {
        self.index_y = self.index_y / 256 * 256 + value as u16;
        proof {
            assert(self@ =~~= old(self)@.with_register(
                Location::Idy,
                set_register_half(old(self).index_y, false, value),
            ));
        }
    }

    fn set_idyh(&mut self, value: u8)
        ensures
            final(self)@ == old(self)@.with_register(
                Location::Idy,
                set_register_half(old(self).index_y, true, value),
            ),
    {
        self.index_y = self.index_y % 256 + 256 * value as u16;
        proof {
            assert(self@ =~~= old(self)@.with_register(
                Location::Idy,
                set_register_half(old(self).index_y, true, value),
            ));
        }
    }

    /// 16-bit add with carry-in: returns the sum modulo 2^16 and sets sign,
    /// zero, parity, carry-out and signed overflow.
    fn add_with_carry16(&mut self, lhs: u16, rhs: u16, carry: bool) -> (r: u16)
        ensures
            r == spec_adc16_value(lhs, rhs, carry),
            final(self)@ == old(self)@.with_status(
                spec_adc16_status(old(self)@.status, lhs, rhs, carry),
            ),
    {
        let sum: u32 = lhs as u32 + rhs as u32 + if carry {
            1
        } else {
            0
        };
        let result = (sum % 0x10000) as u16;
        self.set_flags_from_value16(result);
        self.set_carry_flag(sum >= 0x10000);
        self.set_overflow_flag((lhs >= 0x8000) == (rhs >= 0x8000) && (lhs >= 0x8000) != (result
            >= 0x8000));
        proof {
            assert(self@ =~~= old(self)@.with_status(
                spec_adc16_status(old(self)@.status, lhs, rhs, carry),
            ));
        }
        result
    }

    /// 8-bit add with carry-in.
    fn add_with_carry8(&mut self, lhs: u8, rhs: u8, carry: bool) -> (r: u8)
        ensures
            r == spec_adc8_value(lhs, rhs, carry),
            final(self)@ == old(self)@.with_status(
                spec_adc8_status(old(self)@.status, lhs, rhs, carry),
            ),
    {
        let sum: u32 = lhs as u32 + rhs as u32 + if carry {
            1
        } else {
            0
        };
        let result = (sum % 0x100) as u8;
        self.set_flags_from_value8(result);
        self.set_carry_flag(sum >= 0x100);
        self.set_overflow_flag((lhs >= 0x80) == (rhs >= 0x80) && (lhs >= 0x80) != (result >= 0x80));
        proof {
            assert(self@ =~~= old(self)@.with_status(
                spec_adc8_status(old(self)@.status, lhs, rhs, carry),
            ));
        }
        result
    }

    /// 16-bit subtract with borrow (the negated carry flag): returns the
    /// difference modulo 2^16; carry is set to NOT borrow.
    fn subtract_with_carry16(&mut self, lhs: u16, rhs: u16, carry: bool) -> (r: u16)
        ensures
            r == spec_sbc16_value(lhs, rhs, carry),
            final(self)@ == old(self)@.with_status(
                spec_sbc16_status(old(self)@.status, lhs, rhs, carry),
            ),
    {
        let borrow: u32 = if carry {
            0
        } else {
            1
        };
        let total: u32 = lhs as u32 + 0x10000 - rhs as u32 - borrow;
        let result = (total % 0x10000) as u16;
        self.set_flags_from_value16(result);
        self.set_carry_flag(lhs as u32 >= rhs as u32 + borrow);
        self.set_overflow_flag((lhs >= 0x8000) == (rhs >= 0x8000) && (lhs >= 0x8000) != (result
            >= 0x8000));
        proof {
            assert(self@ =~~= old(self)@.with_status(
                spec_sbc16_status(old(self)@.status, lhs, rhs, carry),
            ));
        }
        result
    }

    /// 8-bit subtract with borrow.
    fn subtract_with_carry8(&mut self, lhs: u8, rhs: u8, carry: bool) -> (r: u8)
        ensures
            r == spec_sbc8_value(lhs, rhs, carry),
            final(self)@ == old(self)@.with_status(
                spec_sbc8_status(old(self)@.status, lhs, rhs, carry),
            ),
    {
        let borrow: u32 = if carry {
            0
        } else {
            1
        };
        let total: u32 = lhs as u32 + 0x100 - rhs as u32 - borrow;
        let result = (total % 0x100) as u8;
        self.set_flags_from_value8(result);
        self.set_carry_flag(lhs as u32 >= rhs as u32 + borrow);
        self.set_overflow_flag((lhs >= 0x80) == (rhs >= 0x80) && (lhs >= 0x80) != (result >= 0x80));
        proof {
            assert(self@ =~~= old(self)@.with_status(
                spec_sbc8_status(old(self)@.status, lhs, rhs, carry),
            ));
        }
        result
    }

    /// Resolve a 16-bit source operand, consuming whatever bytes its form
    /// requires.
    fn resolve_source16(&mut self, source: Location) -> (value: u16)
        requires
            old(self).wf(),
        ensures
            final(self).wf(),
            value == spec_source_value16(old(self)@, source).0,
            final(self)@ == old(self)@.with_pc(spec_source_value16(old(self)@, source).1),
    {
        let value = match source {
            Location::Immediate => self.fetch16(),
            Location::A => self.a,
            Location::B => self.b,
            Location::C => self.c,
            Location::D => self.d,
            Location::Idx => self.index_x,
            Location::Idy => self.index_y,
            _ => {
                let source_address = self.operand_address(source);
                self.memory_controller.read_16(source_address as usize)
            },
        };
        proof {
            assert(self@ =~~= old(self)@.with_pc(spec_source_value16(old(self)@, source).1));
        }
        value
    }

    /// Resolve an 8-bit source operand. A register source reads the half
    /// the half bit selects; a memory source ignores the half bit.
    fn resolve_source8(&mut self, lo_hi: bool, source: Location) -> (value: u8)
        requires
            old(self).wf(),
        ensures
            final(self).wf(),
            value == spec_source_value8(old(self)@, lo_hi, source).0,
            final(self)@ == old(self)@.with_pc(spec_source_value8(old(self)@, lo_hi, source).1),
    {
        let value = match source {
            Location::Immediate => self.fetch8(),
            Location::A => if lo_hi {
                (self.a / 256) as u8
            } else {
                (self.a % 256) as u8
            },
            Location::B => if lo_hi {
                (self.b / 256) as u8
            } else {
                (self.b % 256) as u8
            },
            Location::C => if lo_hi {
                (self.c / 256) as u8
            } else {
                (self.c % 256) as u8
            },
            Location::D => if lo_hi {
                (self.d / 256) as u8
            } else {
                (self.d % 256) as u8
            },
            Location::Idx => if lo_hi {
                (self.index_x / 256) as u8
            } else {
                (self.index_x % 256) as u8
            },
            Location::Idy => if lo_hi {
                (self.index_y / 256) as u8
            } else {
                (self.index_y % 256) as u8
            },
            _ => {
                let source_address = self.operand_address(source);
                self.memory_controller.read_8(source_address as usize)
            },
        };
        proof {
            assert(self@ =~~= old(self)@.with_pc(spec_source_value8(old(self)@, lo_hi, source).1));
        }
        value
    }

    /// One 16-bit MOV: flags from the source value, then the commit; an
    /// immediate destination discards the write.
    fn execute_mov16(&mut self, destination: Location, source: Location)
        requires
            old(self).wf(),
        ensures
            final(self).wf(),
            final(self)@ == spec_execute_mov16(old(self)@, destination, source),
    {
        let source_value = self.resolve_source16(source);
        self.set_flags_from_value16(source_value);
        match destination {
            Location::Immediate => (),
            Location::A => {
                self.a = source_value;
            },
            Location::B => {
                self.b = source_value;
            },
            Location::C => {
                self.c = source_value;
            },
            Location::D => {
                self.d = source_value;
            },
            Location::Idx => {
                self.index_x = source_value;
            },
            Location::Idy => {
                self.index_y = source_value;
            },
            _ => {
                let destination_address = self.operand_address(destination);
                self.memory_controller.write_16(destination_address as usize, source_value);
            },
        }
        proof {
            assert(self@ =~~= spec_execute_mov16(old(self)@, destination, source));
        }
    }

    /// One 8-bit MOV over the selected register halves.
    fn execute_mov8(&mut self, lo_hi: bool, destination: Location, source: Location)
        requires
            old(self).wf(),
        ensures
            final(self).wf(),
            final(self)@ == spec_execute_mov8(old(self)@, lo_hi, destination, source),
    {
        let source_value = self.resolve_source8(lo_hi, source);
        self.set_flags_from_value8(source_value);
        match destination {
            Location::Immediate => (),
            Location::A => {
                if lo_hi {
                    self.set_ah(source_value);
                } else {
                    self.set_al(source_value);
                }
            },
            Location::B => {
                if lo_hi {
                    self.set_bh(source_value);
                } else {
                    self.set_bl(source_value);
                }
            },
            Location::C => {
                if lo_hi {
                    self.set_ch(source_value);
                } else {
                    self.set_cl(source_value);
                }
            },
            Location::D => {
                if lo_hi {
                    self.set_dh(source_value);
                } else {
                    self.set_dl(source_value);
                }
            },
            Location::Idx => {
                if lo_hi {
                    self.set_idxh(source_value);
                } else {
                    self.set_idxl(source_value);
                }
            },
            Location::Idy => {
                if lo_hi {
                    self.set_idyh(source_value);
                } else {
                    self.set_idyl(source_value);
                }
            },
            _ => {
                let destination_address = self.operand_address(destination);
                self.memory_controller.write_8(destination_address as usize, source_value);
            },
        }
        proof {
            assert(self@ =~~= spec_execute_mov8(old(self)@, lo_hi, destination, source));
        }
    }

    /// One 16-bit ADC: destination plus source plus carry; an immediate
    /// destination resolves the source and leaves the flags alone.
    fn execute_adc16(&mut self, destination: Location, source: Location)
        requires
            old(self).wf(),
        ensures
            final(self).wf(),
            final(self)@ == spec_execute_adc16(old(self)@, destination, source),
    {
        let source_value = self.resolve_source16(source);
        match destination {
            Location::Immediate => (),
            Location::A => {
                let carry = self.get_carry_flag();
                let result = self.add_with_carry16(self.a, source_value, carry);
                self.a = result;
            },
            Location::B => {
                let carry = self.get_carry_flag();
                let result = self.add_with_carry16(self.b, source_value, carry);
                self.b = result;
            },
            Location::C => {
                let carry = self.get_carry_flag();
                let result = self.add_with_carry16(self.c, source_value, carry);
                self.c = result;
            },
            Location::D => {
                let carry = self.get_carry_flag();
                let result = self.add_with_carry16(self.d, source_value, carry);
                self.d = result;
            },
            Location::Idx => {
                let carry = self.get_carry_flag();
                let result = self.add_with_carry16(self.index_x, source_value, carry);
                self.index_x = result;
            },
            Location::Idy => {
                let carry = self.get_carry_flag();
                let result = self.add_with_carry16(self.index_y, source_value, carry);
                self.index_y = result;
            },
            _ => {
                let destination_address = self.operand_address(destination);
                let current = self.memory_controller.read_16(destination_address as usize);
                let carry = self.get_carry_flag();
                let result = self.add_with_carry16(current, source_value, carry);
                self.memory_controller.write_16(destination_address as usize, result);
            },
        }
        proof {
            assert(self@ =~~= spec_execute_adc16(old(self)@, destination, source));
        }
    }

    /// One 8-bit ADC over the selected register halves.
    fn execute_adc8(&mut self, lo_hi: bool, destination: Location, source: Location)
        requires
            old(self).wf(),
        ensures
            final(self).wf(),
            final(self)@ == spec_execute_adc8(old(self)@, lo_hi, destination, source),
    {
        let source_value = self.resolve_source8(lo_hi, source);
        match destination {
            Location::Immediate => (),
            Location::A => {
                let current = if lo_hi {
                    (self.a / 256) as u8
                } else {
                    (self.a % 256) as u8
                };
                let carry = self.get_carry_flag();
                let result = self.add_with_carry8(current, source_value, carry);
                if lo_hi {
                    self.set_ah(result);
                } else {
                    self.set_al(result);
                }
            },
            Location::B => {
                let current = if lo_hi {
                    (self.b / 256) as u8
                } else {
                    (self.b % 256) as u8
                };
                let carry = self.get_carry_flag();
                let result = self.add_with_carry8(current, source_value, carry);
                if lo_hi {
                    self.set_bh(result);
                } else {
                    self.set_bl(result);
                }
            },
            Location::C => {
                let current = if lo_hi {
                    (self.c / 256) as u8
                } else {
                    (self.c % 256) as u8
                };
                let carry = self.get_carry_flag();
                let result = self.add_with_carry8(current, source_value, carry);
                if lo_hi {
                    self.set_ch(result);
                } else {
                    self.set_cl(result);
                }
            },
            Location::D => {
                let current = if lo_hi {
                    (self.d / 256) as u8
                } else {
                    (self.d % 256) as u8
                };
                let carry = self.get_carry_flag();
                let result = self.add_with_carry8(current, source_value, carry);
                if lo_hi {
                    self.set_dh(result);
                } else {
                    self.set_dl(result);
                }
            },
            Location::Idx => {
                let current = if lo_hi {
                    (self.index_x / 256) as u8
                } else {
                    (self.index_x % 256) as u8
                };
                let carry = self.get_carry_flag();
                let result = self.add_with_carry8(current, source_value, carry);
                if lo_hi {
                    self.set_idxh(result);
                } else {
                    self.set_idxl(result);
                }
            },
            Location::Idy => {
                let current = if lo_hi {
                    (self.index_y / 256) as u8
                } else {
                    (self.index_y % 256) as u8
                };
                let carry = self.get_carry_flag();
                let result = self.add_with_carry8(current, source_value, carry);
                if lo_hi {
                    self.set_idyh(result);
                } else {
                    self.set_idyl(result);
                }
            },
            _ => {
                let destination_address = self.operand_address(destination);
                let current = self.memory_controller.read_8(destination_address as usize);
                let carry = self.get_carry_flag();
                let result = self.add_with_carry8(current, source_value, carry);
                self.memory_controller.write_8(destination_address as usize, result);
            },
        }
        proof {
            assert(self@ =~~= spec_execute_adc8(old(self)@, lo_hi, destination, source));
        }
    }

    /// One 16-bit SBC: destination minus source minus borrow; carry becomes
    /// NOT borrow.
    fn execute_sbc16(&mut self, destination: Location, source: Location)
        requires
            old(self).wf(),
        ensures
            final(self).wf(),
            final(self)@ == spec_execute_sbc16(old(self)@, destination, source),
    {
        let source_value = self.resolve_source16(source);
        match destination {
            Location::Immediate => (),
            Location::A => {
                let carry = self.get_carry_flag();
                let result = self.subtract_with_carry16(self.a, source_value, carry);
                self.a = result;
            },
            Location::B => {
                let carry = self.get_carry_flag();
                let result = self.subtract_with_carry16(self.b, source_value, carry);
                self.b = result;
            },
            Location::C => {
                let carry = self.get_carry_flag();
                let result = self.subtract_with_carry16(self.c, source_value, carry);
                self.c = result;
            },
            Location::D => {
                let carry = self.get_carry_flag();
                let result = self.subtract_with_carry16(self.d, source_value, carry);
                self.d = result;
            },
            Location::Idx => {
                let carry = self.get_carry_flag();
                let result = self.subtract_with_carry16(self.index_x, source_value, carry);
                self.index_x = result;
            },
            Location::Idy => {
                let carry = self.get_carry_flag();
                let result = self.subtract_with_carry16(self.index_y, source_value, carry);
                self.index_y = result;
            },
            _ => {
                let destination_address = self.operand_address(destination);
                let current = self.memory_controller.read_16(destination_address as usize);
                let carry = self.get_carry_flag();
                let result = self.subtract_with_carry16(current, source_value, carry);
                self.memory_controller.write_16(destination_address as usize, result);
            },
        }
        proof {
            assert(self@ =~~= spec_execute_sbc16(old(self)@, destination, source));
        }
    }

    /// One 8-bit SBC over the selected register halves.
    fn execute_sbc8(&mut self, lo_hi: bool, destination: Location, source: Location)
        requires
            old(self).wf(),
        ensures
            final(self).wf(),
            final(self)@ == spec_execute_sbc8(old(self)@, lo_hi, destination, source),
    {
        let source_value = self.resolve_source8(lo_hi, source);
        match destination {
            Location::Immediate => (),
            Location::A => {
                let current = if lo_hi {
                    (self.a / 256) as u8
                } else {
                    (self.a % 256) as u8
                };
                let carry = self.get_carry_flag();
                let result = self.subtract_with_carry8(current, source_value, carry);
                if lo_hi {
                    self.set_ah(result);
                } else {
                    self.set_al(result);
                }
            },
            Location::B => {
                let current = if lo_hi {
                    (self.b / 256) as u8
                } else {
                    (self.b % 256) as u8
                };
                let carry = self.get_carry_flag();
                let result = self.subtract_with_carry8(current, source_value, carry);
                if lo_hi {
                    self.set_bh(result);
                } else {
                    self.set_bl(result);
                }
            },
            Location::C => {
                let current = if lo_hi {
                    (self.c / 256) as u8
                } else {
                    (self.c % 256) as u8
                };
                let carry = self.get_carry_flag();
                let result = self.subtract_with_carry8(current, source_value, carry);
                if lo_hi {
                    self.set_ch(result);
                } else {
                    self.set_cl(result);
                }
            },
            Location::D => {
                let current = if lo_hi {
                    (self.d / 256) as u8
                } else {
                    (self.d % 256) as u8
                };
                let carry = self.get_carry_flag();
                let result = self.subtract_with_carry8(current, source_value, carry);
                if lo_hi {
                    self.set_dh(result);
                } else {
                    self.set_dl(result);
                }
            },
            Location::Idx => {
                let current = if lo_hi {
                    (self.index_x / 256) as u8
                } else {
                    (self.index_x % 256) as u8
                };
                let carry = self.get_carry_flag();
                let result = self.subtract_with_carry8(current, source_value, carry);
                if lo_hi {
                    self.set_idxh(result);
                } else {
                    self.set_idxl(result);
                }
            },
            Location::Idy => {
                let current = if lo_hi {
                    (self.index_y / 256) as u8
                } else {
                    (self.index_y % 256) as u8
                };
                let carry = self.get_carry_flag();
                let result = self.subtract_with_carry8(current, source_value, carry);
                if lo_hi {
                    self.set_idyh(result);
                } else {
                    self.set_idyl(result);
                }
            },
            _ => {
                let destination_address = self.operand_address(destination);
                let current = self.memory_controller.read_8(destination_address as usize);
                let carry = self.get_carry_flag();
                let result = self.subtract_with_carry8(current, source_value, carry);
                self.memory_controller.write_8(destination_address as usize, result);
            },
        }
        proof {
            assert(self@ =~~= spec_execute_sbc8(old(self)@, lo_hi, destination, source));
        }
    }
}

} // verus!
