//! The executable processor: registers, status word, program counter and
//! memory, together with the fetch-decode-execute loop.
//!
//! Every method is specified against the pure model in [`crate::machine`]:
//! the view of a [`CPU`] is a [`Machine`], and each mutation is proved
//! equal to the corresponding model transition.

use vstd::prelude::*;

use crate::flags::{flag_set, update_zn, with_flag, without_flag, CpuFlags, RESET_STATUS};
use crate::machine::{
    halts_at, halt_state, halts_now, lemma_opcode_table_consistent, lemma_split16,
    lemma_word_parts, machine_wf, mode_is_resolvable, mode_resolves_to_address, operand_addr,
    operand_value, read8, read16, run_n, spec_and, spec_asl, spec_bit, spec_branch, spec_brk,
    spec_compare, spec_dec, spec_dex, spec_dey, spec_eor, spec_inc, spec_inx, spec_iny, spec_lda,
    spec_ldx, spec_ldy, spec_load, spec_reset, spec_resolve, spec_sta, spec_step, spec_tax,
    spec_tay, Machine, ResolvedOperand, LOAD_ORIGIN, MEM_SIZE, RESET_VECTOR,
};
use crate::opcode::{AddressingMode, EmmulationHelpers, OpCodeCat};

verus! {

/// The processor state: three 8-bit registers, the status word, the
/// 16-bit program counter, and the byte-addressable memory it owns.
pub struct CPU {
    pub register_a: u8,
    pub register_x: u8,
    pub register_y: u8,
    pub status: u8,
    pub program_counter: u16,
    memory: Vec<u8>,
}

impl View for CPU {
    type V = Machine;

    closed spec fn view(&self) -> Machine {
        Machine {
            a: self.register_a,
            x: self.register_x,
            y: self.register_y,
            status: self.status,
            pc: self.program_counter,
            mem: self.memory@,
        }
    }
}

impl CPU {
    /// The processor owns a memory image covering the full 16-bit
    /// address range, so that every wrapped address is in bounds.
    pub open spec fn wf(&self) -> bool {
        machine_wf(self@)
    }

    /// A fresh processor: registers and counter zero, status at the
    /// reset pattern, memory zeroed.
    pub fn new() -> (cpu: CPU)
        ensures
            cpu.wf(),
            cpu@ == (Machine {
                a: 0,
                x: 0,
                y: 0,
                status: RESET_STATUS,
                pc: 0,
                mem: Seq::new(MEM_SIZE as nat, |i: int| 0u8),
            }),
    {
        let memory: Vec<u8> = vec![0u8; MEM_SIZE];
        proof {
            assert(memory@ =~= Seq::new(MEM_SIZE as nat, |i: int| 0u8));
        }
        CPU {
            register_a: 0,
            register_x: 0,
            register_y: 0,
            status: RESET_STATUS,
            program_counter: 0,
            memory,
        }
    }

    /// Reads the byte stored at `addr`.
    pub fn mem_read(&self, addr: u16) -> (data: u8)
        requires
            self.wf(),
        ensures
            data == read8(self@.mem, addr),
    {
        self.memory[addr as usize]
    }

    /// Writes one byte at `addr`.
    pub fn mem_write(&mut self, addr: u16, data: u8)
        requires
            old(self).wf(),
        ensures
            final(self).wf(),
            final(self)@ == (Machine { mem: old(self)@.mem.update(addr as int, data), ..old(self)@ }),
    {
        self.memory[addr as usize] = data;
    }

    /// Reads the little-endian 16-bit value stored at `pos`; the address
    /// of the high byte wraps around the top of the address space.
    pub fn mem_read_u16(&self, pos: u16) -> (data: u16)
        requires
            self.wf(),
        ensures
            data == read16(self@.mem, pos),
    {
        let lo = self.mem_read(pos);
        let hi = self.mem_read(pos.wrapping_add(1));
        proof {
            lemma_word_parts(lo, hi);
        }
        ((hi as u16) << 8) | (lo as u16)
    }

    /// Writes a 16-bit value little-endian at `pos`; the address of the
    /// high byte wraps around the top of the address space.
    pub fn mem_write_u16(&mut self, pos: u16, data: u16)
        requires
            old(self).wf(),
        ensures
            final(self).wf(),
            final(self)@ == (Machine {
                mem: old(self)@.mem.update(pos as int, (data & 0xFF) as u8).update(
                    pos.wrapping_add(1) as int,
                    (data >> 8) as u8,
                ),
                ..old(self)@
            }),
            read16(final(self)@.mem, pos) == data,
    {
        let hi = (data >> 8) as u8;
        let lo = (data & 0xFF) as u8;
        self.mem_write(pos, lo);
        self.mem_write(pos.wrapping_add(1), hi);
        proof {
            lemma_split16(data);
        }
    }

    /// Whether `flag` is set in the status word.
    pub fn is_set(&self, flag: CpuFlags) -> (r: bool)
        ensures
            r == flag_set(self@.status, flag),
    {
        self.status & flag.mask() != 0
    }

    /// Sets `flag` in the status word, leaving every other bit unchanged.
    pub fn set_flag(&mut self, flag: CpuFlags)
        ensures
            final(self)@ == (Machine { status: with_flag(old(self)@.status, flag), ..old(self)@ }),
    {
        self.status = self.status | flag.mask();
    }

    /// Clears `flag` in the status word, leaving every other bit
    /// unchanged.
    pub fn clear_flag(&mut self, flag: CpuFlags)
        ensures
            final(self)@ == (Machine {
                status: without_flag(old(self)@.status, flag),
                ..old(self)@
            }),
    {
        self.status = self.status & !flag.mask();
    }

    /// Sets the carry flag.
    pub fn set_carry_flag(&mut self)
        ensures
            final(self)@ == (Machine {
                status: with_flag(old(self)@.status, CpuFlags::Carry),
                ..old(self)@
            }),
    {
        self.set_flag(CpuFlags::Carry);
    }

    /// Clears the carry flag.
    pub fn clear_carry_flag(&mut self)
        ensures
            final(self)@ == (Machine {
                status: without_flag(old(self)@.status, CpuFlags::Carry),
                ..old(self)@
            }),
    {
        self.clear_flag(CpuFlags::Carry);
    }

    /// Sets the overflow flag.
    pub fn set_overflow_flag(&mut self)
        ensures
            final(self)@ == (Machine {
                status: with_flag(old(self)@.status, CpuFlags::Overflow),
                ..old(self)@
            }),
    {
        self.set_flag(CpuFlags::Overflow);
    }

    /// Clears the overflow flag.
    pub fn clear_overflow_flag(&mut self)
        ensures
            final(self)@ == (Machine {
                status: without_flag(old(self)@.status, CpuFlags::Overflow),
                ..old(self)@
            }),
    {
        self.clear_flag(CpuFlags::Overflow);
    }

    /// Sets the decimal-mode flag.
    pub fn set_decimal_mode(&mut self)
        ensures
            final(self)@ == (Machine {
                status: with_flag(old(self)@.status, CpuFlags::DecimalMode),
                ..old(self)@
            }),
    {
        self.set_flag(CpuFlags::DecimalMode);
    }

    /// Clears the decimal-mode flag.
    pub fn clear_decimal_mode(&mut self)
        ensures
            final(self)@ == (Machine {
                status: without_flag(old(self)@.status, CpuFlags::DecimalMode),
                ..old(self)@
            }),
    {
        self.clear_flag(CpuFlags::DecimalMode);
    }

    /// Sets the interrupt-disable flag.
    pub fn set_interupt_disable(&mut self)
        ensures
            final(self)@ == (Machine {
                status: with_flag(old(self)@.status, CpuFlags::InterruptDisable),
                ..old(self)@
            }),
    {
        self.set_flag(CpuFlags::InterruptDisable);
    }

    /// Clears the interrupt-disable flag.
    pub fn clear_interrupt_disable(&mut self)
        ensures
            final(self)@ == (Machine {
                status: without_flag(old(self)@.status, CpuFlags::InterruptDisable),
                ..old(self)@
            }),
    {
        self.clear_flag(CpuFlags::InterruptDisable);
    }

    /// The derived flag update every load, transfer, arithmetic and
    /// logical instruction performs: zero is set iff `result == 0`,
    /// negative iff bit 7 of `result` is set; no other bit changes.
    pub fn update_zero_and_negative_flags(&mut self, result: u8)
        ensures
            final(self)@ == (Machine {
                status: update_zn(old(self)@.status, result),
                ..old(self)@
            }),
            flag_set(final(self)@.status, CpuFlags::Zero) <==> result == 0,
            flag_set(final(self)@.status, CpuFlags::Negative) <==> result & 0x80 != 0,
    {
        if result == 0 {
            self.set_flag(CpuFlags::Zero);
        } else {
            self.clear_flag(CpuFlags::Zero);
        }
        if result & 0x80 != 0 {
            self.set_flag(CpuFlags::Negative);
        } else {
            self.clear_flag(CpuFlags::Negative);
        }
        proof {
            crate::flags::lemma_update_zn(old(self)@.status, result);
        }
    }

    /// Resolves the operand location of an instruction under `mode`,
    /// reading one or two bytes starting at the current program counter
    /// without advancing it. Only modes that carry a generic operand may
    /// reach the resolver; routing any other mode here is a defect in the
    /// opcode table, which the table's consistency proof rules out.
    pub fn get_operand_address(&self, mode: &AddressingMode) -> (r: ResolvedOperand)
        requires
            self.wf(),
            mode_is_resolvable(*mode),
        ensures
            r == spec_resolve(self@, *mode),
    {
        match mode {
            AddressingMode::Immediate => ResolvedOperand::Address(self.program_counter),
            AddressingMode::ZeroPage => ResolvedOperand::Address(
                self.mem_read(self.program_counter) as u16,
            ),
            AddressingMode::Absolute => ResolvedOperand::Address(
                self.mem_read_u16(self.program_counter),
            ),
            AddressingMode::ZeroPage_X => {
                let base = self.mem_read(self.program_counter);
                let addr = base.wrapping_add(self.register_x) as u16;
                ResolvedOperand::Address(addr)
            },
            AddressingMode::ZeroPage_Y => {
                let base = self.mem_read(self.program_counter);
                let addr = base.wrapping_add(self.register_y) as u16;
                ResolvedOperand::Address(addr)
            },
            AddressingMode::Absolute_X => {
                let base = self.mem_read_u16(self.program_counter);
                let addr = base.wrapping_add(self.register_x as u16);
                ResolvedOperand::Address(addr)
            },
            AddressingMode::Absolute_Y => {
                let base = self.mem_read_u16(self.program_counter);
                let addr = base.wrapping_add(self.register_y as u16);
                ResolvedOperand::Address(addr)
            },
            AddressingMode::Indirect_X => {
                let base = self.mem_read(self.program_counter);
                let ptr = base.wrapping_add(self.register_x);
                let lo = self.mem_read(ptr as u16);
                let hi = self.mem_read(ptr.wrapping_add(1) as u16);
                proof {
                    lemma_word_parts(lo, hi);
                }
                ResolvedOperand::Address(((hi as u16) << 8) | (lo as u16))
            },
            AddressingMode::Indirect_Y => {
                let base = self.mem_read(self.program_counter);
                let lo = self.mem_read(base as u16);
                let hi = self.mem_read(base.wrapping_add(1) as u16);
                proof {
                    lemma_word_parts(lo, hi);
                }
                let deref_base = ((hi as u16) << 8) | (lo as u16);
                ResolvedOperand::Address(deref_base.wrapping_add(self.register_y as u16))
            },
            AddressingMode::Accumulator => ResolvedOperand::Accumulator,
            AddressingMode::Indirect => unreached(),
            AddressingMode::Implied => unreached(),
            AddressingMode::Relative => unreached(),
            AddressingMode::NoneAddressing => unreached(),
        }
    }

    /// The memory address of the operand, for modes the resolver maps to
    /// an address.
    fn operand_address(&self, mode: &AddressingMode) -> (addr: u16)
        requires
            self.wf(),
            mode_resolves_to_address(*mode),
        ensures
            addr == operand_addr(self@, *mode),
    {
        match self.get_operand_address(mode) {
            ResolvedOperand::Address(addr) => addr,
            ResolvedOperand::Accumulator => unreached(),
        }
    }

    /// The memory operand the instruction reads under `mode`.
    fn read_operand(&self, mode: &AddressingMode) -> (value: u8)
        requires
            self.wf(),
            mode_resolves_to_address(*mode),
        ensures
            value == operand_value(self@, *mode),
    {
        let addr = self.operand_address(mode);
        self.mem_read(addr)
    }

    /// Stores `value` in the accumulator and performs the zero/negative
    /// update on it.
    fn set_register_a(&mut self, value: u8)
        ensures
            final(self)@ == (Machine {
                a: value,
                status: update_zn(old(self)@.status, value),
                ..old(self)@
            }),
    {
        self.register_a = value;
        self.update_zero_and_negative_flags(self.register_a);
    }

    /// Load accumulator.
    fn lda(&mut self, mode: &AddressingMode)
        requires
            old(self).wf(),
            mode_resolves_to_address(*mode),
        ensures
            final(self).wf(),
            final(self)@ == spec_lda(old(self)@, *mode),
    {
        let value = self.read_operand(mode);
        self.set_register_a(value);
    }

    /// Load X register.
    fn ldx(&mut self, mode: &AddressingMode)
        requires
            old(self).wf(),
            mode_resolves_to_address(*mode),
        ensures
            final(self).wf(),
            final(self)@ == spec_ldx(old(self)@, *mode),
    {
        let value = self.read_operand(mode);
        self.register_x = value;
        self.update_zero_and_negative_flags(self.register_x);
    }

    /// Load Y register.
    fn ldy(&mut self, mode: &AddressingMode)
        requires
            old(self).wf(),
            mode_resolves_to_address(*mode),
        ensures
            final(self).wf(),
            final(self)@ == spec_ldy(old(self)@, *mode),
    {
        let value = self.read_operand(mode);
        self.register_y = value;
        self.update_zero_and_negative_flags(self.register_y);
    }

    /// Store accumulator; no flag update.
    fn sta(&mut self, mode: &AddressingMode)
        requires
            old(self).wf(),
            mode_resolves_to_address(*mode),
        ensures
            final(self).wf(),
            final(self)@ == spec_sta(old(self)@, *mode),
    {
        let addr = self.operand_address(mode);
        self.mem_write(addr, self.register_a)
    }

    /// Transfer accumulator to X.
    fn tax(&mut self)
        ensures
            final(self)@ == spec_tax(old(self)@),
    {
        self.register_x = self.register_a;
        self.update_zero_and_negative_flags(self.register_x);
    }

    /// Transfer accumulator to Y.
    fn tay(&mut self)
        ensures
            final(self)@ == spec_tay(old(self)@),
    {
        self.register_y = self.register_a;
        self.update_zero_and_negative_flags(self.register_y);
    }

    /// Bitwise AND of accumulator and operand.
    fn and(&mut self, mode: &AddressingMode)
        requires
            old(self).wf(),
            mode_resolves_to_address(*mode),
        ensures
            final(self).wf(),
            final(self)@ == spec_and(old(self)@, *mode),
    {
        let value = self.read_operand(mode);
        self.set_register_a(self.register_a & value);
    }

    /// Bitwise exclusive OR of accumulator and operand.
    fn eor(&mut self, mode: &AddressingMode)
        requires
            old(self).wf(),
            mode_resolves_to_address(*mode),
        ensures
            final(self).wf(),
            final(self)@ == spec_eor(old(self)@, *mode),
    {
        let value = self.read_operand(mode);
        self.register_a = self.register_a ^ value;
        self.update_zero_and_negative_flags(self.register_a);
    }

    /// Arithmetic shift left, on the accumulator or on the memory
    /// operand: carry receives bit 7 of the original value, the shifted
    /// result is written back to the same location, and zero/negative
    /// follow the shifted result.
    fn asl(&mut self, mode: &AddressingMode)
        requires
            old(self).wf(),
            mode_is_resolvable(*mode),
        ensures
            final(self).wf(),
            final(self)@ == spec_asl(old(self)@, *mode),
    {
        match self.get_operand_address(mode) {
            ResolvedOperand::Accumulator => {
                let value = self.register_a;
                if value >> 7 == 1 {
                    self.set_carry_flag();
                } else {
                    self.clear_carry_flag();
                }
                self.set_register_a(value << 1);
            },
            ResolvedOperand::Address(addr) => {
                let value = self.mem_read(addr);
                if value >> 7 == 1 {
                    self.set_carry_flag();
                } else {
                    self.clear_carry_flag();
                }
                let value = value << 1;
                self.mem_write(addr, value);
                self.update_zero_and_negative_flags(value);
            },
        }
    }

    /// Bit test: zero follows `a & operand`, negative follows bit 7 of
    /// the operand, and overflow is set exactly when the top two bits of
    /// the masked result read as `01`.
    fn bit(&mut self, mode: &AddressingMode)
        requires
            old(self).wf(),
            mode_resolves_to_address(*mode),
        ensures
            final(self).wf(),
            final(self)@ == spec_bit(old(self)@, *mode),
    {
        let value = self.read_operand(mode);
        let test = self.register_a & value;
        self.update_zero_and_negative_flags(test);
        if value & 0x80 != 0 {
            self.set_flag(CpuFlags::Negative);
        } else {
            self.clear_flag(CpuFlags::Negative);
        }
        if test >> 6 == 1 {
            self.set_overflow_flag();
        } else {
            self.clear_overflow_flag();
        }
    }

    /// Increment X with 8-bit wraparound.
    fn inx(&mut self)
        ensures
            final(self)@ == spec_inx(old(self)@),
    {
        self.register_x = self.register_x.wrapping_add(1);
        self.update_zero_and_negative_flags(self.register_x);
    }

    /// Increment Y with 8-bit wraparound.
    fn iny(&mut self)
        ensures
            final(self)@ == spec_iny(old(self)@),
    {
        self.register_y = self.register_y.wrapping_add(1);
        self.update_zero_and_negative_flags(self.register_y);
    }

    /// Decrement X with 8-bit wraparound.
    fn dex(&mut self)
        ensures
            final(self)@ == spec_dex(old(self)@),
    {
        self.register_x = self.register_x.wrapping_sub(1);
        self.update_zero_and_negative_flags(self.register_x);
    }

    /// Decrement Y with 8-bit wraparound.
    fn dey(&mut self)
        ensures
            final(self)@ == spec_dey(old(self)@),
    {
        self.register_y = self.register_y.wrapping_sub(1);
        self.update_zero_and_negative_flags(self.register_y);
    }

    /// Increment the memory operand with 8-bit wraparound.
    fn inc(&mut self, mode: &AddressingMode)
        requires
            old(self).wf(),
            mode_resolves_to_address(*mode),
        ensures
            final(self).wf(),
            final(self)@ == spec_inc(old(self)@, *mode),
    {
        let addr = self.operand_address(mode);
        let value = self.mem_read(addr);
        let value = value.wrapping_add(1);
        self.mem_write(addr, value);
        self.update_zero_and_negative_flags(value);
    }

    /// Decrement the memory operand with 8-bit wraparound.
    fn dec(&mut self, mode: &AddressingMode)
        requires
            old(self).wf(),
            mode_resolves_to_address(*mode),
        ensures
            final(self).wf(),
            final(self)@ == spec_dec(old(self)@, *mode),
    {
        let addr = self.operand_address(mode);
        let value = self.mem_read(addr);
        let value = value.wrapping_sub(1);
        self.mem_write(addr, value);
        self.update_zero_and_negative_flags(value);
    }

    /// Compares a register value against the memory operand: carry is
    /// set exactly when the operand does not exceed the register, and
    /// zero/negative follow the wrapping difference.
    pub fn compare(&mut self, mode: &AddressingMode, compare_with: u8)
        requires
            old(self).wf(),
            mode_resolves_to_address(*mode),
        ensures
            final(self).wf(),
            final(self)@ == spec_compare(old(self)@, *mode, compare_with),
            flag_set(final(self)@.status, CpuFlags::Carry) <==> operand_value(old(self)@, *mode)
                <= compare_with,
            flag_set(final(self)@.status, CpuFlags::Zero) <==> operand_value(old(self)@, *mode)
                == compare_with,
    {
        let value = self.read_operand(mode);
        if value <= compare_with {
            self.set_carry_flag();
        } else {
            self.clear_carry_flag();
        }
        self.update_zero_and_negative_flags(compare_with.wrapping_sub(value));
        proof {
            crate::flags::lemma_with_without(old(self)@.status, CpuFlags::Carry);
            crate::flags::lemma_update_zn(
                if operand_value(old(self)@, *mode) <= compare_with {
                    with_flag(old(self)@.status, CpuFlags::Carry)
                } else {
                    without_flag(old(self)@.status, CpuFlags::Carry)
                },
                compare_with.wrapping_sub(operand_value(old(self)@, *mode)),
            );
        }
    }

    /// Conditional relative branch: when `condition` holds, the byte at
    /// the program counter becomes a signed displacement and the counter
    /// jumps one past the displacement byte plus that displacement,
    /// wrapping; otherwise nothing changes.
    pub fn branch(&mut self, condition: bool)
        requires
            old(self).wf(),
        ensures
            final(self).wf(),
            final(self)@ == spec_branch(old(self)@, condition),
    {
        if condition {
            let jump = self.mem_read(self.program_counter);
            let offset = if jump < 0x80 {
                jump as u16
            } else {
                (jump as u16) + 0xFF00
            };
            let jump_addr = self.program_counter.wrapping_add(1).wrapping_add(offset);
            self.program_counter = jump_addr;
        }
    }

    /// Returns registers and status to the reset pattern and loads the
    /// program counter from the reset vector. Memory is untouched, so a
    /// second reset in succession reproduces the same state.
    pub fn reset(&mut self)
        requires
            old(self).wf(),
        ensures
            final(self).wf(),
            final(self)@ == spec_reset(old(self)@),
    {
        self.register_a = 0;
        self.register_x = 0;
        self.register_y = 0;
        self.status = RESET_STATUS;
        self.program_counter = self.mem_read_u16(RESET_VECTOR);
    }

    /// Copies the program image verbatim into memory starting at the
    /// load origin and writes the load origin, little-endian, to the
    /// reset vector. The image must fit between the load origin and the
    /// top of memory.
    pub fn load(&mut self, program: Vec<u8>)
        requires
            old(self).wf(),
            program@.len() <= LOAD_ORIGIN as int,
        ensures
            final(self).wf(),
            final(self)@ == spec_load(old(self)@, program@),
    {
        let ghost orig = self@;
        let n = program.len();
        let mut i: usize = 0;
        while i < n
            invariant
                self.wf(),
                i <= n,
                n == program@.len(),
                n <= LOAD_ORIGIN as int,
                self@ == (Machine { mem: self@.mem, ..orig }),
                forall|j: int|
                    LOAD_ORIGIN as int <= j < LOAD_ORIGIN as int + i ==> self@.mem[j]
                        == program@[j - LOAD_ORIGIN as int],
                forall|j: int|
                    0 <= j < MEM_SIZE as int && !(LOAD_ORIGIN as int <= j < LOAD_ORIGIN as int + i)
                        ==> self@.mem[j] == orig.mem[j],
            decreases n - i,
        {
            self.mem_write(LOAD_ORIGIN + (i as u16), program[i]);
            i = i + 1;
        }
        self.mem_write_u16(RESET_VECTOR, LOAD_ORIGIN);
        proof {
            assert((0x8000u16 & 0xFF) as u8 == 0x00 && (0x8000u16 >> 8) as u8 == 0x80)
                by (bit_vector);
            assert(self@.mem =~= spec_load(orig, program@).mem);
            assert(self@ =~= spec_load(orig, program@));
        }
    }

    /// One fetch-decode-execute step. Decodes the opcode under the
    /// program counter, advances the counter past it, runs the executor,
    /// and — unless the executor moved the counter itself — advances it
    /// over the operand bytes declared in the opcode table. Returns
    /// whether the instruction was `BRK`, the halt condition.
    pub fn step(&mut self) -> (halted: bool)
        requires
            old(self).wf(),
        ensures
            final(self).wf(),
            halted == halts_now(old(self)@),
            halted ==> final(self)@ == spec_brk(old(self)@),
            !halted ==> final(self)@ == spec_step(old(self)@),
    {
        let opscode = self.mem_read(self.program_counter);
        let val = EmmulationHelpers::get_op_code_struct(opscode);
        proof {
            lemma_opcode_table_consistent(opscode);
        }
        self.program_counter = self.program_counter.wrapping_add(1);
        let program_counter_state = self.program_counter;
        match val.match_code {
            OpCodeCat::LDA => self.lda(&val.mode),
            OpCodeCat::LDX => self.ldx(&val.mode),
            OpCodeCat::LDY => self.ldy(&val.mode),
            OpCodeCat::STA => self.sta(&val.mode),
            OpCodeCat::TAX => self.tax(),
            OpCodeCat::TAY => self.tay(),
            OpCodeCat::AND => self.and(&val.mode),
            OpCodeCat::EOR => self.eor(&val.mode),
            OpCodeCat::ASL => self.asl(&val.mode),
            OpCodeCat::BIT => self.bit(&val.mode),
            OpCodeCat::INX => self.inx(),
            OpCodeCat::INY => self.iny(),
            OpCodeCat::DEX => self.dex(),
            OpCodeCat::DEY => self.dey(),
            OpCodeCat::INC => self.inc(&val.mode),
            OpCodeCat::DEC => self.dec(&val.mode),
            OpCodeCat::CMP => self.compare(&val.mode, self.register_a),
            OpCodeCat::CPX => self.compare(&val.mode, self.register_x),
            OpCodeCat::CPY => self.compare(&val.mode, self.register_y),
            OpCodeCat::BCC => self.branch(!self.is_set(CpuFlags::Carry)),
            OpCodeCat::BCS => self.branch(self.is_set(CpuFlags::Carry)),
            OpCodeCat::BEQ => self.branch(self.is_set(CpuFlags::Zero)),
            OpCodeCat::BNE => self.branch(!self.is_set(CpuFlags::Zero)),
            OpCodeCat::BMI => self.branch(self.is_set(CpuFlags::Negative)),
            OpCodeCat::BPL => self.branch(!self.is_set(CpuFlags::Negative)),
            OpCodeCat::BVC => self.branch(!self.is_set(CpuFlags::Overflow)),
            OpCodeCat::BVS => self.branch(self.is_set(CpuFlags::Overflow)),
            OpCodeCat::CLC => self.clear_carry_flag(),
            OpCodeCat::CLD => self.clear_decimal_mode(),
            OpCodeCat::CLI => self.clear_interrupt_disable(),
            OpCodeCat::CLV => self.clear_overflow_flag(),
            OpCodeCat::BRK => {
                self.set_flag(CpuFlags::Break);
                return true;
            },
            OpCodeCat::JMP_ABS => {},
            OpCodeCat::JMP_IND => {},
            OpCodeCat::NONE => {},
        }
        if program_counter_state == self.program_counter {
            self.program_counter = self.program_counter.wrapping_add(val.bytes - 1);
        }
        false
    }

    /// Runs the fetch-decode-execute loop until a `BRK` instruction
    /// halts it. The caller owes a state from which a `BRK` is reached —
    /// on any other program the loop would never return, so termination
    /// is provable exactly on this domain; [`Self::run_with_limit`] is
    /// the total variant. The resulting state is the state at the first
    /// `BRK`, with that `BRK`'s side effects applied once.
    pub fn run(&mut self)
        requires
            old(self).wf(),
            exists|n: nat| halts_at(old(self)@, n),
        ensures
            final(self).wf(),
            exists|n: nat|
                halts_at(old(self)@, n) && final(self)@ == halt_state(old(self)@, n),
    {
        let ghost s0 = self@;
        let ghost limit: nat = choose|n: nat| halts_at(s0, n);
        let ghost mut steps: nat = 0;
        loop
            invariant
                s0 == old(self)@,
                self.wf(),
                halts_at(s0, limit),
                steps <= limit,
                self@ == run_n(s0, steps),
                forall|j: nat| j < steps ==> !halts_now(#[trigger] run_n(s0, j)),
            decreases limit - steps,
        {
            let halted = self.step();
            if halted {
                proof {
                    assert(halts_at(s0, steps));
                    assert(self@ == halt_state(s0, steps));
                }
                return;
            }
            proof {
                if steps == limit {
                    assert(halts_now(run_n(s0, steps)));
                }
                assert(run_n(s0, steps + 1) == spec_step(run_n(s0, steps)));
                steps = steps + 1;
            }
        }
    }

    /// Runs the fetch-decode-execute loop, but for at most `max_steps`
    /// instructions: the optional bound a caller can use to guarantee
    /// termination on programs that may never reach `BRK`. Returns
    /// whether the machine halted. When it did, the state is the same
    /// one [`Self::run`] produces; when it did not, the state is exactly
    /// `max_steps` steps along and no earlier point halted.
    pub fn run_with_limit(&mut self, max_steps: usize) -> (halted: bool)
        requires
            old(self).wf(),
        ensures
            final(self).wf(),
            halted ==> exists|n: nat|
                n < max_steps && halts_at(old(self)@, n) && final(self)@ == halt_state(
                    old(self)@,
                    n,
                ),
            !halted ==> final(self)@ == run_n(old(self)@, max_steps as nat) && forall|j: nat|
                j < max_steps ==> !halts_now(#[trigger] run_n(old(self)@, j)),
    {
        let ghost s0 = self@;
        let mut steps: usize = 0;
        while steps < max_steps
            invariant
                s0 == old(self)@,
                self.wf(),
                steps <= max_steps,
                self@ == run_n(s0, steps as nat),
                forall|j: nat| j < steps ==> !halts_now(#[trigger] run_n(s0, j)),
            decreases max_steps - steps,
        {
            let halted = self.step();
            if halted {
                proof {
                    assert(halts_at(s0, steps as nat));
                    assert(self@ == halt_state(s0, steps as nat));
                }
                return true;
            }
            proof {
                assert(run_n(s0, steps as nat + 1) == spec_step(run_n(s0, steps as nat)));
            }
            steps = steps + 1;
        }
        false
    }

    /// Loads the program image, resets the processor so the counter
    /// points at the image, and runs until `BRK`: the resulting state is
    /// the unique halt state of the loaded-and-reset machine. As with
    /// [`Self::run`], the caller owes a program that reaches `BRK`.
    pub fn load_and_run(&mut self, program: Vec<u8>)
        requires
            old(self).wf(),
            program@.len() <= LOAD_ORIGIN as int,
            exists|n: nat| halts_at(spec_reset(spec_load(old(self)@, program@)), n),
        ensures
            final(self).wf(),
            exists|n: nat|
                halts_at(spec_reset(spec_load(old(self)@, program@)), n) && final(self)@
                    == halt_state(spec_reset(spec_load(old(self)@, program@)), n),
    {
        self.load(program);
        self.reset();
        self.run();
    }
}

} // verus!
