//! The pure model of the processor: its architectural state, the operand
//! address resolver, one transition function per operation kind, and the
//! fetch-decode-execute step that the run loop is verified against.
//!
//! Everything in this module is specification-level. The executable
//! counterparts in [`crate::cpu`] carry contracts stated over these
//! functions, so that a single definition of the instruction semantics
//! governs both.

use vstd::prelude::*;

use crate::flags::{flag_set, update_zn, with_flag, without_flag, CpuFlags, RESET_STATUS};
use crate::opcode::{spec_opcode, AddressingMode, OpCode, OpCodeCat};

verus! {

/// The number of bytes in the address space: the full 16-bit range, so
/// that every address formed by wraparound arithmetic is in bounds.
pub const MEM_SIZE: usize = 0x10000;

/// The address at which a program image is placed by `load`.
pub const LOAD_ORIGIN: u16 = 0x8000;

/// The address of the little-endian reset vector read by `reset`.
pub const RESET_VECTOR: u16 = 0xFFFC;

/// The architectural state of the processor: accumulator, the two index
/// registers, the status word, the program counter and the memory image.
#[verifier::ext_equal]
pub struct Machine {
    pub a: u8,
    pub x: u8,
    pub y: u8,
    pub status: u8,
    pub pc: u16,
    pub mem: Seq<u8>,
}

/// A machine state with a full-range, byte-addressable memory.
pub open spec fn machine_wf(s: Machine) -> bool {
    s.mem.len() == MEM_SIZE
}

/// The byte stored at `addr`.
pub open spec fn read8(m: Seq<u8>, addr: u16) -> u8 {
    m[addr as int]
}

/// The 16-bit value formed little-endian from a low and a high byte.
pub open spec fn word(lo: u8, hi: u8) -> u16 {
    (lo + hi * 0x100) as u16
}

/// Shifting the high byte and or-ing in the low byte forms the
/// little-endian word.
pub proof fn lemma_word_parts(lo: u8, hi: u8)
    ensures
        ((hi as u16) << 8) | (lo as u16) == word(lo, hi),
{
    assert(((hi as u16) << 8) | (lo as u16) == (lo + hi * 0x100) as u16) by (bit_vector);
}

/// A 16-bit value splits into its low and high bytes, which reassemble
/// into the same value.
pub proof fn lemma_split16(data: u16)
    ensures
        word((data & 0xFF) as u8, (data >> 8) as u8) == data,
{
    assert((((data & 0xFF) as u8) + ((data >> 8) as u8) * 0x100) as u16 == data) by (bit_vector);
}

/// The 16-bit value stored little-endian at `pos`, the address of the
/// high byte wrapping around the top of the address space.
pub open spec fn read16(m: Seq<u8>, pos: u16) -> u16 {
    word(read8(m, pos), read8(m, pos.wrapping_add(1)))
}

/// The location an instruction's operand resolves to: either a memory
/// address or the accumulator register itself.
#[derive(Clone, Copy, PartialEq, Eq, Structural, Debug)]
pub enum ResolvedOperand {
    Address(u16),
    Accumulator,
}

/// Whether the resolver maps this mode to a memory address.
pub open spec fn mode_resolves_to_address(mode: AddressingMode) -> bool {
    match mode {
        AddressingMode::Immediate => true,
        AddressingMode::ZeroPage => true,
        AddressingMode::ZeroPage_X => true,
        AddressingMode::ZeroPage_Y => true,
        AddressingMode::Absolute => true,
        AddressingMode::Absolute_X => true,
        AddressingMode::Absolute_Y => true,
        AddressingMode::Indirect_X => true,
        AddressingMode::Indirect_Y => true,
        _ => false,
    }
}

/// Whether the resolver is defined on this mode at all. `Implied`,
/// `Relative`, `Indirect` and the `NoneAddressing` sentinel carry no
/// generic operand and must not reach the resolver.
pub open spec fn mode_is_resolvable(mode: AddressingMode) -> bool {
    mode_resolves_to_address(mode) || mode == AddressingMode::Accumulator
}

/// A signed 8-bit branch displacement, sign-extended to 16 bits.
pub open spec fn branch_offset(j: u8) -> u16 {
    if j < 0x80 {
        j as u16
    } else {
        (j + 0xFF00) as u16
    }
}

/// The operand location for `mode` in state `s`, reading one or two bytes
/// starting at the current program counter without advancing it.
///
/// Meaningful only when `mode_is_resolvable(mode)`; the remaining modes
/// are mapped to `Accumulator` to keep the function total, but the
/// executable resolver refuses them by precondition.
pub open spec fn spec_resolve(s: Machine, mode: AddressingMode) -> ResolvedOperand {
    match mode {
        AddressingMode::Immediate => ResolvedOperand::Address(s.pc),
        AddressingMode::ZeroPage => ResolvedOperand::Address(read8(s.mem, s.pc) as u16),
        AddressingMode::ZeroPage_X => ResolvedOperand::Address(
            read8(s.mem, s.pc).wrapping_add(s.x) as u16,
        ),
        AddressingMode::ZeroPage_Y => ResolvedOperand::Address(
            read8(s.mem, s.pc).wrapping_add(s.y) as u16,
        ),
        AddressingMode::Absolute => ResolvedOperand::Address(read16(s.mem, s.pc)),
        AddressingMode::Absolute_X => ResolvedOperand::Address(
            read16(s.mem, s.pc).wrapping_add(s.x as u16),
        ),
        AddressingMode::Absolute_Y => ResolvedOperand::Address(
            read16(s.mem, s.pc).wrapping_add(s.y as u16),
        ),
        AddressingMode::Indirect_X => {
            let ptr = read8(s.mem, s.pc).wrapping_add(s.x);
            ResolvedOperand::Address(
                word(read8(s.mem, ptr as u16), read8(s.mem, ptr.wrapping_add(1) as u16)),
            )
        },
        AddressingMode::Indirect_Y => {
            let base = read8(s.mem, s.pc);
            let lo = read8(s.mem, base as u16);
            let hi = read8(s.mem, base.wrapping_add(1) as u16);
            ResolvedOperand::Address(word(lo, hi).wrapping_add(s.y as u16))
        },
        AddressingMode::Accumulator => ResolvedOperand::Accumulator,
        _ => ResolvedOperand::Accumulator,
    }
}

/// The memory address an operand resolves to, for modes that resolve to
/// an address.
pub open spec fn operand_addr(s: Machine, mode: AddressingMode) -> u16 {
    match spec_resolve(s, mode) {
        ResolvedOperand::Address(addr) => addr,
        ResolvedOperand::Accumulator => 0,
    }
}

/// The memory operand an instruction in state `s` reads under `mode`.
pub open spec fn operand_value(s: Machine, mode: AddressingMode) -> u8 {
    read8(s.mem, operand_addr(s, mode))
}

/// Load accumulator: the operand moves into `a`; zero/negative follow it.
pub open spec fn spec_lda(s: Machine, mode: AddressingMode) -> Machine {
    let v = operand_value(s, mode);
    Machine { a: v, status: update_zn(s.status, v), ..s }
}

/// Load X register.
pub open spec fn spec_ldx(s: Machine, mode: AddressingMode) -> Machine {
    let v = operand_value(s, mode);
    Machine { x: v, status: update_zn(s.status, v), ..s }
}

/// Load Y register.
pub open spec fn spec_ldy(s: Machine, mode: AddressingMode) -> Machine {
    let v = operand_value(s, mode);
    Machine { y: v, status: update_zn(s.status, v), ..s }
}

/// Store accumulator: `a` moves to the resolved address; no flag changes.
pub open spec fn spec_sta(s: Machine, mode: AddressingMode) -> Machine {
    Machine { mem: s.mem.update(operand_addr(s, mode) as int, s.a), ..s }
}

/// Transfer accumulator to X.
pub open spec fn spec_tax(s: Machine) -> Machine {
    Machine { x: s.a, status: update_zn(s.status, s.a), ..s }
}

/// Transfer accumulator to Y.
pub open spec fn spec_tay(s: Machine) -> Machine {
    Machine { y: s.a, status: update_zn(s.status, s.a), ..s }
}

/// Bitwise AND of the accumulator with the operand.
pub open spec fn spec_and(s: Machine, mode: AddressingMode) -> Machine {
    let v = s.a & operand_value(s, mode);
    Machine { a: v, status: update_zn(s.status, v), ..s }
}

/// Bitwise exclusive OR of the accumulator with the operand.
pub open spec fn spec_eor(s: Machine, mode: AddressingMode) -> Machine {
    let v = s.a ^ operand_value(s, mode);
    Machine { a: v, status: update_zn(s.status, v), ..s }
}

/// Increment X with 8-bit wraparound.
pub open spec fn spec_inx(s: Machine) -> Machine {
    let v = s.x.wrapping_add(1);
    Machine { x: v, status: update_zn(s.status, v), ..s }
}

/// Increment Y with 8-bit wraparound.
pub open spec fn spec_iny(s: Machine) -> Machine {
    let v = s.y.wrapping_add(1);
    Machine { y: v, status: update_zn(s.status, v), ..s }
}

/// Decrement X with 8-bit wraparound.
pub open spec fn spec_dex(s: Machine) -> Machine {
    let v = s.x.wrapping_sub(1);
    Machine { x: v, status: update_zn(s.status, v), ..s }
}

/// Decrement Y with 8-bit wraparound.
pub open spec fn spec_dey(s: Machine) -> Machine {
    let v = s.y.wrapping_sub(1);
    Machine { y: v, status: update_zn(s.status, v), ..s }
}

/// Increment the memory operand with 8-bit wraparound.
pub open spec fn spec_inc(s: Machine, mode: AddressingMode) -> Machine {
    let addr = operand_addr(s, mode);
    let v = read8(s.mem, addr).wrapping_add(1);
    Machine { mem: s.mem.update(addr as int, v), status: update_zn(s.status, v), ..s }
}

/// Decrement the memory operand with 8-bit wraparound.
pub open spec fn spec_dec(s: Machine, mode: AddressingMode) -> Machine {
    let addr = operand_addr(s, mode);
    let v = read8(s.mem, addr).wrapping_sub(1);
    Machine { mem: s.mem.update(addr as int, v), status: update_zn(s.status, v), ..s }
}

/// Arithmetic shift left of the accumulator or of the memory operand:
/// carry receives bit 7 of the original value, the value shifts left one
/// bit, and zero/negative follow the shifted result.
pub open spec fn spec_asl(s: Machine, mode: AddressingMode) -> Machine {
    let v = if mode == AddressingMode::Accumulator {
        s.a
    } else {
        operand_value(s, mode)
    };
    let st = if v >> 7 == 1 {
        with_flag(s.status, CpuFlags::Carry)
    } else {
        without_flag(s.status, CpuFlags::Carry)
    };
    let r = v << 1;
    if mode == AddressingMode::Accumulator {
        Machine { a: r, status: update_zn(st, r), ..s }
    } else {
        Machine {
            mem: s.mem.update(operand_addr(s, mode) as int, r),
            status: update_zn(st, r),
            ..s
        }
    }
}

/// Bit test: zero follows `a & operand`; negative follows bit 7 of the
/// operand itself; overflow is set exactly when the two top bits of the
/// masked result read as `01`.
pub open spec fn spec_bit(s: Machine, mode: AddressingMode) -> Machine {
    let v = operand_value(s, mode);
    let test = s.a & v;
    let st1 = update_zn(s.status, test);
    let st2 = if v & 0x80 != 0 {
        with_flag(st1, CpuFlags::Negative)
    } else {
        without_flag(st1, CpuFlags::Negative)
    };
    let st3 = if test >> 6 == 1 {
        with_flag(st2, CpuFlags::Overflow)
    } else {
        without_flag(st2, CpuFlags::Overflow)
    };
    Machine { status: st3, ..s }
}

/// Compare a register value with the operand: carry is set exactly when
/// the operand does not exceed the register; zero and negative follow the
/// wrapping difference `register - operand`.
pub open spec fn spec_compare(s: Machine, mode: AddressingMode, compare_with: u8) -> Machine {
    let v = operand_value(s, mode);
    let st = if v <= compare_with {
        with_flag(s.status, CpuFlags::Carry)
    } else {
        without_flag(s.status, CpuFlags::Carry)
    };
    Machine { status: update_zn(st, compare_with.wrapping_sub(v)), ..s }
}

/// Conditional relative branch: when the condition holds, the byte at the
/// program counter is taken as a signed displacement and the counter is
/// set one past the displacement byte plus that displacement, wrapping;
/// otherwise nothing changes.
pub open spec fn spec_branch(s: Machine, condition: bool) -> Machine {
    if condition {
        let jump = read8(s.mem, s.pc);
        Machine { pc: s.pc.wrapping_add(1).wrapping_add(branch_offset(jump)), ..s }
    } else {
        s
    }
}

/// Clear one named flag; nothing else changes.
pub open spec fn spec_clear(s: Machine, flag: CpuFlags) -> Machine {
    Machine { status: without_flag(s.status, flag), ..s }
}

/// The effect of one instruction executor on the state, given its
/// operation kind and addressing mode. The program counter already points
/// past the opcode byte. `BRK` is handled by the step logic, and the
/// kinds without an executor — `JMP_ABS`, `JMP_IND` and the `NONE`
/// sentinel — change nothing here; the run loop still advances the
/// counter by their declared length.
pub open spec fn spec_execute(s: Machine, cat: OpCodeCat, mode: AddressingMode) -> Machine {
    match cat {
        OpCodeCat::LDA => spec_lda(s, mode),
        OpCodeCat::LDX => spec_ldx(s, mode),
        OpCodeCat::LDY => spec_ldy(s, mode),
        OpCodeCat::STA => spec_sta(s, mode),
        OpCodeCat::TAX => spec_tax(s),
        OpCodeCat::TAY => spec_tay(s),
        OpCodeCat::AND => spec_and(s, mode),
        OpCodeCat::EOR => spec_eor(s, mode),
        OpCodeCat::ASL => spec_asl(s, mode),
        OpCodeCat::BIT => spec_bit(s, mode),
        OpCodeCat::INX => spec_inx(s),
        OpCodeCat::INY => spec_iny(s),
        OpCodeCat::DEX => spec_dex(s),
        OpCodeCat::DEY => spec_dey(s),
        OpCodeCat::INC => spec_inc(s, mode),
        OpCodeCat::DEC => spec_dec(s, mode),
        OpCodeCat::CMP => spec_compare(s, mode, s.a),
        OpCodeCat::CPX => spec_compare(s, mode, s.x),
        OpCodeCat::CPY => spec_compare(s, mode, s.y),
        OpCodeCat::BCC => spec_branch(s, !flag_set(s.status, CpuFlags::Carry)),
        OpCodeCat::BCS => spec_branch(s, flag_set(s.status, CpuFlags::Carry)),
        OpCodeCat::BEQ => spec_branch(s, flag_set(s.status, CpuFlags::Zero)),
        OpCodeCat::BNE => spec_branch(s, !flag_set(s.status, CpuFlags::Zero)),
        OpCodeCat::BMI => spec_branch(s, flag_set(s.status, CpuFlags::Negative)),
        OpCodeCat::BPL => spec_branch(s, !flag_set(s.status, CpuFlags::Negative)),
        OpCodeCat::BVC => spec_branch(s, !flag_set(s.status, CpuFlags::Overflow)),
        OpCodeCat::BVS => spec_branch(s, flag_set(s.status, CpuFlags::Overflow)),
        OpCodeCat::CLC => spec_clear(s, CpuFlags::Carry),
        OpCodeCat::CLD => spec_clear(s, CpuFlags::DecimalMode),
        OpCodeCat::CLI => spec_clear(s, CpuFlags::InterruptDisable),
        OpCodeCat::CLV => spec_clear(s, CpuFlags::Overflow),
        OpCodeCat::BRK => s,
        OpCodeCat::JMP_ABS => s,
        OpCodeCat::JMP_IND => s,
        OpCodeCat::NONE => s,
    }
}

/// The descriptor of the instruction the program counter points at.
pub open spec fn decoded(s: Machine) -> OpCode {
    spec_opcode(read8(s.mem, s.pc))
}

/// Whether the next instruction is `BRK`, the halt condition of the run
/// loop.
pub open spec fn halts_now(s: Machine) -> bool {
    decoded(s).match_code == OpCodeCat::BRK
}

/// The terminal state produced by executing `BRK`: the counter moves past
/// the opcode byte and the break marker is set.
pub open spec fn spec_brk(s: Machine) -> Machine {
    Machine {
        pc: s.pc.wrapping_add(1),
        status: with_flag(s.status, CpuFlags::Break),
        ..s
    }
}

/// One full fetch-decode-execute step for a non-halting instruction: the
/// counter moves past the opcode byte, the executor runs, and if the
/// executor left the counter alone the counter advances over the operand
/// bytes declared in the opcode table.
pub open spec fn spec_step(s: Machine) -> Machine {
    let op = decoded(s);
    let s1 = Machine { pc: s.pc.wrapping_add(1), ..s };
    let s2 = spec_execute(s1, op.match_code, op.mode);
    if s2.pc == s1.pc {
        Machine { pc: s2.pc.wrapping_add((op.bytes - 1) as u16), ..s2 }
    } else {
        s2
    }
}

/// The state after `n` fetch-decode-execute steps.
pub open spec fn run_n(s: Machine, n: nat) -> Machine
    decreases n,
{
    if n == 0 {
        s
    } else {
        spec_step(run_n(s, (n - 1) as nat))
    }
}

/// Whether execution from `s` first reaches a `BRK` instruction after
/// exactly `n` steps.
pub open spec fn halts_at(s: Machine, n: nat) -> bool {
    halts_now(run_n(s, n)) && forall|i: nat| i < n ==> !halts_now(#[trigger] run_n(s, i))
}

/// The terminal state of a run that first reaches `BRK` after `n` steps.
pub open spec fn halt_state(s: Machine, n: nat) -> Machine {
    spec_brk(run_n(s, n))
}

/// The memory image with `p` written over the bytes starting at `at`.
pub open spec fn overwrite(m: Seq<u8>, at: int, p: Seq<u8>) -> Seq<u8> {
    Seq::new(
        m.len(),
        |i: int|
            if at <= i < at + p.len() {
                p[i - at]
            } else {
                m[i]
            },
    )
}

/// The state after loading program image `p`: the image sits at
/// `LOAD_ORIGIN` and the reset vector holds `LOAD_ORIGIN` little-endian;
/// registers, status and counter are untouched.
pub open spec fn spec_load(s: Machine, p: Seq<u8>) -> Machine {
    Machine {
        mem: overwrite(s.mem, LOAD_ORIGIN as int, p).update(RESET_VECTOR as int, 0x00).update(
            RESET_VECTOR as int + 1,
            0x80,
        ),
        ..s
    }
}

/// The state after a reset: registers zeroed, status at the reset
/// pattern, and the program counter fetched little-endian from the reset
/// vector. Memory is untouched.
pub open spec fn spec_reset(s: Machine) -> Machine {
    Machine {
        a: 0,
        x: 0,
        y: 0,
        status: RESET_STATUS,
        pc: read16(s.mem, RESET_VECTOR),
        ..s
    }
}

/// Resetting is idempotent: because a reset never writes memory, a second
/// reset in succession reproduces exactly the state the first one left.
pub proof fn lemma_reset_idempotent(s: Machine)
    ensures
        spec_reset(spec_reset(s)) == spec_reset(s),
{
}

/// A run halts at most one way: the step count of the first `BRK` is
/// unique, so the halt state — with that `BRK`'s side effects applied
/// exactly once — is unique as well.
pub proof fn lemma_halts_at_unique(s: Machine, m: nat, n: nat)
    requires
        halts_at(s, m),
        halts_at(s, n),
    ensures
        m == n,
        halt_state(s, m) == halt_state(s, n),
{
    if m < n {
        assert(!halts_now(run_n(s, m)));
    }
    if n < m {
        assert(!halts_now(run_n(s, n)));
    }
}

/// The opcode table is internally consistent: every entry's length is
/// between one and three bytes, every operation kind that reads or writes
/// a memory operand is paired with a mode the resolver maps to an
/// address, and shift instructions get either such a mode or the
/// accumulator. The run loop relies on this to route only resolvable
/// modes into the resolver.
pub proof fn lemma_opcode_table_consistent(code: u8)
    ensures
        1 <= spec_opcode(code).bytes <= 3,
        matches!(
            spec_opcode(code).match_code,
            OpCodeCat::LDA
                | OpCodeCat::LDX
                | OpCodeCat::LDY
                | OpCodeCat::STA
                | OpCodeCat::AND
                | OpCodeCat::EOR
                | OpCodeCat::BIT
                | OpCodeCat::INC
                | OpCodeCat::DEC
                | OpCodeCat::CMP
                | OpCodeCat::CPX
                | OpCodeCat::CPY
        ) ==> mode_resolves_to_address(spec_opcode(code).mode),
        spec_opcode(code).match_code == OpCodeCat::ASL ==> mode_is_resolvable(
            spec_opcode(code).mode,
        ),
{
}

} // verus!
