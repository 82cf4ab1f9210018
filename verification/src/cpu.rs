//! The executor and the cycle driver. The CPU owns a register file, a
//! program counter and the memory bus; one `step` fetches the opcode at the
//! program counter (and the second byte after the extended prefix), decodes
//! it, executes it, and commits the next program counter. An undecodable
//! opcode surfaces as a typed fault, never as a crash, and leaves the
//! machine untouched.

use vstd::prelude::*;

use crate::instructions::ArithmeticTarget;
use crate::instructions::Instruction;
use crate::instructions::PairTarget;
use crate::instructions::PrefixTarget;
use crate::instructions::PREFIX_OPCODE;
use crate::instructions::lemma_decode_defined_slots;
use crate::instructions::spec_from_byte;
use crate::memorybus::MEMORY_SIZE;
use crate::memorybus::MemoryBus;
use crate::registers::FlagsRegister;
use crate::registers::Registers;
use crate::registers::spec_pair;
use crate::registers::spec_pair_hi;
use crate::registers::spec_pair_lo;

verus! {

/// The fault a step reports when the fetched opcode has no table entry:
/// the offending byte and the program counter at the time of the fault.
#[derive(Clone, Copy, PartialEq, Eq, Structural, Debug)]
pub struct StepFault {
    pub opcode: u8,
    pub address: u16,
}

/// What the executor reports back to the cycle driver: the committed next
/// program counter and the instruction's cycle cost.
#[derive(Clone, Copy, PartialEq, Eq, Structural, Debug)]
pub struct ExecResult {
    pub next_pc: u16,
    pub cycles: u8,
}

/// One emulated processor: register file, program counter and memory bus,
/// owned together so that several instances can run side by side.
pub struct CPU {
    pub registers: Registers,
    pub pc: u16,
    pub bus: MemoryBus,
}

/// The mathematical state of a CPU: its registers, its program counter and
/// the byte contents of its memory.
pub struct CpuView {
    pub regs: Registers,
    pub pc: u16,
    pub mem: Seq<u8>,
}

impl View for CPU {
    type V = CpuView;

    open spec fn view(&self) -> CpuView {
        CpuView { regs: self.registers, pc: self.pc, mem: self.bus@ }
    }
}

/// The HL pair of a register file.
pub open spec fn spec_hl(regs: Registers) -> u16 {
    spec_pair(regs.h, regs.l)
}

/// The address one past `pc`, wrapping around the 16-bit space.
pub open spec fn spec_next_addr(pc: u16) -> u16 {
    ((pc + 1) % 0x10000) as u16
}

// ---------------------------------------------------------------------------
// Arithmetic and logic semantics: each spec function gives the result and the
// four flags of one instruction class, exactly as the hardware computes them.
// ---------------------------------------------------------------------------

/// ADD: wrapped 8-bit sum. Z from the result, N false, H on carry out of
/// bit 3, C on carry out of bit 7.
pub open spec fn spec_add(a: u8, v: u8) -> (u8, FlagsRegister) {
    let r = ((a + v) % 256) as u8;
    (
        r,
        FlagsRegister {
            zero: r == 0,
            subtract: false,
            half_carry: a % 16 + v % 16 > 15,
            carry: a + v > 255,
        },
    )
}

/// ADC: one widened three-term sum of A, the operand and the carry-in; the
/// flags come from that single sum.
pub open spec fn spec_adc(a: u8, v: u8, carry_in: bool) -> (u8, FlagsRegister) {
    let c = if carry_in {
        1int
    } else {
        0int
    };
    let r = ((a + v + c) % 256) as u8;
    (
        r,
        FlagsRegister {
            zero: r == 0,
            subtract: false,
            half_carry: a % 16 + v % 16 + c > 15,
            carry: a + v + c > 255,
        },
    )
}

/// SUB: wrapped 8-bit difference. Z from the result, N true, H on borrow
/// into bit 4, C on borrow out of bit 8.
pub open spec fn spec_sub(a: u8, v: u8) -> (u8, FlagsRegister) {
    let r = (if a >= v {
        a - v
    } else {
        a + 256 - v
    }) as u8;
    (
        r,
        FlagsRegister {
            zero: r == 0,
            subtract: true,
            half_carry: a % 16 < v % 16,
            carry: v > a,
        },
    )
}

/// SBC: one widened three-term difference of A, the operand and the
/// carry-in, with SUB's flag rules applied to that single difference.
pub open spec fn spec_sbc(a: u8, v: u8, carry_in: bool) -> (u8, FlagsRegister) {
    let c = if carry_in {
        1int
    } else {
        0int
    };
    let d = a - v - c;
    let r = (if d >= 0 {
        d
    } else {
        d + 256
    }) as u8;
    (
        r,
        FlagsRegister {
            zero: r == 0,
            subtract: true,
            half_carry: a % 16 < v % 16 + c,
            carry: d < 0,
        },
    )
}

/// AND: bitwise and with A. Z from the result, N false, H true, C false.
pub open spec fn spec_and(a: u8, v: u8) -> (u8, FlagsRegister) {
    let r = a & v;
    (r, FlagsRegister { zero: r == 0, subtract: false, half_carry: true, carry: false })
}

/// OR: bitwise or with A. Z from the result, N, H and C false.
pub open spec fn spec_or(a: u8, v: u8) -> (u8, FlagsRegister) {
    let r = a | v;
    (r, FlagsRegister { zero: r == 0, subtract: false, half_carry: false, carry: false })
}

/// XOR: bitwise exclusive or with A. Z from the result, N, H and C false.
pub open spec fn spec_xor(a: u8, v: u8) -> (u8, FlagsRegister) {
    let r = a ^ v;
    (r, FlagsRegister { zero: r == 0, subtract: false, half_carry: false, carry: false })
}

/// INC: wrapped increment of the target. Z, N and H as for an addition of
/// one; the carry flag is left exactly as it was.
pub open spec fn spec_inc(v: u8, flags: FlagsRegister) -> (u8, FlagsRegister) {
    let r = ((v + 1) % 256) as u8;
    (
        r,
        FlagsRegister {
            zero: r == 0,
            subtract: false,
            half_carry: v % 16 == 15,
            carry: flags.carry,
        },
    )
}

/// DEC: wrapped decrement of the target. Z, N and H as for a subtraction of
/// one; the carry flag is left exactly as it was.
pub open spec fn spec_dec(v: u8, flags: FlagsRegister) -> (u8, FlagsRegister) {
    let r = (if v == 0 {
        255int
    } else {
        v - 1
    }) as u8;
    (
        r,
        FlagsRegister {
            zero: r == 0,
            subtract: true,
            half_carry: v % 16 == 0,
            carry: flags.carry,
        },
    )
}

/// ADD HL: wrapped 16-bit sum into HL. Z is untouched, N false, H on carry
/// out of bit 11, C on carry out of bit 15.
pub open spec fn spec_addhl(hl: u16, v: u16, flags: FlagsRegister) -> (u16, FlagsRegister) {
    let r = ((hl + v) % 0x10000) as u16;
    (
        r,
        FlagsRegister {
            zero: flags.zero,
            subtract: false,
            half_carry: hl % 4096 + v % 4096 > 4095,
            carry: hl + v > 0xFFFF,
        },
    )
}

/// RLC: rotate left by one; bit 7 moves both into the carry flag and into
/// bit 0. Z from the result, N and H false.
pub open spec fn spec_rlc(v: u8) -> (u8, FlagsRegister) {
    let r = ((v % 128) * 2 + v / 128) as u8;
    (r, FlagsRegister { zero: r == 0, subtract: false, half_carry: false, carry: v >= 128 })
}

/// RRC: rotate right by one; bit 0 moves both into the carry flag and into
/// bit 7. Z from the result, N and H false.
pub open spec fn spec_rrc(v: u8) -> (u8, FlagsRegister) {
    let r = (v / 2 + (v % 2) * 128) as u8;
    (r, FlagsRegister { zero: r == 0, subtract: false, half_carry: false, carry: v % 2 == 1 })
}

/// RL: rotate left by one through the carry flag: the old carry enters at
/// bit 0 and bit 7 leaves into the carry flag.
pub open spec fn spec_rl(v: u8, carry_in: bool) -> (u8, FlagsRegister) {
    let r = ((v % 128) * 2 + (if carry_in {
        1int
    } else {
        0int
    })) as u8;
    (r, FlagsRegister { zero: r == 0, subtract: false, half_carry: false, carry: v >= 128 })
}

/// RR: rotate right by one through the carry flag: the old carry enters at
/// bit 7 and bit 0 leaves into the carry flag.
pub open spec fn spec_rr(v: u8, carry_in: bool) -> (u8, FlagsRegister) {
    let r = (v / 2 + (if carry_in {
        128int
    } else {
        0int
    })) as u8;
    (r, FlagsRegister { zero: r == 0, subtract: false, half_carry: false, carry: v % 2 == 1 })
}

/// SLA: arithmetic shift left; bit 7 leaves into the carry flag and a zero
/// enters at bit 0.
pub open spec fn spec_sla(v: u8) -> (u8, FlagsRegister) {
    let r = ((v % 128) * 2) as u8;
    (r, FlagsRegister { zero: r == 0, subtract: false, half_carry: false, carry: v >= 128 })
}

/// SRA: arithmetic shift right; bit 0 leaves into the carry flag and the
/// sign bit is preserved.
pub open spec fn spec_sra(v: u8) -> (u8, FlagsRegister) {
    let r = (v / 2 + (if v >= 128 {
        128int
    } else {
        0int
    })) as u8;
    (r, FlagsRegister { zero: r == 0, subtract: false, half_carry: false, carry: v % 2 == 1 })
}

/// SRL: logical shift right; bit 0 leaves into the carry flag and the top
/// bit is cleared.
pub open spec fn spec_srl(v: u8) -> (u8, FlagsRegister) {
    let r = v / 2;
    (r, FlagsRegister { zero: r == 0, subtract: false, half_carry: false, carry: v % 2 == 1 })
}

/// SWAP: exchange the two nibbles. Z from the result, N, H and C false.
pub open spec fn spec_swap(v: u8) -> (u8, FlagsRegister) {
    let r = ((v % 16) * 16 + v / 16) as u8;
    (r, FlagsRegister { zero: r == 0, subtract: false, half_carry: false, carry: false })
}

/// RLCA/RRCA/RLA/RRA share their rotation with the general forms but always
/// clear the zero flag.
pub open spec fn spec_rotate_a_flags(carry_out: bool) -> FlagsRegister {
    FlagsRegister { zero: false, subtract: false, half_carry: false, carry: carry_out }
}

/// BIT: test one bit of the target. Z set iff the bit is clear, N false,
/// H true, C untouched; the target itself is never written.
pub open spec fn spec_bit_flags(bit_index: u8, v: u8, flags: FlagsRegister) -> FlagsRegister {
    FlagsRegister {
        zero: v & (1u8 << bit_index) == 0,
        subtract: false,
        half_carry: true,
        carry: flags.carry,
    }
}

/// RES: the target with one bit cleared. No flag changes.
pub open spec fn spec_res(bit_index: u8, v: u8) -> u8 {
    v & !(1u8 << bit_index)
}

/// SET: the target with one bit set. No flag changes.
pub open spec fn spec_set(bit_index: u8, v: u8) -> u8 {
    v | (1u8 << bit_index)
}

// ---------------------------------------------------------------------------
// Operand resolution over the model.
// ---------------------------------------------------------------------------

/// The value an 8-bit arithmetic operand selector resolves to: a register,
/// the byte at HL, or the immediate byte after the opcode.
pub open spec fn spec_read_arith(s: CpuView, t: ArithmeticTarget) -> u8 {
    match t {
        ArithmeticTarget::A => s.regs.a,
        ArithmeticTarget::B => s.regs.b,
        ArithmeticTarget::C => s.regs.c,
        ArithmeticTarget::D => s.regs.d,
        ArithmeticTarget::E => s.regs.e,
        ArithmeticTarget::H => s.regs.h,
        ArithmeticTarget::L => s.regs.l,
        ArithmeticTarget::HLI => s.mem[spec_hl(s.regs) as int],
        ArithmeticTarget::D8 => s.mem[spec_next_addr(s.pc) as int],
    }
}

/// The value a read/write operand selector resolves to: a register or the
/// byte at HL.
pub open spec fn spec_read_prefix(s: CpuView, t: PrefixTarget) -> u8 {
    match t {
        PrefixTarget::A => s.regs.a,
        PrefixTarget::B => s.regs.b,
        PrefixTarget::C => s.regs.c,
        PrefixTarget::D => s.regs.d,
        PrefixTarget::E => s.regs.e,
        PrefixTarget::H => s.regs.h,
        PrefixTarget::L => s.regs.l,
        PrefixTarget::HLI => s.mem[spec_hl(s.regs) as int],
    }
}

/// Writing a value back through an operand selector: the register file and
/// memory after the write. Only the selected slot changes.
pub open spec fn spec_write_prefix(s: CpuView, t: PrefixTarget, v: u8) -> (Registers, Seq<u8>) {
    match t {
        PrefixTarget::A => (Registers { a: v, ..s.regs }, s.mem),
        PrefixTarget::B => (Registers { b: v, ..s.regs }, s.mem),
        PrefixTarget::C => (Registers { c: v, ..s.regs }, s.mem),
        PrefixTarget::D => (Registers { d: v, ..s.regs }, s.mem),
        PrefixTarget::E => (Registers { e: v, ..s.regs }, s.mem),
        PrefixTarget::H => (Registers { h: v, ..s.regs }, s.mem),
        PrefixTarget::L => (Registers { l: v, ..s.regs }, s.mem),
        PrefixTarget::HLI => (s.regs, s.mem.update(spec_hl(s.regs) as int, v)),
    }
}

/// The 16-bit operand an ADD HL selector resolves to.
pub open spec fn spec_read_pair(regs: Registers, p: PairTarget) -> u16 {
    match p {
        PairTarget::BC => spec_pair(regs.b, regs.c),
        PairTarget::DE => spec_pair(regs.d, regs.e),
        PairTarget::HL => spec_pair(regs.h, regs.l),
    }
}

// ---------------------------------------------------------------------------
// The executor, as a function on the model.
// ---------------------------------------------------------------------------

/// The effect of one instruction on the model: register file, memory, and
/// the program counter the cycle driver must commit.
pub struct ExecEffect {
    pub regs: Registers,
    pub mem: Seq<u8>,
    pub next_pc: u16,
}

/// What executing one decoded instruction does to the machine: the new
/// register file, the new memory contents, and the next program counter.
pub open spec fn spec_execute(s: CpuView, i: Instruction) -> ExecEffect {
    let npc = ((s.pc + i.spec_length()) % 0x10000) as u16;
    match i {
        Instruction::ADD(t) => {
            let rf = spec_add(s.regs.a, spec_read_arith(s, t));
            ExecEffect {
                regs: Registers { a: rf.0, flags: rf.1, ..s.regs },
                mem: s.mem,
                next_pc: npc,
            }
        },
        Instruction::ADC(t) => {
            let rf = spec_adc(s.regs.a, spec_read_arith(s, t), s.regs.flags.carry);
            ExecEffect {
                regs: Registers { a: rf.0, flags: rf.1, ..s.regs },
                mem: s.mem,
                next_pc: npc,
            }
        },
        Instruction::SUB(t) => {
            let rf = spec_sub(s.regs.a, spec_read_arith(s, t));
            ExecEffect {
                regs: Registers { a: rf.0, flags: rf.1, ..s.regs },
                mem: s.mem,
                next_pc: npc,
            }
        },
        Instruction::SBC(t) => {
            let rf = spec_sbc(s.regs.a, spec_read_arith(s, t), s.regs.flags.carry);
            ExecEffect {
                regs: Registers { a: rf.0, flags: rf.1, ..s.regs },
                mem: s.mem,
                next_pc: npc,
            }
        },
        Instruction::AND(t) => {
            let rf = spec_and(s.regs.a, spec_read_arith(s, t));
            ExecEffect {
                regs: Registers { a: rf.0, flags: rf.1, ..s.regs },
                mem: s.mem,
                next_pc: npc,
            }
        },
        Instruction::OR(t) => {
            let rf = spec_or(s.regs.a, spec_read_arith(s, t));
            ExecEffect {
                regs: Registers { a: rf.0, flags: rf.1, ..s.regs },
                mem: s.mem,
                next_pc: npc,
            }
        },
        Instruction::XOR(t) => {
            let rf = spec_xor(s.regs.a, spec_read_arith(s, t));
            ExecEffect {
                regs: Registers { a: rf.0, flags: rf.1, ..s.regs },
                mem: s.mem,
                next_pc: npc,
            }
        },
        Instruction::CP(t) => {
            let rf = spec_sub(s.regs.a, spec_read_arith(s, t));
            ExecEffect { regs: Registers { flags: rf.1, ..s.regs }, mem: s.mem, next_pc: npc }
        },
        Instruction::INC(t) => {
            let rf = spec_inc(spec_read_prefix(s, t), s.regs.flags);
            let w = spec_write_prefix(s, t, rf.0);
            ExecEffect { regs: Registers { flags: rf.1, ..w.0 }, mem: w.1, next_pc: npc }
        },
        Instruction::DEC(t) => {
            let rf = spec_dec(spec_read_prefix(s, t), s.regs.flags);
            let w = spec_write_prefix(s, t, rf.0);
            ExecEffect { regs: Registers { flags: rf.1, ..w.0 }, mem: w.1, next_pc: npc }
        },
        Instruction::ADDHL(p) => {
            let rf = spec_addhl(spec_hl(s.regs), spec_read_pair(s.regs, p), s.regs.flags);
            ExecEffect {
                regs: Registers {
                    h: spec_pair_hi(rf.0),
                    l: spec_pair_lo(rf.0),
                    flags: rf.1,
                    ..s.regs
                },
                mem: s.mem,
                next_pc: npc,
            }
        },
        Instruction::CCF => {
            ExecEffect {
                regs: Registers {
                    flags: FlagsRegister {
                        zero: s.regs.flags.zero,
                        subtract: false,
                        half_carry: false,
                        carry: !s.regs.flags.carry,
                    },
                    ..s.regs
                },
                mem: s.mem,
                next_pc: npc,
            }
        },
        Instruction::SCF => {
            ExecEffect {
                regs: Registers {
                    flags: FlagsRegister {
                        zero: s.regs.flags.zero,
                        subtract: false,
                        half_carry: false,
                        carry: true,
                    },
                    ..s.regs
                },
                mem: s.mem,
                next_pc: npc,
            }
        },
        Instruction::CPL => {
            ExecEffect {
                regs: Registers {
                    a: !s.regs.a,
                    flags: FlagsRegister {
                        zero: s.regs.flags.zero,
                        subtract: true,
                        half_carry: true,
                        carry: s.regs.flags.carry,
                    },
                    ..s.regs
                },
                mem: s.mem,
                next_pc: npc,
            }
        },
        Instruction::RRA => {
            let rf = spec_rr(s.regs.a, s.regs.flags.carry);
            ExecEffect {
                regs: Registers {
                    a: rf.0,
                    flags: spec_rotate_a_flags(rf.1.carry),
                    ..s.regs
                },
                mem: s.mem,
                next_pc: npc,
            }
        },
        Instruction::RLA => {
            let rf = spec_rl(s.regs.a, s.regs.flags.carry);
            ExecEffect {
                regs: Registers {
                    a: rf.0,
                    flags: spec_rotate_a_flags(rf.1.carry),
                    ..s.regs
                },
                mem: s.mem,
                next_pc: npc,
            }
        },
        Instruction::RRCA => {
            let rf = spec_rrc(s.regs.a);
            ExecEffect {
                regs: Registers {
                    a: rf.0,
                    flags: spec_rotate_a_flags(rf.1.carry),
                    ..s.regs
                },
                mem: s.mem,
                next_pc: npc,
            }
        },
        Instruction::RLCA => {
            let rf = spec_rlc(s.regs.a);
            ExecEffect {
                regs: Registers {
                    a: rf.0,
                    flags: spec_rotate_a_flags(rf.1.carry),
                    ..s.regs
                },
                mem: s.mem,
                next_pc: npc,
            }
        },
        Instruction::RLC(t) => {
            let rf = spec_rlc(spec_read_prefix(s, t));
            let w = spec_write_prefix(s, t, rf.0);
            ExecEffect { regs: Registers { flags: rf.1, ..w.0 }, mem: w.1, next_pc: npc }
        },
        Instruction::RRC(t) => {
            let rf = spec_rrc(spec_read_prefix(s, t));
            let w = spec_write_prefix(s, t, rf.0);
            ExecEffect { regs: Registers { flags: rf.1, ..w.0 }, mem: w.1, next_pc: npc }
        },
        Instruction::RL(t) => {
            let rf = spec_rl(spec_read_prefix(s, t), s.regs.flags.carry);
            let w = spec_write_prefix(s, t, rf.0);
            ExecEffect { regs: Registers { flags: rf.1, ..w.0 }, mem: w.1, next_pc: npc }
        },
        Instruction::RR(t) => {
            let rf = spec_rr(spec_read_prefix(s, t), s.regs.flags.carry);
            let w = spec_write_prefix(s, t, rf.0);
            ExecEffect { regs: Registers { flags: rf.1, ..w.0 }, mem: w.1, next_pc: npc }
        },
        Instruction::SLA(t) => {
            let rf = spec_sla(spec_read_prefix(s, t));
            let w = spec_write_prefix(s, t, rf.0);
            ExecEffect { regs: Registers { flags: rf.1, ..w.0 }, mem: w.1, next_pc: npc }
        },
        Instruction::SRA(t) => {
            let rf = spec_sra(spec_read_prefix(s, t));
            let w = spec_write_prefix(s, t, rf.0);
            ExecEffect { regs: Registers { flags: rf.1, ..w.0 }, mem: w.1, next_pc: npc }
        },
        Instruction::SRL(t) => {
            let rf = spec_srl(spec_read_prefix(s, t));
            let w = spec_write_prefix(s, t, rf.0);
            ExecEffect { regs: Registers { flags: rf.1, ..w.0 }, mem: w.1, next_pc: npc }
        },
        Instruction::SWAP(t) => {
            let rf = spec_swap(spec_read_prefix(s, t));
            let w = spec_write_prefix(s, t, rf.0);
            ExecEffect { regs: Registers { flags: rf.1, ..w.0 }, mem: w.1, next_pc: npc }
        },
        Instruction::BIT(n, t) => {
            let f = spec_bit_flags(n, spec_read_prefix(s, t), s.regs.flags);
            ExecEffect { regs: Registers { flags: f, ..s.regs }, mem: s.mem, next_pc: npc }
        },
        Instruction::RES(n, t) => {
            let w = spec_write_prefix(s, t, spec_res(n, spec_read_prefix(s, t)));
            ExecEffect { regs: w.0, mem: w.1, next_pc: npc }
        },
        Instruction::SET(n, t) => {
            let w = spec_write_prefix(s, t, spec_set(n, spec_read_prefix(s, t)));
            ExecEffect { regs: w.0, mem: w.1, next_pc: npc }
        },
    }
}


/// One full fetch-decode-execute-commit step on the model. The fetched
/// opcode selects the base table, or, when it is the extended prefix, the
/// byte after it selects the extended table. An undefined slot yields the
/// fault with the offending byte and the program counter; a defined slot
/// yields the executed state with the new program counter committed.
pub open spec fn spec_step(s: CpuView) -> Result<CpuView, StepFault> {
    let opcode = s.mem[s.pc as int];
    let prefixed = opcode == PREFIX_OPCODE;
    let key = if prefixed {
        s.mem[spec_next_addr(s.pc) as int]
    } else {
        opcode
    };
    match spec_from_byte(key, prefixed) {
        Some(i) => {
            let e = spec_execute(s, i);
            Ok(CpuView { regs: e.regs, pc: e.next_pc, mem: e.mem })
        },
        None => Err(StepFault { opcode: key, address: s.pc }),
    }
}

// ---------------------------------------------------------------------------
// Frame conditions shared by the helper contracts.
// ---------------------------------------------------------------------------

/// The helper changed the flags and nothing else.
pub open spec fn sets_flags_only(pre: CPU, post: CPU, f: FlagsRegister) -> bool {
    &&& post.registers == (Registers { flags: f, ..pre.registers })
    &&& post.pc == pre.pc
    &&& post.bus == pre.bus
}

/// The helper changed the accumulator and the flags and nothing else.
pub open spec fn sets_a_and_flags(pre: CPU, post: CPU, a: u8, f: FlagsRegister) -> bool {
    &&& post.registers == (Registers { a: a, flags: f, ..pre.registers })
    &&& post.pc == pre.pc
    &&& post.bus == pre.bus
}

impl CPU {
    /// The bus behind a live CPU always covers the full address space.
    pub open spec fn wf(&self) -> bool {
        self.bus.wf()
    }

    /// A machine with cleared registers, program counter zero and zeroed
    /// memory.
    pub fn new() -> (cpu: CPU)
        ensures
            cpu.wf(),
            cpu.registers == (Registers {
                a: 0,
                b: 0,
                c: 0,
                d: 0,
                e: 0,
                h: 0,
                l: 0,
                flags: FlagsRegister { zero: false, subtract: false, half_carry: false, carry: false },
            }),
            cpu.pc == 0,
            forall|i: int| 0 <= i < MEMORY_SIZE ==> cpu@.mem[i] == 0,
    {
        CPU { registers: Registers::new(), pc: 0, bus: MemoryBus::new() }
    }

    /// One fetch-decode-execute-commit cycle. On a decodable opcode the
    /// machine advances exactly as `spec_step` says; on an undecodable one
    /// it returns the fault naming the byte and the address and changes
    /// nothing at all.
    pub fn step(&mut self) -> (r: Result<(), StepFault>)
        requires
            old(self).wf(),
        ensures
            final(self).wf(),
            match spec_step(old(self)@) {
                Ok(s) => {
                    &&& r is Ok
                    &&& final(self).registers == s.regs
                    &&& final(self).pc == s.pc
                    &&& final(self).bus@ == s.mem
                },
                Err(f) => {
                    &&& r == Err::<(), StepFault>(f)
                    &&& *final(self) == *old(self)
                },
            },
    {
        let opcode = self.bus.read_byte(self.pc);
        let prefixed = opcode == PREFIX_OPCODE;
        let key = if prefixed {
            self.bus.read_byte(next_addr(self.pc))
        } else {
            opcode
        };
        match Instruction::from_byte(key, prefixed) {
            Some(instruction) => {
                proof {
                    lemma_decode_defined_slots(key, prefixed);
                }
                let result = self.execute(instruction);
                self.pc = result.next_pc;
                Ok(())
            },
            None => Err(StepFault { opcode: key, address: self.pc }),
        }
    }

    /// Execute one decoded instruction against the register file and the
    /// bus, exactly as `spec_execute` says, and report the next program
    /// counter and the cycle cost. The program counter itself is not yet
    /// committed: that is the cycle driver's move.
    pub fn execute(&mut self, instruction: Instruction) -> (r: ExecResult)
        requires
            old(self).wf(),
            instruction.wf(),
        ensures
            final(self).wf(),
            final(self).registers == spec_execute(old(self)@, instruction).regs,
            final(self).bus@ == spec_execute(old(self)@, instruction).mem,
            final(self).pc == old(self).pc,
            r.next_pc == spec_execute(old(self)@, instruction).next_pc,
            r.cycles == instruction.spec_cycles(),
    {
        match instruction {
            Instruction::ADD(_) | Instruction::ADC(_) | Instruction::SUB(_)
            | Instruction::SBC(_) | Instruction::AND(_) | Instruction::OR(_)
            | Instruction::XOR(_) | Instruction::CP(_) => self.execute_arith(instruction),
            Instruction::INC(_) | Instruction::DEC(_) => self.execute_inc_dec(instruction),
            Instruction::ADDHL(_) | Instruction::CCF | Instruction::SCF | Instruction::CPL
            | Instruction::RRA | Instruction::RLA | Instruction::RRCA
            | Instruction::RLCA => self.execute_misc(instruction),
            Instruction::RLC(_) | Instruction::RRC(_) | Instruction::RL(_) | Instruction::RR(_)
            | Instruction::SLA(_) | Instruction::SRA(_) | Instruction::SRL(_)
            | Instruction::SWAP(_) | Instruction::BIT(_, _) | Instruction::RES(_, _)
            | Instruction::SET(_, _) => self.execute_prefixed(instruction),
        }
        proof {
            lemma_execute_next_pc(old(self)@, instruction);
        }
        let length = instruction.length();
        let sum: u32 = self.pc as u32 + length as u32;
        let next_pc = (sum % 0x10000) as u16;
        let cycles = instruction.cycles();
        ExecResult { next_pc, cycles }
    }

    /// The accumulator arithmetic and logic classes.
    fn execute_arith(&mut self, instruction: Instruction)
        requires
            old(self).wf(),
            instruction.wf(),
            (instruction matches Instruction::ADD(_))
            || (instruction matches Instruction::ADC(_))
            || (instruction matches Instruction::SUB(_))
            || (instruction matches Instruction::SBC(_))
            || (instruction matches Instruction::AND(_))
            || (instruction matches Instruction::OR(_))
            || (instruction matches Instruction::XOR(_))
            || (instruction matches Instruction::CP(_)),
        ensures
            final(self).wf(),
            final(self).registers == spec_execute(old(self)@, instruction).regs,
            final(self).bus@ == spec_execute(old(self)@, instruction).mem,
            final(self).pc == old(self).pc,
    {
        match instruction {
            Instruction::ADD(t) => {
                let value = self.read_arith_target(t);
                let new_value = self.add(value);
                self.registers.a = new_value;
                proof {
                    assert(self.registers == spec_execute(old(self)@, instruction).regs);
                    assert(self.bus@ == spec_execute(old(self)@, instruction).mem);
                }
            },
            Instruction::ADC(t) => {
                let value = self.read_arith_target(t);
                let new_value = self.adc(value);
                self.registers.a = new_value;
                proof {
                    assert(self.registers == spec_execute(old(self)@, instruction).regs);
                    assert(self.bus@ == spec_execute(old(self)@, instruction).mem);
                }
            },
            Instruction::SUB(t) => {
                let value = self.read_arith_target(t);
                let new_value = self.sub(value);
                self.registers.a = new_value;
                proof {
                    assert(self.registers == spec_execute(old(self)@, instruction).regs);
                    assert(self.bus@ == spec_execute(old(self)@, instruction).mem);
                }
            },
            Instruction::SBC(t) => {
                let value = self.read_arith_target(t);
                let new_value = self.sbc(value);
                self.registers.a = new_value;
                proof {
                    assert(self.registers == spec_execute(old(self)@, instruction).regs);
                    assert(self.bus@ == spec_execute(old(self)@, instruction).mem);
                }
            },
            Instruction::AND(t) => {
                let value = self.read_arith_target(t);
                let new_value = self.and(value);
                self.registers.a = new_value;
                proof {
                    assert(self.registers == spec_execute(old(self)@, instruction).regs);
                    assert(self.bus@ == spec_execute(old(self)@, instruction).mem);
                }
            },
            Instruction::OR(t) => {
                let value = self.read_arith_target(t);
                let new_value = self.or(value);
                self.registers.a = new_value;
                proof {
                    assert(self.registers == spec_execute(old(self)@, instruction).regs);
                    assert(self.bus@ == spec_execute(old(self)@, instruction).mem);
                }
            },
            Instruction::XOR(t) => {
                let value = self.read_arith_target(t);
                let new_value = self.xor(value);
                self.registers.a = new_value;
                proof {
                    assert(self.registers == spec_execute(old(self)@, instruction).regs);
                    assert(self.bus@ == spec_execute(old(self)@, instruction).mem);
                }
            },
            Instruction::CP(t) => {
                let value = self.read_arith_target(t);
                let _ = self.cp(value);
                proof {
                    assert(self.registers == spec_execute(old(self)@, instruction).regs);
                    assert(self.bus@ == spec_execute(old(self)@, instruction).mem);
                }
            },
            // Unreachable: the precondition restricts the instruction class.
            _ => {
            },
        }
    }

    /// The increment and decrement classes.
    fn execute_inc_dec(&mut self, instruction: Instruction)
        requires
            old(self).wf(),
            instruction.wf(),
            (instruction matches Instruction::INC(_))
            || (instruction matches Instruction::DEC(_)),
        ensures
            final(self).wf(),
            final(self).registers == spec_execute(old(self)@, instruction).regs,
            final(self).bus@ == spec_execute(old(self)@, instruction).mem,
            final(self).pc == old(self).pc,
    {
        match instruction {
            Instruction::INC(t) => {
                let value = self.read_prefix_target(t);
                let new_value = self.inc(value);
                self.write_prefix_target(t, new_value);
                proof {
                    assert(self.registers == spec_execute(old(self)@, instruction).regs);
                    assert(self.bus@ == spec_execute(old(self)@, instruction).mem);
                }
            },
            Instruction::DEC(t) => {
                let value = self.read_prefix_target(t);
                let new_value = self.dec(value);
                self.write_prefix_target(t, new_value);
                proof {
                    assert(self.registers == spec_execute(old(self)@, instruction).regs);
                    assert(self.bus@ == spec_execute(old(self)@, instruction).mem);
                }
            },
            // Unreachable: the precondition restricts the instruction class.
            _ => {
            },
        }
    }

    /// The 16-bit add and the accumulator rotate/miscellaneous classes.
    #[verifier::rlimit(100)]
    fn execute_misc(&mut self, instruction: Instruction)
        requires
            old(self).wf(),
            instruction.wf(),
            (instruction matches Instruction::ADDHL(_))
            || (instruction matches Instruction::CCF)
            || (instruction matches Instruction::SCF)
            || (instruction matches Instruction::CPL)
            || (instruction matches Instruction::RRA)
            || (instruction matches Instruction::RLA)
            || (instruction matches Instruction::RRCA)
            || (instruction matches Instruction::RLCA),
        ensures
            final(self).wf(),
            final(self).registers == spec_execute(old(self)@, instruction).regs,
            final(self).bus@ == spec_execute(old(self)@, instruction).mem,
            final(self).pc == old(self).pc,
    {
        match instruction {
            Instruction::ADDHL(p) => {
                let value = self.read_pair_target(p);
                let new_value = self.addhl(value);
                self.registers.set_hl(new_value);
                proof {
                    assert(self.registers == spec_execute(old(self)@, instruction).regs);
                    assert(self.bus@ == spec_execute(old(self)@, instruction).mem);
                }
            },
            Instruction::CCF => {
                self.ccf();
                proof {
                    assert(self.registers == spec_execute(old(self)@, instruction).regs);
                    assert(self.bus@ == spec_execute(old(self)@, instruction).mem);
                }
            },
            Instruction::SCF => {
                self.scf();
                proof {
                    assert(self.registers == spec_execute(old(self)@, instruction).regs);
                    assert(self.bus@ == spec_execute(old(self)@, instruction).mem);
                }
            },
            Instruction::CPL => {
                self.cpl();
                proof {
                    assert(self.registers == spec_execute(old(self)@, instruction).regs);
                    assert(self.bus@ == spec_execute(old(self)@, instruction).mem);
                }
            },
            Instruction::RRA => {
                self.rra();
                proof {
                    assert(self.registers == spec_execute(old(self)@, instruction).regs);
                    assert(self.bus@ == spec_execute(old(self)@, instruction).mem);
                }
            },
            Instruction::RLA => {
                self.rla();
                proof {
                    assert(self.registers == spec_execute(old(self)@, instruction).regs);
                    assert(self.bus@ == spec_execute(old(self)@, instruction).mem);
                }
            },
            Instruction::RRCA => {
                self.rrca();
                proof {
                    assert(self.registers == spec_execute(old(self)@, instruction).regs);
                    assert(self.bus@ == spec_execute(old(self)@, instruction).mem);
                }
            },
            Instruction::RLCA => {
                self.rrla();
                proof {
                    assert(self.registers == spec_execute(old(self)@, instruction).regs);
                    assert(self.bus@ == spec_execute(old(self)@, instruction).mem);
                }
            },
            // Unreachable: the precondition restricts the instruction class.
            _ => {
            },
        }
    }

    /// The extended-table classes: rotates, shifts, swap and bit operations on any operand selector.
    fn execute_prefixed(&mut self, instruction: Instruction)
        requires
            old(self).wf(),
            instruction.wf(),
            (instruction matches Instruction::RLC(_))
            || (instruction matches Instruction::RRC(_))
            || (instruction matches Instruction::RL(_))
            || (instruction matches Instruction::RR(_))
            || (instruction matches Instruction::SLA(_))
            || (instruction matches Instruction::SRA(_))
            || (instruction matches Instruction::SRL(_))
            || (instruction matches Instruction::SWAP(_))
            || (instruction matches Instruction::BIT(_, _))
            || (instruction matches Instruction::RES(_, _))
            || (instruction matches Instruction::SET(_, _)),
        ensures
            final(self).wf(),
            final(self).registers == spec_execute(old(self)@, instruction).regs,
            final(self).bus@ == spec_execute(old(self)@, instruction).mem,
            final(self).pc == old(self).pc,
    {
        match instruction {
            Instruction::RLC(t) => {
                let value = self.read_prefix_target(t);
                let new_value = self.rlc(value);
                self.write_prefix_target(t, new_value);
                proof {
                    assert(self.registers == spec_execute(old(self)@, instruction).regs);
                    assert(self.bus@ == spec_execute(old(self)@, instruction).mem);
                }
            },
            Instruction::RRC(t) => {
                let value = self.read_prefix_target(t);
                let new_value = self.rrc(value);
                self.write_prefix_target(t, new_value);
                proof {
                    assert(self.registers == spec_execute(old(self)@, instruction).regs);
                    assert(self.bus@ == spec_execute(old(self)@, instruction).mem);
                }
            },
            Instruction::RL(t) => {
                let value = self.read_prefix_target(t);
                let new_value = self.rl(value);
                self.write_prefix_target(t, new_value);
                proof {
                    assert(self.registers == spec_execute(old(self)@, instruction).regs);
                    assert(self.bus@ == spec_execute(old(self)@, instruction).mem);
                }
            },
            Instruction::RR(t) => {
                let value = self.read_prefix_target(t);
                let new_value = self.rr(value);
                self.write_prefix_target(t, new_value);
                proof {
                    assert(self.registers == spec_execute(old(self)@, instruction).regs);
                    assert(self.bus@ == spec_execute(old(self)@, instruction).mem);
                }
            },
            Instruction::SLA(t) => {
                let value = self.read_prefix_target(t);
                let new_value = self.sla(value);
                self.write_prefix_target(t, new_value);
                proof {
                    assert(self.registers == spec_execute(old(self)@, instruction).regs);
                    assert(self.bus@ == spec_execute(old(self)@, instruction).mem);
                }
            },
            Instruction::SRA(t) => {
                let value = self.read_prefix_target(t);
                let new_value = self.sra(value);
                self.write_prefix_target(t, new_value);
                proof {
                    assert(self.registers == spec_execute(old(self)@, instruction).regs);
                    assert(self.bus@ == spec_execute(old(self)@, instruction).mem);
                }
            },
            Instruction::SRL(t) => {
                let value = self.read_prefix_target(t);
                let new_value = self.srl(value);
                self.write_prefix_target(t, new_value);
                proof {
                    assert(self.registers == spec_execute(old(self)@, instruction).regs);
                    assert(self.bus@ == spec_execute(old(self)@, instruction).mem);
                }
            },
            Instruction::SWAP(t) => {
                let value = self.read_prefix_target(t);
                let new_value = self.swap(value);
                self.write_prefix_target(t, new_value);
                proof {
                    assert(self.registers == spec_execute(old(self)@, instruction).regs);
                    assert(self.bus@ == spec_execute(old(self)@, instruction).mem);
                }
            },
            Instruction::BIT(n, t) => {
                let value = self.read_prefix_target(t);
                self.bit(n, value);
                proof {
                    assert(self.registers == spec_execute(old(self)@, instruction).regs);
                    assert(self.bus@ == spec_execute(old(self)@, instruction).mem);
                }
            },
            Instruction::RES(n, t) => {
                let value = self.read_prefix_target(t);
                let new_value = self.reset(n, value);
                self.write_prefix_target(t, new_value);
                proof {
                    assert(self.registers == spec_execute(old(self)@, instruction).regs);
                    assert(self.bus@ == spec_execute(old(self)@, instruction).mem);
                }
            },
            Instruction::SET(n, t) => {
                let value = self.read_prefix_target(t);
                let new_value = self.set(n, value);
                self.write_prefix_target(t, new_value);
                proof {
                    assert(self.registers == spec_execute(old(self)@, instruction).regs);
                    assert(self.bus@ == spec_execute(old(self)@, instruction).mem);
                }
            },
            // Unreachable: the precondition restricts the instruction class.
            _ => {
            },
        }
    }

    /// Resolve an 8-bit arithmetic operand: a register, the byte at HL, or
    /// the immediate byte after the opcode.
    fn read_arith_target(&self, t: ArithmeticTarget) -> (v: u8)
        requires
            self.wf(),
        ensures
            v == spec_read_arith(self@, t),
    {
        match t {
            ArithmeticTarget::A => self.registers.a,
            ArithmeticTarget::B => self.registers.b,
            ArithmeticTarget::C => self.registers.c,
            ArithmeticTarget::D => self.registers.d,
            ArithmeticTarget::E => self.registers.e,
            ArithmeticTarget::H => self.registers.h,
            ArithmeticTarget::L => self.registers.l,
            ArithmeticTarget::HLI => self.bus.read_byte(self.registers.get_hl()),
            ArithmeticTarget::D8 => self.bus.read_byte(next_addr(self.pc)),
        }
    }

    /// Resolve a read/write operand: a register or the byte at HL.
    fn read_prefix_target(&self, t: PrefixTarget) -> (v: u8)
        requires
            self.wf(),
        ensures
            v == spec_read_prefix(self@, t),
    {
        match t {
            PrefixTarget::A => self.registers.a,
            PrefixTarget::B => self.registers.b,
            PrefixTarget::C => self.registers.c,
            PrefixTarget::D => self.registers.d,
            PrefixTarget::E => self.registers.e,
            PrefixTarget::H => self.registers.h,
            PrefixTarget::L => self.registers.l,
            PrefixTarget::HLI => self.bus.read_byte(self.registers.get_hl()),
        }
    }

    /// Write a value back through an operand selector; flags and the
    /// program counter stay as they are.
    fn write_prefix_target(&mut self, t: PrefixTarget, value: u8)
        requires
            old(self).wf(),
        ensures
            final(self).wf(),
            final(self).registers == spec_write_prefix(old(self)@, t, value).0,
            final(self).bus@ == spec_write_prefix(old(self)@, t, value).1,
            final(self).pc == old(self).pc,
    {
        match t {
            PrefixTarget::A => self.registers.a = value,
            PrefixTarget::B => self.registers.b = value,
            PrefixTarget::C => self.registers.c = value,
            PrefixTarget::D => self.registers.d = value,
            PrefixTarget::E => self.registers.e = value,
            PrefixTarget::H => self.registers.h = value,
            PrefixTarget::L => self.registers.l = value,
            PrefixTarget::HLI => {
                let address = self.registers.get_hl();
                self.bus.write(address, value);
            },
        }
    }

    /// Resolve a 16-bit pair operand for ADD HL.
    fn read_pair_target(&self, p: PairTarget) -> (v: u16)
        ensures
            v == spec_read_pair(self.registers, p),
    {
        match p {
            PairTarget::BC => self.registers.get_bc(),
            PairTarget::DE => self.registers.get_de(),
            PairTarget::HL => self.registers.get_hl(),
        }
    }

    /// ADD: add the value to A, wrapping; flags per `spec_add`. Returns the
    /// wrapped sum; A itself is written by the caller.
    pub fn add(&mut self, value: u8) -> (new_value: u8)
        ensures
            new_value == spec_add(old(self).registers.a, value).0,
            sets_flags_only(*old(self), *final(self), spec_add(old(self).registers.a, value).1),
    {
        let a = self.registers.a;
        let sum: u16 = a as u16 + value as u16;
        let new_value = (sum % 256) as u8;
        self.registers.flags = FlagsRegister {
            zero: new_value == 0,
            subtract: false,
            half_carry: a % 16 + value % 16 > 15,
            carry: sum > 255,
        };
        new_value
    }

    /// ADC: one widened three-term sum of A, the value and the carry-in;
    /// flags per `spec_adc`.
    pub fn adc(&mut self, value: u8) -> (new_value: u8)
        ensures
            new_value == spec_adc(old(self).registers.a, value, old(self).registers.flags.carry).0,
            sets_flags_only(
                *old(self),
                *final(self),
                spec_adc(old(self).registers.a, value, old(self).registers.flags.carry).1,
            ),
    {
        let a = self.registers.a;
        let carry_in: u8 = if self.registers.flags.carry {
            1
        } else {
            0
        };
        let sum: u16 = a as u16 + value as u16 + carry_in as u16;
        let new_value = (sum % 256) as u8;
        self.registers.flags = FlagsRegister {
            zero: new_value == 0,
            subtract: false,
            half_carry: a % 16 + value % 16 + carry_in > 15,
            carry: sum > 255,
        };
        new_value
    }

    /// SUB: subtract the value from A, wrapping; flags per `spec_sub`.
    pub fn sub(&mut self, value: u8) -> (new_value: u8)
        ensures
            new_value == spec_sub(old(self).registers.a, value).0,
            sets_flags_only(*old(self), *final(self), spec_sub(old(self).registers.a, value).1),
    {
        let a = self.registers.a;
        let new_value = if a >= value {
            a - value
        } else {
            (a as u16 + 256 - value as u16) as u8
        };
        self.registers.flags = FlagsRegister {
            zero: new_value == 0,
            subtract: true,
            half_carry: a % 16 < value % 16,
            carry: value > a,
        };
        new_value
    }

    /// SBC: one widened three-term difference of A, the value and the
    /// carry-in; flags per `spec_sbc`.
    pub fn sbc(&mut self, value: u8) -> (new_value: u8)
        ensures
            new_value == spec_sbc(old(self).registers.a, value, old(self).registers.flags.carry).0,
            sets_flags_only(
                *old(self),
                *final(self),
                spec_sbc(old(self).registers.a, value, old(self).registers.flags.carry).1,
            ),
    {
        let a = self.registers.a;
        let carry_in: u16 = if self.registers.flags.carry {
            1
        } else {
            0
        };
        let taken: u16 = value as u16 + carry_in;
        let new_value = if a as u16 >= taken {
            (a as u16 - taken) as u8
        } else {
            (a as u16 + 256 - taken) as u8
        };
        self.registers.flags = FlagsRegister {
            zero: new_value == 0,
            subtract: true,
            half_carry: ((a % 16) as u16) < ((value % 16) as u16) + carry_in,
            carry: (a as u16) < taken,
        };
        new_value
    }

    /// AND: bitwise and of A and the value; flags per `spec_and`.
    pub fn and(&mut self, value: u8) -> (new_value: u8)
        ensures
            new_value == spec_and(old(self).registers.a, value).0,
            sets_flags_only(*old(self), *final(self), spec_and(old(self).registers.a, value).1),
    {
        let new_value = self.registers.a & value;
        self.registers.flags = FlagsRegister {
            zero: new_value == 0,
            subtract: false,
            half_carry: true,
            carry: false,
        };
        new_value
    }

    /// OR: bitwise or of A and the value; flags per `spec_or`.
    pub fn or(&mut self, value: u8) -> (new_value: u8)
        ensures
            new_value == spec_or(old(self).registers.a, value).0,
            sets_flags_only(*old(self), *final(self), spec_or(old(self).registers.a, value).1),
    {
        let new_value = self.registers.a | value;
        self.registers.flags = FlagsRegister {
            zero: new_value == 0,
            subtract: false,
            half_carry: false,
            carry: false,
        };
        new_value
    }

    /// XOR: bitwise exclusive or of A and the value; flags per `spec_xor`.
    pub fn xor(&mut self, value: u8) -> (new_value: u8)
        ensures
            new_value == spec_xor(old(self).registers.a, value).0,
            sets_flags_only(*old(self), *final(self), spec_xor(old(self).registers.a, value).1),
    {
        let new_value = self.registers.a ^ value;
        self.registers.flags = FlagsRegister {
            zero: new_value == 0,
            subtract: false,
            half_carry: false,
            carry: false,
        };
        new_value
    }

    /// CP: SUB's flags without storing the result; A is untouched. Returns
    /// the would-be difference.
    pub fn cp(&mut self, value: u8) -> (new_value: u8)
        ensures
            new_value == spec_sub(old(self).registers.a, value).0,
            sets_flags_only(*old(self), *final(self), spec_sub(old(self).registers.a, value).1),
    {
        let a = self.registers.a;
        let new_value = if a >= value {
            a - value
        } else {
            (a as u16 + 256 - value as u16) as u8
        };
        self.registers.flags = FlagsRegister {
            zero: new_value == 0,
            subtract: true,
            half_carry: a % 16 < value % 16,
            carry: value > a,
        };
        new_value
    }

    /// INC: the value plus one, wrapping; Z, N and H per `spec_inc`, and
    /// the carry flag untouched.
    pub fn inc(&mut self, value: u8) -> (new_value: u8)
        ensures
            new_value == spec_inc(value, old(self).registers.flags).0,
            sets_flags_only(*old(self), *final(self), spec_inc(value, old(self).registers.flags).1),
    {
        let new_value = if value == 255 {
            0
        } else {
            value + 1
        };
        self.registers.flags = FlagsRegister {
            zero: new_value == 0,
            subtract: false,
            half_carry: value % 16 == 15,
            carry: self.registers.flags.carry,
        };
        new_value
    }

    /// DEC: the value minus one, wrapping; Z, N and H per `spec_dec`, and
    /// the carry flag untouched.
    pub fn dec(&mut self, value: u8) -> (new_value: u8)
        ensures
            new_value == spec_dec(value, old(self).registers.flags).0,
            sets_flags_only(*old(self), *final(self), spec_dec(value, old(self).registers.flags).1),
    {
        let new_value = if value == 0 {
            255
        } else {
            value - 1
        };
        self.registers.flags = FlagsRegister {
            zero: new_value == 0,
            subtract: true,
            half_carry: value % 16 == 0,
            carry: self.registers.flags.carry,
        };
        new_value
    }

    /// ADD HL: add the 16-bit value to HL, wrapping at 16 bits; Z untouched,
    /// H at the bit-11 boundary, C at the bit-15 boundary. Returns the
    /// wrapped sum; HL itself is written by the caller.
    pub fn addhl(&mut self, value: u16) -> (new_value: u16)
        ensures
            new_value == spec_addhl(spec_hl(old(self).registers), value, old(self).registers.flags).0,
            sets_flags_only(
                *old(self),
                *final(self),
                spec_addhl(spec_hl(old(self).registers), value, old(self).registers.flags).1,
            ),
    {
        let hl = self.registers.get_hl();
        let sum: u32 = hl as u32 + value as u32;
        let new_value = (sum % 0x10000) as u16;
        self.registers.flags = FlagsRegister {
            zero: self.registers.flags.zero,
            subtract: false,
            half_carry: hl % 4096 + value % 4096 > 4095,
            carry: sum > 0xFFFF,
        };
        new_value
    }

    /// CCF: toggle the carry flag; N and H cleared, Z untouched.
    pub fn ccf(&mut self)
        ensures
            sets_flags_only(
                *old(self),
                *final(self),
                FlagsRegister {
                    zero: old(self).registers.flags.zero,
                    subtract: false,
                    half_carry: false,
                    carry: !old(self).registers.flags.carry,
                },
            ),
    {
        self.registers.flags = FlagsRegister {
            zero: self.registers.flags.zero,
            subtract: false,
            half_carry: false,
            carry: !self.registers.flags.carry,
        };
    }

    /// SCF: set the carry flag; N and H cleared, Z untouched.
    pub fn scf(&mut self)
        ensures
            sets_flags_only(
                *old(self),
                *final(self),
                FlagsRegister {
                    zero: old(self).registers.flags.zero,
                    subtract: false,
                    half_carry: false,
                    carry: true,
                },
            ),
    {
        self.registers.flags = FlagsRegister {
            zero: self.registers.flags.zero,
            subtract: false,
            half_carry: false,
            carry: true,
        };
    }

    /// RRA: rotate A right through the carry flag; Z, N and H cleared.
    pub fn rra(&mut self)
        ensures
            sets_a_and_flags(
                *old(self),
                *final(self),
                spec_rr(old(self).registers.a, old(self).registers.flags.carry).0,
                spec_rotate_a_flags(old(self).registers.a % 2 == 1),
            ),
    {
        let a = self.registers.a;
        let carry_in = self.registers.flags.carry;
        self.registers.flags = FlagsRegister {
            zero: false,
            subtract: false,
            half_carry: false,
            carry: a % 2 == 1,
        };
        self.registers.a = a / 2 + if carry_in {
            128
        } else {
            0
        };
    }

    /// RLA: rotate A left through the carry flag; Z, N and H cleared.
    pub fn rla(&mut self)
        ensures
            sets_a_and_flags(
                *old(self),
                *final(self),
                spec_rl(old(self).registers.a, old(self).registers.flags.carry).0,
                spec_rotate_a_flags(old(self).registers.a >= 128),
            ),
    {
        let a = self.registers.a;
        let carry_in = self.registers.flags.carry;
        self.registers.flags = FlagsRegister {
            zero: false,
            subtract: false,
            half_carry: false,
            carry: a >= 128,
        };
        self.registers.a = (a % 128) * 2 + if carry_in {
            1
        } else {
            0
        };
    }

    /// RRCA: rotate A right; bit 0 goes both to the carry flag and to bit 7.
    /// Z, N and H cleared.
    pub fn rrca(&mut self)
        ensures
            sets_a_and_flags(
                *old(self),
                *final(self),
                spec_rrc(old(self).registers.a).0,
                spec_rotate_a_flags(old(self).registers.a % 2 == 1),
            ),
    {
        let a = self.registers.a;
        self.registers.flags = FlagsRegister {
            zero: false,
            subtract: false,
            half_carry: false,
            carry: a % 2 == 1,
        };
        self.registers.a = a / 2 + (a % 2) * 128;
    }

    /// Rotate A left; bit 7 goes both to the carry flag and to bit 0. Z, N
    /// and H cleared. (The circular left rotate of A, RLCA.)
    pub fn rrla(&mut self)
        ensures
            sets_a_and_flags(
                *old(self),
                *final(self),
                spec_rlc(old(self).registers.a).0,
                spec_rotate_a_flags(old(self).registers.a >= 128),
            ),
    {
        let a = self.registers.a;
        self.registers.flags = FlagsRegister {
            zero: false,
            subtract: false,
            half_carry: false,
            carry: a >= 128,
        };
        self.registers.a = (a % 128) * 2 + a / 128;
    }

    /// CPL: complement every bit of A; N and H set, Z and C untouched.
    pub fn cpl(&mut self)
        ensures
            sets_a_and_flags(
                *old(self),
                *final(self),
                !old(self).registers.a,
                FlagsRegister {
                    zero: old(self).registers.flags.zero,
                    subtract: true,
                    half_carry: true,
                    carry: old(self).registers.flags.carry,
                },
            ),
    {
        self.registers.a = !self.registers.a;
        self.registers.flags = FlagsRegister {
            zero: self.registers.flags.zero,
            subtract: true,
            half_carry: true,
            carry: self.registers.flags.carry,
        };
    }

    /// BIT: test one bit of the value; Z set iff the bit is clear, N
    /// cleared, H set, C untouched. Nothing is written back.
    pub fn bit(&mut self, bit_index: u8, value: u8)
        requires
            bit_index < 8,
        ensures
            sets_flags_only(
                *old(self),
                *final(self),
                spec_bit_flags(bit_index, value, old(self).registers.flags),
            ),
    {
        let mask: u8 = 1u8 << bit_index;
        self.registers.flags = FlagsRegister {
            zero: value & mask == 0,
            subtract: false,
            half_carry: true,
            carry: self.registers.flags.carry,
        };
    }

    /// RES: the value with one bit cleared; no flag changes, nothing else
    /// moves.
    pub fn reset(&mut self, bit_index: u8, value: u8) -> (new_value: u8)
        requires
            bit_index < 8,
        ensures
            new_value == spec_res(bit_index, value),
            *final(self) == *old(self),
    {
        value & !(1u8 << bit_index)
    }

    /// SET: the value with one bit set; no flag changes, nothing else moves.
    pub fn set(&mut self, bit_index: u8, value: u8) -> (new_value: u8)
        requires
            bit_index < 8,
        ensures
            new_value == spec_set(bit_index, value),
            *final(self) == *old(self),
    {
        value | (1u8 << bit_index)
    }

    /// SRL: shift the value right by one; flags per `spec_srl`.
    pub fn srl(&mut self, value: u8) -> (new_value: u8)
        ensures
            new_value == spec_srl(value).0,
            sets_flags_only(*old(self), *final(self), spec_srl(value).1),
    {
        let new_value = value / 2;
        self.registers.flags = FlagsRegister {
            zero: new_value == 0,
            subtract: false,
            half_carry: false,
            carry: value % 2 == 1,
        };
        new_value
    }

    /// RR: rotate the value right through the carry flag; flags per
    /// `spec_rr`.
    pub fn rr(&mut self, value: u8) -> (new_value: u8)
        ensures
            new_value == spec_rr(value, old(self).registers.flags.carry).0,
            sets_flags_only(
                *old(self),
                *final(self),
                spec_rr(value, old(self).registers.flags.carry).1,
            ),
    {
        let carry_in = self.registers.flags.carry;
        let new_value = value / 2 + if carry_in {
            128
        } else {
            0
        };
        self.registers.flags = FlagsRegister {
            zero: new_value == 0,
            subtract: false,
            half_carry: false,
            carry: value % 2 == 1,
        };
        new_value
    }

    /// RL: rotate the value left through the carry flag; flags per
    /// `spec_rl`.
    pub fn rl(&mut self, value: u8) -> (new_value: u8)
        ensures
            new_value == spec_rl(value, old(self).registers.flags.carry).0,
            sets_flags_only(
                *old(self),
                *final(self),
                spec_rl(value, old(self).registers.flags.carry).1,
            ),
    {
        let carry_in = self.registers.flags.carry;
        let new_value = (value % 128) * 2 + if carry_in {
            1
        } else {
            0
        };
        self.registers.flags = FlagsRegister {
            zero: new_value == 0,
            subtract: false,
            half_carry: false,
            carry: value >= 128,
        };
        new_value
    }

    /// RRC: rotate the value right; bit 0 goes both to the carry flag and
    /// to bit 7; flags per `spec_rrc`.
    pub fn rrc(&mut self, value: u8) -> (new_value: u8)
        ensures
            new_value == spec_rrc(value).0,
            sets_flags_only(*old(self), *final(self), spec_rrc(value).1),
    {
        let new_value = value / 2 + (value % 2) * 128;
        self.registers.flags = FlagsRegister {
            zero: new_value == 0,
            subtract: false,
            half_carry: false,
            carry: value % 2 == 1,
        };
        new_value
    }

    /// RLC: rotate the value left; bit 7 goes both to the carry flag and to
    /// bit 0; flags per `spec_rlc`.
    pub fn rlc(&mut self, value: u8) -> (new_value: u8)
        ensures
            new_value == spec_rlc(value).0,
            sets_flags_only(*old(self), *final(self), spec_rlc(value).1),
    {
        let new_value = (value % 128) * 2 + value / 128;
        self.registers.flags = FlagsRegister {
            zero: new_value == 0,
            subtract: false,
            half_carry: false,
            carry: value >= 128,
        };
        new_value
    }

    /// SRA: shift the value right by one keeping the sign bit; flags per
    /// `spec_sra`.
    pub fn sra(&mut self, value: u8) -> (new_value: u8)
        ensures
            new_value == spec_sra(value).0,
            sets_flags_only(*old(self), *final(self), spec_sra(value).1),
    {
        let new_value = value / 2 + if value >= 128 {
            128
        } else {
            0
        };
        self.registers.flags = FlagsRegister {
            zero: new_value == 0,
            subtract: false,
            half_carry: false,
            carry: value % 2 == 1,
        };
        new_value
    }

    /// SLA: shift the value left by one; flags per `spec_sla`.
    pub fn sla(&mut self, value: u8) -> (new_value: u8)
        ensures
            new_value == spec_sla(value).0,
            sets_flags_only(*old(self), *final(self), spec_sla(value).1),
    {
        let new_value = (value % 128) * 2;
        self.registers.flags = FlagsRegister {
            zero: new_value == 0,
            subtract: false,
            half_carry: false,
            carry: value >= 128,
        };
        new_value
    }

    /// SWAP: exchange the two nibbles of the value; flags per `spec_swap`.
    pub fn swap(&mut self, value: u8) -> (new_value: u8)
        ensures
            new_value == spec_swap(value).0,
            sets_flags_only(*old(self), *final(self), spec_swap(value).1),
    {
        let new_value = (value % 16) * 16 + value / 16;
        self.registers.flags = FlagsRegister {
            zero: new_value == 0,
            subtract: false,
            half_carry: false,
            carry: false,
        };
        new_value
    }
}

/// The address one past `pc`, wrapping around the 16-bit space.
fn next_addr(pc: u16) -> (r: u16)
    ensures
        r == spec_next_addr(pc),
{
    if pc == 0xFFFF {
        0
    } else {
        pc + 1
    }
}


/// Every instruction advances the program counter by exactly its own length,
/// wrapping around the 16-bit space.
pub proof fn lemma_execute_next_pc(s: CpuView, i: Instruction)
    ensures
        spec_execute(s, i).next_pc == ((s.pc + i.spec_length()) % 0x10000) as u16,
{
}

// ---------------------------------------------------------------------------
// Laws.
// ---------------------------------------------------------------------------

/// Law: INC never touches the carry flag, for any starting value of the
/// target; and in the wrap case, where the target held 0xFF, the result is
/// zero with the zero and half-carry flags set.
pub proof fn lemma_inc_preserves_carry(s: CpuView, t: PrefixTarget)
    ensures
        spec_execute(s, Instruction::INC(t)).regs.flags.carry == s.regs.flags.carry,
        spec_read_prefix(s, t) == 0xFF ==> spec_inc(spec_read_prefix(s, t), s.regs.flags).0 == 0,
        spec_read_prefix(s, t) == 0xFF ==> spec_execute(s, Instruction::INC(t)).regs.flags.zero,
        spec_read_prefix(s, t) == 0xFF ==> spec_execute(
            s,
            Instruction::INC(t),
        ).regs.flags.half_carry,
{
}

/// Law: CP never writes the accumulator or any other register byte; it only
/// sets the flags a subtraction would set.
pub proof fn lemma_cp_preserves_a(s: CpuView, t: ArithmeticTarget)
    ensures
        spec_execute(s, Instruction::CP(t)).regs == (Registers {
            flags: spec_sub(s.regs.a, spec_read_arith(s, t)).1,
            ..s.regs
        }),
        spec_execute(s, Instruction::CP(t)).regs.a == s.regs.a,
{
}

/// Law: one step is a pure function of the machine state. Two machines in
/// identical states step to identical outcomes: same registers, same
/// memory, same program counter, or the very same fault.
pub proof fn lemma_step_deterministic(s1: CpuView, s2: CpuView)
    requires
        s1 == s2,
    ensures
        spec_step(s1) == spec_step(s2),
{
}

/// Law: a step faults exactly on the base-table slots that are absent, and
/// the fault names the offending byte and the program counter; after the
/// extended prefix a step never faults, since every extended slot is
/// defined.
pub proof fn lemma_step_fault(s: CpuView)
    ensures
        s.mem[s.pc as int] != PREFIX_OPCODE ==> (spec_step(s) is Err <==> spec_from_byte(
            s.mem[s.pc as int],
            false,
        ) is None),
        s.mem[s.pc as int] == PREFIX_OPCODE ==> spec_step(s) is Ok,
        spec_step(s) matches Err(f) ==> f == (StepFault {
            opcode: s.mem[s.pc as int],
            address: s.pc,
        }),
{
    let opcode = s.mem[s.pc as int];
    if opcode == PREFIX_OPCODE {
        lemma_decode_defined_slots(s.mem[spec_next_addr(s.pc) as int], true);
    }
}

} // verus!
