//! The instruction set and the opcode decoder. A raw opcode byte, together
//! with a flag saying whether the preceding byte was the extended-opcode
//! prefix, maps to a structured instruction carrying its operand selectors.
//! Decoding is a pure function of the byte and the flag; slots outside the
//! covered classes decode to `None`, never to a crash.

use vstd::prelude::*;

verus! {

/// The extended-prefix opcode: the byte after it is looked up in the
/// extended table rather than the base table.
pub const PREFIX_OPCODE: u8 = 0xCB;

/// Where an 8-bit arithmetic or logic operand comes from: one of the eight
/// registers, the byte in memory at the address in HL, or the immediate byte
/// following the opcode.
#[derive(Clone, Copy, PartialEq, Eq, Structural, Debug)]
pub enum ArithmeticTarget {
    A,
    B,
    C,
    D,
    E,
    H,
    L,
    HLI,
    D8,
}

/// Where an extended-table instruction (and INC/DEC) reads and writes its
/// operand: one of the eight registers or the byte in memory at HL. These
/// instructions never take an immediate.
#[derive(Clone, Copy, PartialEq, Eq, Structural, Debug)]
pub enum PrefixTarget {
    A,
    B,
    C,
    D,
    E,
    H,
    L,
    HLI,
}

/// The 16-bit register pairs that can be added to HL.
#[derive(Clone, Copy, PartialEq, Eq, Structural, Debug)]
pub enum PairTarget {
    BC,
    DE,
    HL,
}

/// One decoded instruction: the semantic class and its operand selectors.
/// Instructions are immutable values, decoded fresh each cycle.
#[derive(Clone, Copy, PartialEq, Eq, Structural, Debug)]
pub enum Instruction {
    ADD(ArithmeticTarget),
    ADC(ArithmeticTarget),
    SUB(ArithmeticTarget),
    SBC(ArithmeticTarget),
    AND(ArithmeticTarget),
    OR(ArithmeticTarget),
    XOR(ArithmeticTarget),
    CP(ArithmeticTarget),
    INC(PrefixTarget),
    DEC(PrefixTarget),
    ADDHL(PairTarget),
    CCF,
    SCF,
    CPL,
    RRA,
    RLA,
    RRCA,
    RLCA,
    RLC(PrefixTarget),
    RRC(PrefixTarget),
    RL(PrefixTarget),
    RR(PrefixTarget),
    SLA(PrefixTarget),
    SRA(PrefixTarget),
    SRL(PrefixTarget),
    SWAP(PrefixTarget),
    BIT(u8, PrefixTarget),
    RES(u8, PrefixTarget),
    SET(u8, PrefixTarget),
}

/// The operand slot a three-bit field of an opcode selects, in the
/// instruction set's fixed order B, C, D, E, H, L, (HL), A.
pub open spec fn spec_prefix_target(k: u8) -> PrefixTarget {
    if k == 0 {
        PrefixTarget::B
    } else if k == 1 {
        PrefixTarget::C
    } else if k == 2 {
        PrefixTarget::D
    } else if k == 3 {
        PrefixTarget::E
    } else if k == 4 {
        PrefixTarget::H
    } else if k == 5 {
        PrefixTarget::L
    } else if k == 6 {
        PrefixTarget::HLI
    } else {
        PrefixTarget::A
    }
}

/// The same three-bit operand order, as an 8-bit arithmetic target.
pub open spec fn spec_arith_target(k: u8) -> ArithmeticTarget {
    if k == 0 {
        ArithmeticTarget::B
    } else if k == 1 {
        ArithmeticTarget::C
    } else if k == 2 {
        ArithmeticTarget::D
    } else if k == 3 {
        ArithmeticTarget::E
    } else if k == 4 {
        ArithmeticTarget::H
    } else if k == 5 {
        ArithmeticTarget::L
    } else if k == 6 {
        ArithmeticTarget::HLI
    } else {
        ArithmeticTarget::A
    }
}

/// The accumulator arithmetic class a three-bit field selects, in the fixed
/// order ADD, ADC, SUB, SBC, AND, XOR, OR, CP.
pub open spec fn spec_alu_instruction(k: u8, t: ArithmeticTarget) -> Instruction {
    if k == 0 {
        Instruction::ADD(t)
    } else if k == 1 {
        Instruction::ADC(t)
    } else if k == 2 {
        Instruction::SUB(t)
    } else if k == 3 {
        Instruction::SBC(t)
    } else if k == 4 {
        Instruction::AND(t)
    } else if k == 5 {
        Instruction::XOR(t)
    } else if k == 6 {
        Instruction::OR(t)
    } else {
        Instruction::CP(t)
    }
}

/// The extended table. Its 256 slots are fully regular: the low three bits
/// select the operand, bits 5-3 select the rotate/shift class or the bit
/// index, and the top two bits split the table into rotates/shifts, BIT,
/// RES and SET. Every slot is defined.
pub open spec fn spec_from_byte_prefixed(byte: u8) -> Option<Instruction> {
    let t = spec_prefix_target(byte % 8);
    let k = byte / 8 % 8;
    if byte < 0x40 {
        Some(
            if k == 0 {
                Instruction::RLC(t)
            } else if k == 1 {
                Instruction::RRC(t)
            } else if k == 2 {
                Instruction::RL(t)
            } else if k == 3 {
                Instruction::RR(t)
            } else if k == 4 {
                Instruction::SLA(t)
            } else if k == 5 {
                Instruction::SRA(t)
            } else if k == 6 {
                Instruction::SWAP(t)
            } else {
                Instruction::SRL(t)
            },
        )
    } else if byte < 0x80 {
        Some(Instruction::BIT(k, t))
    } else if byte < 0xC0 {
        Some(Instruction::RES(k, t))
    } else {
        Some(Instruction::SET(k, t))
    }
}

/// The base table, covering the arithmetic/logic, INC/DEC, 16-bit add and
/// accumulator rotate/miscellaneous classes. Slots for classes outside this
/// core (loads, stores, control flow, ...) are absent.
pub open spec fn spec_from_byte_not_prefixed(byte: u8) -> Option<Instruction> {
    if byte < 0x40 {
        if byte % 8 == 4 {
            Some(Instruction::INC(spec_prefix_target(byte / 8)))
        } else if byte % 8 == 5 {
            Some(Instruction::DEC(spec_prefix_target(byte / 8)))
        } else if byte == 0x07 {
            Some(Instruction::RLCA)
        } else if byte == 0x0F {
            Some(Instruction::RRCA)
        } else if byte == 0x17 {
            Some(Instruction::RLA)
        } else if byte == 0x1F {
            Some(Instruction::RRA)
        } else if byte == 0x2F {
            Some(Instruction::CPL)
        } else if byte == 0x37 {
            Some(Instruction::SCF)
        } else if byte == 0x3F {
            Some(Instruction::CCF)
        } else if byte == 0x09 {
            Some(Instruction::ADDHL(PairTarget::BC))
        } else if byte == 0x19 {
            Some(Instruction::ADDHL(PairTarget::DE))
        } else if byte == 0x29 {
            Some(Instruction::ADDHL(PairTarget::HL))
        } else {
            None
        }
    } else if byte < 0x80 {
        None
    } else if byte < 0xC0 {
        Some(spec_alu_instruction(byte / 8 % 8, spec_arith_target(byte % 8)))
    } else if byte % 8 == 6 {
        Some(spec_alu_instruction(byte / 8 % 8, ArithmeticTarget::D8))
    } else {
        None
    }
}

/// Decode: the table is selected by whether the preceding fetched byte was
/// the extended-opcode prefix.
pub open spec fn spec_from_byte(byte: u8, prefixed: bool) -> Option<Instruction> {
    if prefixed {
        spec_from_byte_prefixed(byte)
    } else {
        spec_from_byte_not_prefixed(byte)
    }
}

impl Instruction {
    /// A decodable instruction carries a bit index below 8 in its BIT, RES
    /// and SET forms; every other form is unconditionally well formed.
    pub open spec fn wf(self) -> bool {
        match self {
            Instruction::BIT(n, _) => n < 8,
            Instruction::RES(n, _) => n < 8,
            Instruction::SET(n, _) => n < 8,
            _ => true,
        }
    }

    /// How many bytes of the instruction stream the instruction occupies:
    /// its opcode, the extended prefix where it has one, and its immediate
    /// operand where it carries one.
    pub open spec fn spec_length(self) -> u16 {
        match self {
            Instruction::ADD(t) | Instruction::ADC(t) | Instruction::SUB(t)
            | Instruction::SBC(t) | Instruction::AND(t) | Instruction::OR(t)
            | Instruction::XOR(t) | Instruction::CP(t) => if t == ArithmeticTarget::D8 {
                2
            } else {
                1
            },
            Instruction::INC(_) | Instruction::DEC(_) | Instruction::ADDHL(_) => 1,
            Instruction::CCF | Instruction::SCF | Instruction::CPL | Instruction::RRA
            | Instruction::RLA | Instruction::RRCA | Instruction::RLCA => 1,
            Instruction::RLC(_) | Instruction::RRC(_) | Instruction::RL(_) | Instruction::RR(_)
            | Instruction::SLA(_) | Instruction::SRA(_) | Instruction::SRL(_)
            | Instruction::SWAP(_) | Instruction::BIT(_, _) | Instruction::RES(_, _)
            | Instruction::SET(_, _) => 2,
        }
    }

    /// Executable form of `spec_length`.
    pub fn length(self) -> (n: u16)
        ensures
            n == self.spec_length(),
    {
        match self {
            Instruction::ADD(t) | Instruction::ADC(t) | Instruction::SUB(t)
            | Instruction::SBC(t) | Instruction::AND(t) | Instruction::OR(t)
            | Instruction::XOR(t) | Instruction::CP(t) => if t == ArithmeticTarget::D8 {
                2
            } else {
                1
            },
            Instruction::INC(_) | Instruction::DEC(_) | Instruction::ADDHL(_) => 1,
            Instruction::CCF | Instruction::SCF | Instruction::CPL | Instruction::RRA
            | Instruction::RLA | Instruction::RRCA | Instruction::RLCA => 1,
            Instruction::RLC(_) | Instruction::RRC(_) | Instruction::RL(_) | Instruction::RR(_)
            | Instruction::SLA(_) | Instruction::SRA(_) | Instruction::SRL(_)
            | Instruction::SWAP(_) | Instruction::BIT(_, _) | Instruction::RES(_, _)
            | Instruction::SET(_, _) => 2,
        }
    }

    /// The machine cycles the instruction consumes: four for a plain
    /// register operation, more where memory or an immediate is involved.
    pub open spec fn spec_cycles(self) -> u8 {
        match self {
            Instruction::ADD(t) | Instruction::ADC(t) | Instruction::SUB(t)
            | Instruction::SBC(t) | Instruction::AND(t) | Instruction::OR(t)
            | Instruction::XOR(t) | Instruction::CP(t) => if t == ArithmeticTarget::D8 || t
                == ArithmeticTarget::HLI {
                8
            } else {
                4
            },
            Instruction::INC(t) | Instruction::DEC(t) => if t == PrefixTarget::HLI {
                12
            } else {
                4
            },
            Instruction::ADDHL(_) => 8,
            Instruction::CCF | Instruction::SCF | Instruction::CPL | Instruction::RRA
            | Instruction::RLA | Instruction::RRCA | Instruction::RLCA => 4,
            Instruction::RLC(t) | Instruction::RRC(t) | Instruction::RL(t) | Instruction::RR(t)
            | Instruction::SLA(t) | Instruction::SRA(t) | Instruction::SRL(t)
            | Instruction::SWAP(t) | Instruction::RES(_, t) | Instruction::SET(_, t) => if t
                == PrefixTarget::HLI {
                16
            } else {
                8
            },
            Instruction::BIT(_, t) => if t == PrefixTarget::HLI {
                12
            } else {
                8
            },
        }
    }

    /// Executable form of `spec_cycles`.
    pub fn cycles(self) -> (n: u8)
        ensures
            n == self.spec_cycles(),
    {
        match self {
            Instruction::ADD(t) | Instruction::ADC(t) | Instruction::SUB(t)
            | Instruction::SBC(t) | Instruction::AND(t) | Instruction::OR(t)
            | Instruction::XOR(t) | Instruction::CP(t) => if t == ArithmeticTarget::D8 || t
                == ArithmeticTarget::HLI {
                8
            } else {
                4
            },
            Instruction::INC(t) | Instruction::DEC(t) => if t == PrefixTarget::HLI {
                12
            } else {
                4
            },
            Instruction::ADDHL(_) => 8,
            Instruction::CCF | Instruction::SCF | Instruction::CPL | Instruction::RRA
            | Instruction::RLA | Instruction::RRCA | Instruction::RLCA => 4,
            Instruction::RLC(t) | Instruction::RRC(t) | Instruction::RL(t) | Instruction::RR(t)
            | Instruction::SLA(t) | Instruction::SRA(t) | Instruction::SRL(t)
            | Instruction::SWAP(t) | Instruction::RES(_, t) | Instruction::SET(_, t) => if t
                == PrefixTarget::HLI {
                16
            } else {
                8
            },
            Instruction::BIT(_, t) => if t == PrefixTarget::HLI {
                12
            } else {
                8
            },
        }
    }

    /// Decode one opcode byte against the table the prefix flag selects.
    pub fn from_byte(byte: u8, prefixed: bool) -> (instruction: Option<Instruction>)
        ensures
            instruction == spec_from_byte(byte, prefixed),
    {
        if prefixed {
            Instruction::from_byte_prefixed(byte)
        } else {
            Instruction::from_byte_not_prefixed(byte)
        }
    }

    /// Decode one byte of the extended table. Every slot is defined.
    pub fn from_byte_prefixed(byte: u8) -> (instruction: Option<Instruction>)
        ensures
            instruction == spec_from_byte_prefixed(byte),
    {
        let t = prefix_target_of(byte % 8);
        let k: u8 = byte / 8 % 8;
        if byte < 0x40 {
            Some(
                if k == 0 {
                    Instruction::RLC(t)
                } else if k == 1 {
                    Instruction::RRC(t)
                } else if k == 2 {
                    Instruction::RL(t)
                } else if k == 3 {
                    Instruction::RR(t)
                } else if k == 4 {
                    Instruction::SLA(t)
                } else if k == 5 {
                    Instruction::SRA(t)
                } else if k == 6 {
                    Instruction::SWAP(t)
                } else {
                    Instruction::SRL(t)
                },
            )
        } else if byte < 0x80 {
            Some(Instruction::BIT(k, t))
        } else if byte < 0xC0 {
            Some(Instruction::RES(k, t))
        } else {
            Some(Instruction::SET(k, t))
        }
    }

    /// Decode one byte of the base table.
    pub fn from_byte_not_prefixed(byte: u8) -> (instruction: Option<Instruction>)
        ensures
            instruction == spec_from_byte_not_prefixed(byte),
    {
        if byte < 0x40 {
            if byte % 8 == 4 {
                Some(Instruction::INC(prefix_target_of(byte / 8)))
            } else if byte % 8 == 5 {
                Some(Instruction::DEC(prefix_target_of(byte / 8)))
            } else if byte == 0x07 {
                Some(Instruction::RLCA)
            } else if byte == 0x0F {
                Some(Instruction::RRCA)
            } else if byte == 0x17 {
                Some(Instruction::RLA)
            } else if byte == 0x1F {
                Some(Instruction::RRA)
            } else if byte == 0x2F {
                Some(Instruction::CPL)
            } else if byte == 0x37 {
                Some(Instruction::SCF)
            } else if byte == 0x3F {
                Some(Instruction::CCF)
            } else if byte == 0x09 {
                Some(Instruction::ADDHL(PairTarget::BC))
            } else if byte == 0x19 {
                Some(Instruction::ADDHL(PairTarget::DE))
            } else if byte == 0x29 {
                Some(Instruction::ADDHL(PairTarget::HL))
            } else {
                None
            }
        } else if byte < 0x80 {
            None
        } else if byte < 0xC0 {
            Some(alu_instruction_of(byte / 8 % 8, arith_target_of(byte % 8)))
        } else if byte % 8 == 6 {
            Some(alu_instruction_of(byte / 8 % 8, ArithmeticTarget::D8))
        } else {
            None
        }
    }
}

/// Executable form of `spec_prefix_target`.
fn prefix_target_of(k: u8) -> (t: PrefixTarget)
    ensures
        t == spec_prefix_target(k),
{
    if k == 0 {
        PrefixTarget::B
    } else if k == 1 {
        PrefixTarget::C
    } else if k == 2 {
        PrefixTarget::D
    } else if k == 3 {
        PrefixTarget::E
    } else if k == 4 {
        PrefixTarget::H
    } else if k == 5 {
        PrefixTarget::L
    } else if k == 6 {
        PrefixTarget::HLI
    } else {
        PrefixTarget::A
    }
}

/// Executable form of `spec_arith_target`.
fn arith_target_of(k: u8) -> (t: ArithmeticTarget)
    ensures
        t == spec_arith_target(k),
{
    if k == 0 {
        ArithmeticTarget::B
    } else if k == 1 {
        ArithmeticTarget::C
    } else if k == 2 {
        ArithmeticTarget::D
    } else if k == 3 {
        ArithmeticTarget::E
    } else if k == 4 {
        ArithmeticTarget::H
    } else if k == 5 {
        ArithmeticTarget::L
    } else if k == 6 {
        ArithmeticTarget::HLI
    } else {
        ArithmeticTarget::A
    }
}

/// Executable form of `spec_alu_instruction`.
fn alu_instruction_of(k: u8, t: ArithmeticTarget) -> (i: Instruction)
    ensures
        i == spec_alu_instruction(k, t),
{
    if k == 0 {
        Instruction::ADD(t)
    } else if k == 1 {
        Instruction::ADC(t)
    } else if k == 2 {
        Instruction::SUB(t)
    } else if k == 3 {
        Instruction::SBC(t)
    } else if k == 4 {
        Instruction::AND(t)
    } else if k == 5 {
        Instruction::XOR(t)
    } else if k == 6 {
        Instruction::OR(t)
    } else {
        Instruction::CP(t)
    }
}

/// Law: the table has a defined slot wherever the decoder answers at all,
/// and what it answers is well formed. Every slot of the extended table is
/// defined, and every instruction either table yields carries operand
/// selectors from the declared target sets and a bit index below 8.
pub proof fn lemma_decode_defined_slots(byte: u8, prefixed: bool)
    ensures
        prefixed ==> spec_from_byte(byte, prefixed) is Some,
        spec_from_byte(byte, prefixed) matches Some(i) ==> i.wf(),
{
}

} // verus!
