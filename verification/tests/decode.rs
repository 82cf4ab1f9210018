use dmg_cpu::instructions::ArithmeticTarget;
use dmg_cpu::instructions::Instruction;
use dmg_cpu::instructions::PairTarget;
use dmg_cpu::instructions::PrefixTarget;
use dmg_cpu::instructions::PREFIX_OPCODE;

/// The base-table slots the core defines: INC/DEC, the accumulator
/// rotate/miscellaneous group, ADD HL, the register ALU block and the
/// immediate ALU column.
fn base_slot_defined(byte: u8) -> bool {
    if byte < 0x40 {
        byte % 8 == 4
            || byte % 8 == 5
            || [0x07, 0x0F, 0x17, 0x1F, 0x2F, 0x37, 0x3F, 0x09, 0x19, 0x29].contains(&byte)
    } else if byte < 0x80 {
        false
    } else if byte < 0xC0 {
        true
    } else {
        byte % 8 == 6
    }
}

#[test]
fn extended_table_is_total() {
    for byte in 0u16..256 {
        let decoded = Instruction::from_byte(byte as u8, true);
        assert!(decoded.is_some(), "extended slot {:#04X} must be defined", byte);
    }
}

#[test]
fn base_table_covers_exactly_the_defined_slots() {
    for byte in 0u16..256 {
        let decoded = Instruction::from_byte(byte as u8, false);
        assert_eq!(
            decoded.is_some(),
            base_slot_defined(byte as u8),
            "base slot {:#04X}",
            byte
        );
    }
}

#[test]
fn prefix_opcode_itself_has_no_base_entry() {
    assert_eq!(PREFIX_OPCODE, 0xCB);
    assert_eq!(Instruction::from_byte(PREFIX_OPCODE, false), None);
}

#[test]
fn decode_alu_block_targets() {
    assert_eq!(Instruction::from_byte(0x80, false), Some(Instruction::ADD(ArithmeticTarget::B)));
    assert_eq!(Instruction::from_byte(0x81, false), Some(Instruction::ADD(ArithmeticTarget::C)));
    assert_eq!(Instruction::from_byte(0x86, false), Some(Instruction::ADD(ArithmeticTarget::HLI)));
    assert_eq!(Instruction::from_byte(0x87, false), Some(Instruction::ADD(ArithmeticTarget::A)));
    assert_eq!(Instruction::from_byte(0x8E, false), Some(Instruction::ADC(ArithmeticTarget::HLI)));
    assert_eq!(Instruction::from_byte(0x90, false), Some(Instruction::SUB(ArithmeticTarget::B)));
    assert_eq!(Instruction::from_byte(0x9F, false), Some(Instruction::SBC(ArithmeticTarget::A)));
    assert_eq!(Instruction::from_byte(0xA2, false), Some(Instruction::AND(ArithmeticTarget::D)));
    assert_eq!(Instruction::from_byte(0xAB, false), Some(Instruction::XOR(ArithmeticTarget::E)));
    assert_eq!(Instruction::from_byte(0xB4, false), Some(Instruction::OR(ArithmeticTarget::H)));
    assert_eq!(Instruction::from_byte(0xBD, false), Some(Instruction::CP(ArithmeticTarget::L)));
}

#[test]
fn decode_immediate_column() {
    assert_eq!(Instruction::from_byte(0xC6, false), Some(Instruction::ADD(ArithmeticTarget::D8)));
    assert_eq!(Instruction::from_byte(0xCE, false), Some(Instruction::ADC(ArithmeticTarget::D8)));
    assert_eq!(Instruction::from_byte(0xD6, false), Some(Instruction::SUB(ArithmeticTarget::D8)));
    assert_eq!(Instruction::from_byte(0xDE, false), Some(Instruction::SBC(ArithmeticTarget::D8)));
    assert_eq!(Instruction::from_byte(0xE6, false), Some(Instruction::AND(ArithmeticTarget::D8)));
    assert_eq!(Instruction::from_byte(0xEE, false), Some(Instruction::XOR(ArithmeticTarget::D8)));
    assert_eq!(Instruction::from_byte(0xF6, false), Some(Instruction::OR(ArithmeticTarget::D8)));
    assert_eq!(Instruction::from_byte(0xFE, false), Some(Instruction::CP(ArithmeticTarget::D8)));
}

#[test]
fn decode_inc_dec_and_misc() {
    assert_eq!(Instruction::from_byte(0x04, false), Some(Instruction::INC(PrefixTarget::B)));
    assert_eq!(Instruction::from_byte(0x34, false), Some(Instruction::INC(PrefixTarget::HLI)));
    assert_eq!(Instruction::from_byte(0x3C, false), Some(Instruction::INC(PrefixTarget::A)));
    assert_eq!(Instruction::from_byte(0x05, false), Some(Instruction::DEC(PrefixTarget::B)));
    assert_eq!(Instruction::from_byte(0x2D, false), Some(Instruction::DEC(PrefixTarget::L)));
    assert_eq!(Instruction::from_byte(0x07, false), Some(Instruction::RLCA));
    assert_eq!(Instruction::from_byte(0x0F, false), Some(Instruction::RRCA));
    assert_eq!(Instruction::from_byte(0x17, false), Some(Instruction::RLA));
    assert_eq!(Instruction::from_byte(0x1F, false), Some(Instruction::RRA));
    assert_eq!(Instruction::from_byte(0x2F, false), Some(Instruction::CPL));
    assert_eq!(Instruction::from_byte(0x37, false), Some(Instruction::SCF));
    assert_eq!(Instruction::from_byte(0x3F, false), Some(Instruction::CCF));
    assert_eq!(Instruction::from_byte(0x09, false), Some(Instruction::ADDHL(PairTarget::BC)));
    assert_eq!(Instruction::from_byte(0x19, false), Some(Instruction::ADDHL(PairTarget::DE)));
    assert_eq!(Instruction::from_byte(0x29, false), Some(Instruction::ADDHL(PairTarget::HL)));
}

#[test]
fn decode_extended_table_entries() {
    assert_eq!(Instruction::from_byte_prefixed(0x00), Some(Instruction::RLC(PrefixTarget::B)));
    assert_eq!(Instruction::from_byte_prefixed(0x0E), Some(Instruction::RRC(PrefixTarget::HLI)));
    assert_eq!(Instruction::from_byte_prefixed(0x11), Some(Instruction::RL(PrefixTarget::C)));
    assert_eq!(Instruction::from_byte_prefixed(0x1A), Some(Instruction::RR(PrefixTarget::D)));
    assert_eq!(Instruction::from_byte_prefixed(0x23), Some(Instruction::SLA(PrefixTarget::E)));
    assert_eq!(Instruction::from_byte_prefixed(0x2C), Some(Instruction::SRA(PrefixTarget::H)));
    assert_eq!(Instruction::from_byte_prefixed(0x35), Some(Instruction::SWAP(PrefixTarget::L)));
    assert_eq!(Instruction::from_byte_prefixed(0x3F), Some(Instruction::SRL(PrefixTarget::A)));
    assert_eq!(Instruction::from_byte_prefixed(0x40), Some(Instruction::BIT(0, PrefixTarget::B)));
    assert_eq!(Instruction::from_byte_prefixed(0x7E), Some(Instruction::BIT(7, PrefixTarget::HLI)));
    assert_eq!(Instruction::from_byte_prefixed(0x87), Some(Instruction::RES(0, PrefixTarget::A)));
    assert_eq!(Instruction::from_byte_prefixed(0xB8), Some(Instruction::RES(7, PrefixTarget::B)));
    assert_eq!(Instruction::from_byte_prefixed(0xC1), Some(Instruction::SET(0, PrefixTarget::C)));
    assert_eq!(Instruction::from_byte_prefixed(0xFF), Some(Instruction::SET(7, PrefixTarget::A)));
}

#[test]
fn from_byte_selects_the_table() {
    assert_eq!(
        Instruction::from_byte(0x80, true),
        Some(Instruction::RES(0, PrefixTarget::B))
    );
    assert_eq!(
        Instruction::from_byte(0x80, false),
        Some(Instruction::ADD(ArithmeticTarget::B))
    );
    assert_eq!(Instruction::from_byte_not_prefixed(0xD3), None);
}

#[test]
fn instruction_lengths() {
    assert_eq!(Instruction::ADD(ArithmeticTarget::B).length(), 1);
    assert_eq!(Instruction::ADD(ArithmeticTarget::HLI).length(), 1);
    assert_eq!(Instruction::ADD(ArithmeticTarget::D8).length(), 2);
    assert_eq!(Instruction::INC(PrefixTarget::HLI).length(), 1);
    assert_eq!(Instruction::ADDHL(PairTarget::DE).length(), 1);
    assert_eq!(Instruction::RLCA.length(), 1);
    assert_eq!(Instruction::SWAP(PrefixTarget::A).length(), 2);
    assert_eq!(Instruction::BIT(3, PrefixTarget::C).length(), 2);
}

#[test]
fn instruction_cycles() {
    assert_eq!(Instruction::ADD(ArithmeticTarget::B).cycles(), 4);
    assert_eq!(Instruction::ADD(ArithmeticTarget::HLI).cycles(), 8);
    assert_eq!(Instruction::ADD(ArithmeticTarget::D8).cycles(), 8);
    assert_eq!(Instruction::INC(PrefixTarget::A).cycles(), 4);
    assert_eq!(Instruction::INC(PrefixTarget::HLI).cycles(), 12);
    assert_eq!(Instruction::ADDHL(PairTarget::BC).cycles(), 8);
    assert_eq!(Instruction::CCF.cycles(), 4);
    assert_eq!(Instruction::RLC(PrefixTarget::B).cycles(), 8);
    assert_eq!(Instruction::RLC(PrefixTarget::HLI).cycles(), 16);
    assert_eq!(Instruction::BIT(1, PrefixTarget::HLI).cycles(), 12);
    assert_eq!(Instruction::SET(1, PrefixTarget::HLI).cycles(), 16);
}
