use dmg_cpu::registers::byte_to_flags;
use dmg_cpu::registers::flags_to_byte;
use dmg_cpu::registers::FlagsRegister;
use dmg_cpu::registers::Registers;

fn flags(zero: bool, subtract: bool, half_carry: bool, carry: bool) -> FlagsRegister {
    FlagsRegister { zero, subtract, half_carry, carry }
}

#[test]
fn flag_byte_round_trip_all_combinations() {
    for bits in 0u8..16 {
        let f = flags(bits & 8 != 0, bits & 4 != 0, bits & 2 != 0, bits & 1 != 0);
        let b = flags_to_byte(f);
        assert_eq!(b % 16, 0, "low nibble must be zero for {:?}", f);
        assert_eq!(byte_to_flags(b), f);
    }
}

#[test]
fn flag_byte_bit_positions() {
    assert_eq!(flags_to_byte(flags(true, false, false, false)), 0x80);
    assert_eq!(flags_to_byte(flags(false, true, false, false)), 0x40);
    assert_eq!(flags_to_byte(flags(false, false, true, false)), 0x20);
    assert_eq!(flags_to_byte(flags(false, false, false, true)), 0x10);
    assert_eq!(flags_to_byte(flags(true, true, true, true)), 0xF0);
    assert_eq!(flags_to_byte(flags(false, false, false, false)), 0x00);
}

#[test]
fn flag_byte_decode_ignores_low_nibble() {
    let f = flags(false, true, false, true);
    assert_eq!(byte_to_flags(0x50), f);
    assert_eq!(byte_to_flags(0x5F), f);
    assert_eq!(byte_to_flags(0x5A), f);
}

#[test]
fn pair_packing_all_pairs() {
    let mut regs = Registers::new();
    for hi in 0u16..256 {
        for lo in 0u16..256 {
            regs.b = hi as u8;
            regs.c = lo as u8;
            assert_eq!(regs.get_bc(), hi * 256 + lo);
            let v = hi * 256 + lo;
            regs.set_bc(v);
            assert_eq!(regs.b, hi as u8);
            assert_eq!(regs.c, lo as u8);
        }
    }
}

#[test]
fn pair_views_share_storage_and_spare_flags() {
    let mut regs = Registers::new();
    regs.flags = flags(true, false, true, true);
    regs.set_de(0xBEEF);
    assert_eq!(regs.d, 0xBE);
    assert_eq!(regs.e, 0xEF);
    assert_eq!(regs.get_de(), 0xBEEF);
    regs.set_hl(0x1234);
    assert_eq!(regs.h, 0x12);
    assert_eq!(regs.l, 0x34);
    assert_eq!(regs.get_hl(), 0x1234);
    assert_eq!(regs.flags, flags(true, false, true, true));
    assert_eq!(regs.get_de(), 0xBEEF);
}
