//! The register file: eight 8-bit general registers, the four condition
//! flags, and the paired 16-bit views BC, DE and HL.

use vstd::prelude::*;

verus! {

/// The four condition flags. In the packed byte form, zero sits at bit 7,
/// subtract at bit 6, half-carry at bit 5 and carry at bit 4; bits 3-0 are
/// always zero.
#[derive(Clone, Copy, PartialEq, Eq, Structural, Debug)]
pub struct FlagsRegister {
    pub zero: bool,
    pub subtract: bool,
    pub half_carry: bool,
    pub carry: bool,
}

impl FlagsRegister {
    /// All four flags cleared.
    pub fn clear() -> (f: FlagsRegister)
        ensures
            f == (FlagsRegister { zero: false, subtract: false, half_carry: false, carry: false }),
    {
        FlagsRegister { zero: false, subtract: false, half_carry: false, carry: false }
    }
}

/// The packed byte form of the flags: each flag contributes its bit weight,
/// and the low nibble is always zero.
pub open spec fn spec_flags_to_byte(f: FlagsRegister) -> u8 {
    ((if f.zero {
        128int
    } else {
        0int
    }) + (if f.subtract {
        64int
    } else {
        0int
    }) + (if f.half_carry {
        32int
    } else {
        0int
    }) + (if f.carry {
        16int
    } else {
        0int
    })) as u8
}

/// Decoding a flags byte reads the four flag bits and ignores the low nibble.
pub open spec fn spec_byte_to_flags(b: u8) -> FlagsRegister {
    FlagsRegister {
        zero: b / 128 % 2 == 1,
        subtract: b / 64 % 2 == 1,
        half_carry: b / 32 % 2 == 1,
        carry: b / 16 % 2 == 1,
    }
}

/// Pack the four flags into their byte form.
pub fn flags_to_byte(f: FlagsRegister) -> (b: u8)
    ensures
        b == spec_flags_to_byte(f),
        b % 16 == 0,
{
    (if f.zero {
        128u8
    } else {
        0u8
    }) + (if f.subtract {
        64u8
    } else {
        0u8
    }) + (if f.half_carry {
        32u8
    } else {
        0u8
    }) + (if f.carry {
        16u8
    } else {
        0u8
    })
}

/// Unpack a flags byte; the low nibble of the byte is ignored.
pub fn byte_to_flags(b: u8) -> (f: FlagsRegister)
    ensures
        f == spec_byte_to_flags(b),
{
    FlagsRegister {
        zero: b / 128 % 2 == 1,
        subtract: b / 64 % 2 == 1,
        half_carry: b / 32 % 2 == 1,
        carry: b / 16 % 2 == 1,
    }
}

/// Law: encoding the four flags and decoding the byte again restores them
/// exactly, and the encoded byte always has a zero low nibble.
pub proof fn lemma_flags_round_trip(f: FlagsRegister)
    ensures
        spec_byte_to_flags(spec_flags_to_byte(f)) == f,
        spec_flags_to_byte(f) % 16 == 0,
{
}

/// A 16-bit register pair is the high register in bits 15-8 and the low
/// register in bits 7-0.
pub open spec fn spec_pair(hi: u8, lo: u8) -> u16 {
    (hi * 256 + lo) as u16
}

/// The high byte of a 16-bit value.
pub open spec fn spec_pair_hi(v: u16) -> u8 {
    (v / 256) as u8
}

/// The low byte of a 16-bit value.
pub open spec fn spec_pair_lo(v: u16) -> u8 {
    (v % 256) as u8
}

/// Law: pair packing is lossless in both directions. Splitting a packed pair
/// restores the two bytes, and packing the two halves of a 16-bit value
/// restores the value.
pub proof fn lemma_pair_packing(hi: u8, lo: u8, v: u16)
    ensures
        spec_pair_hi(spec_pair(hi, lo)) == hi,
        spec_pair_lo(spec_pair(hi, lo)) == lo,
        spec_pair(spec_pair_hi(v), spec_pair_lo(v)) == v,
{
    assert((hi * 256 + lo) / 256 == hi && (hi * 256 + lo) % 256 == lo) by (nonlinear_arith)
        requires
            0 <= hi <= 255 && 0 <= lo <= 255,
    ;
    assert((v / 256) * 256 + (v % 256) == v) by (nonlinear_arith);
}

/// The register file: the accumulator A, six further general registers, and
/// the condition flags. The pairs BC, DE and HL are views over the eight
/// bytes, not separate storage; reading or writing a pair never touches the
/// flags.
#[derive(Clone, Copy, PartialEq, Eq, Structural, Debug)]
pub struct Registers {
    pub a: u8,
    pub b: u8,
    pub c: u8,
    pub d: u8,
    pub e: u8,
    pub h: u8,
    pub l: u8,
    pub flags: FlagsRegister,
}

impl Registers {
    /// A register file with every register cleared and every flag false.
    pub fn new() -> (regs: Registers)
        ensures
            regs == (Registers {
                a: 0,
                b: 0,
                c: 0,
                d: 0,
                e: 0,
                h: 0,
                l: 0,
                flags: FlagsRegister { zero: false, subtract: false, half_carry: false, carry: false },
            }),
    {
        Registers {
            a: 0,
            b: 0,
            c: 0,
            d: 0,
            e: 0,
            h: 0,
            l: 0,
            flags: FlagsRegister::clear(),
        }
    }

    /// Read the BC pair: B in the high byte, C in the low byte.
    pub fn get_bc(&self) -> (v: u16)
        ensures
            v == spec_pair(self.b, self.c),
    {
        (self.b as u16) * 256 + (self.c as u16)
    }

    /// Write the BC pair, splitting the value into B and C. No other
    /// register and no flag changes.
    pub fn set_bc(&mut self, value: u16)
        ensures
            *final(self) == (Registers { b: spec_pair_hi(value), c: spec_pair_lo(value), ..*old(self) }),
    {
        self.b = (value / 256) as u8;
        self.c = (value % 256) as u8;
    }

    /// Read the DE pair: D in the high byte, E in the low byte.
    pub fn get_de(&self) -> (v: u16)
        ensures
            v == spec_pair(self.d, self.e),
    {
        (self.d as u16) * 256 + (self.e as u16)
    }

    /// Write the DE pair, splitting the value into D and E. No other
    /// register and no flag changes.
    pub fn set_de(&mut self, value: u16)
        ensures
            *final(self) == (Registers { d: spec_pair_hi(value), e: spec_pair_lo(value), ..*old(self) }),
    {
        self.d = (value / 256) as u8;
        self.e = (value % 256) as u8;
    }

    /// Read the HL pair: H in the high byte, L in the low byte.
    pub fn get_hl(&self) -> (v: u16)
        ensures
            v == spec_pair(self.h, self.l),
    {
        (self.h as u16) * 256 + (self.l as u16)
    }

    /// Write the HL pair, splitting the value into H and L. No other
    /// register and no flag changes.
    pub fn set_hl(&mut self, value: u16)
        ensures
            *final(self) == (Registers { h: spec_pair_hi(value), l: spec_pair_lo(value), ..*old(self) }),
    {
        self.h = (value / 256) as u8;
        self.l = (value % 256) as u8;
    }
}

} // verus!
