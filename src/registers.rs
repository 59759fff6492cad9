use vstd::prelude::*;

verus! {

/// Bit positions of the four flags in the flag byte.
pub const ZERO_FLAG_BYTE_POSITION: u8 = 7;
pub const SUBTRACT_FLAG_BYTE_POSITION: u8 = 6;
pub const HALF_CARRY_FLAG_BYTE_POSITION: u8 = 5;
pub const CARRY_FLAG_BYTE_POSITION: u8 = 4;

/// Whether bit `pos` of `byte` is set.
pub open spec fn bit_set(byte: u8, pos: u8) -> bool {
    (byte >> pos) & 1 == 1
}

/// The 16-bit value whose high byte is `hi` and low byte is `lo`.
pub open spec fn word(hi: u8, lo: u8) -> u16 {
    (hi * 256 + lo) as u16
}

/// High byte of a 16-bit value.
pub open spec fn high_byte(v: u16) -> u8 {
    (v / 256) as u8
}

/// Low byte of a 16-bit value.
pub open spec fn low_byte(v: u16) -> u8 {
    (v % 256) as u8
}

/// The four condition flags.
#[derive(Clone, Copy, Debug, PartialEq, Eq, Structural)]
pub struct FlagRegister {
    pub zero: bool,
    pub subtract: bool,
    pub half_carry: bool,
    pub carry: bool,
}

impl FlagRegister {
    /// Flags read from bits 7 (zero), 6 (subtract), 5 (half-carry) and 4 (carry);
    /// bits 0 to 3 are ignored.
    pub open spec fn spec_from_byte(byte: u8) -> FlagRegister {
        FlagRegister {
            zero: bit_set(byte, ZERO_FLAG_BYTE_POSITION),
            subtract: bit_set(byte, SUBTRACT_FLAG_BYTE_POSITION),
            half_carry: bit_set(byte, HALF_CARRY_FLAG_BYTE_POSITION),
            carry: bit_set(byte, CARRY_FLAG_BYTE_POSITION),
        }
    }

    /// The byte with bits 7 to 4 set from the flags and bits 3 to 0 clear.
    pub open spec fn spec_to_byte(self) -> u8 {
        (if self.zero { 0x80u8 } else { 0u8 }) | (if self.subtract { 0x40u8 } else { 0u8 })
            | (if self.half_carry { 0x20u8 } else { 0u8 }) | (if self.carry { 0x10u8 } else { 0u8 })
    }

    pub fn from_byte(byte: u8) -> (r: FlagRegister)
        ensures
            r == FlagRegister::spec_from_byte(byte),
    {
        FlagRegister {
            zero: (byte >> ZERO_FLAG_BYTE_POSITION) & 1 == 1,
            subtract: (byte >> SUBTRACT_FLAG_BYTE_POSITION) & 1 == 1,
            half_carry: (byte >> HALF_CARRY_FLAG_BYTE_POSITION) & 1 == 1,
            carry: (byte >> CARRY_FLAG_BYTE_POSITION) & 1 == 1,
        }
    }

    pub fn to_byte(&self) -> (r: u8)
        ensures
            r == self.spec_to_byte(),
    {
        (if self.zero { 0x80u8 } else { 0u8 }) | (if self.subtract { 0x40u8 } else { 0u8 })
            | (if self.half_carry { 0x20u8 } else { 0u8 }) | (if self.carry { 0x10u8 } else { 0u8 })
    }
}

/// Converting a byte to flags and back keeps exactly the four flag bits.
pub proof fn lemma_flags_byte_round_trip(x: u8)
    ensures
        FlagRegister::spec_from_byte(x).spec_to_byte() == x & 0xF0,
{
    assert(((if (x >> 7u8) & 1 == 1 { 0x80u8 } else { 0u8 }) | (if (x >> 6u8) & 1 == 1 {
        0x40u8
    } else {
        0u8
    }) | (if (x >> 5u8) & 1 == 1 { 0x20u8 } else { 0u8 }) | (if (x >> 4u8) & 1 == 1 {
        0x10u8
    } else {
        0u8
    })) == x & 0xF0) by (bit_vector);
}

/// Converting flags to a byte and back gives the same flags.
pub proof fn lemma_flags_to_byte_and_back(f: FlagRegister)
    ensures
        FlagRegister::spec_from_byte(f.spec_to_byte()) == f,
{
    let (z, s, h, c) = (f.zero, f.subtract, f.half_carry, f.carry);
    let b = f.spec_to_byte();
    assert(b == (if z { 0x80u8 } else { 0u8 }) | (if s { 0x40u8 } else { 0u8 }) | (if h {
        0x20u8
    } else {
        0u8
    }) | (if c { 0x10u8 } else { 0u8 }));
    assert(((b >> 7u8) & 1 == 1) == z && ((b >> 6u8) & 1 == 1) == s && ((b >> 5u8) & 1 == 1) == h
        && ((b >> 4u8) & 1 == 1) == c) by (bit_vector)
        requires
            b == (if z { 0x80u8 } else { 0u8 }) | (if s { 0x40u8 } else { 0u8 }) | (if h {
                0x20u8
            } else {
                0u8
            }) | (if c { 0x10u8 } else { 0u8 }),
    ;
}

impl From<u8> for FlagRegister {
    fn from(byte: u8) -> (r: FlagRegister)
        ensures
            r == FlagRegister::spec_from_byte(byte),
    {
        FlagRegister::from_byte(byte)
    }
}

impl vstd::std_specs::convert::FromSpecImpl<u8> for FlagRegister {
    open spec fn obeys_from_spec() -> bool {
        true
    }

    open spec fn from_spec(byte: u8) -> FlagRegister {
        FlagRegister::spec_from_byte(byte)
    }
}

/// The register file: seven 8-bit registers and the flag register.
#[derive(Clone, Copy, Debug, PartialEq, Eq, Structural)]
pub struct Registers {
    pub a: u8,
    pub b: u8,
    pub c: u8,
    pub d: u8,
    pub e: u8,
    pub f: FlagRegister,
    pub h: u8,
    pub l: u8,
}

impl Registers {
    pub open spec fn af(self) -> u16 {
        word(self.a, self.f.spec_to_byte())
    }

    pub open spec fn bc(self) -> u16 {
        word(self.b, self.c)
    }

    pub open spec fn de(self) -> u16 {
        word(self.d, self.e)
    }

    pub open spec fn hl(self) -> u16 {
        word(self.h, self.l)
    }

    pub open spec fn with_af(self, v: u16) -> Registers {
        Registers { a: high_byte(v), f: FlagRegister::spec_from_byte(low_byte(v)), ..self }
    }

    pub open spec fn with_bc(self, v: u16) -> Registers {
        Registers { b: high_byte(v), c: low_byte(v), ..self }
    }

    pub open spec fn with_de(self, v: u16) -> Registers {
        Registers { d: high_byte(v), e: low_byte(v), ..self }
    }

    pub open spec fn with_hl(self, v: u16) -> Registers {
        Registers { h: high_byte(v), l: low_byte(v), ..self }
    }

    pub fn get_af(&self) -> (r: u16)
        ensures
            r == self.af(),
    {
        (self.a as u16) * 256 + (self.f.to_byte() as u16)
    }

    pub fn get_bc(&self) -> (r: u16)
        ensures
            r == self.bc(),
    {
        (self.b as u16) * 256 + (self.c as u16)
    }

    pub fn get_de(&self) -> (r: u16)
        ensures
            r == self.de(),
    {
        (self.d as u16) * 256 + (self.e as u16)
    }

    pub fn get_hl(&self) -> (r: u16)
        ensures
            r == self.hl(),
    {
        (self.h as u16) * 256 + (self.l as u16)
    }

    pub fn set_af(&mut self, value: u16)
        ensures
            *final(self) == old(self).with_af(value),
    {
        self.a = (value / 256) as u8;
        self.f = FlagRegister::from_byte((value % 256) as u8);
    }

    pub fn set_bc(&mut self, value: u16)
        ensures
            *final(self) == old(self).with_bc(value),
    {
        self.b = (value / 256) as u8;
        self.c = (value % 256) as u8;
    }

    pub fn set_de(&mut self, value: u16)
        ensures
            *final(self) == old(self).with_de(value),
    {
        self.d = (value / 256) as u8;
        self.e = (value % 256) as u8;
    }

    pub fn set_hl(&mut self, value: u16)
        ensures
            *final(self) == old(self).with_hl(value),
    {
        self.h = (value / 256) as u8;
        self.l = (value % 256) as u8;
    }
}

} // verus!
