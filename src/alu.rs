//! Results and flags of the arithmetic, logic, rotate and shift operations,
//! as functions of their operands.
use crate::registers::FlagRegister;
use vstd::prelude::*;

verus! {

pub open spec fn carry_value(carry: bool) -> int {
    if carry {
        1
    } else {
        0
    }
}

/// `a + v + carry_in` modulo 256, with its flags.
pub open spec fn add_bytes(a: u8, v: u8, carry_in: bool) -> (u8, FlagRegister) {
    let sum = a + v + carry_value(carry_in);
    let r = (sum % 256) as u8;
    (
        r,
        FlagRegister {
            zero: r == 0,
            subtract: false,
            half_carry: a % 16 + v % 16 + carry_value(carry_in) > 15,
            carry: sum > 255,
        },
    )
}

/// `a - v - borrow_in` modulo 256, with its flags.
pub open spec fn sub_bytes(a: u8, v: u8, borrow_in: bool) -> (u8, FlagRegister) {
    let diff = a - v - carry_value(borrow_in);
    let r = (diff % 256) as u8;
    (
        r,
        FlagRegister {
            zero: r == 0,
            subtract: true,
            half_carry: a % 16 < v % 16 + carry_value(borrow_in),
            carry: diff < 0,
        },
    )
}

/// Flags after AND, OR and XOR.
pub open spec fn logic_flags(r: u8) -> FlagRegister {
    FlagRegister { zero: r == 0, subtract: false, half_carry: false, carry: false }
}

/// 8-bit increment; the carry flag is kept.
pub open spec fn inc_byte(v: u8, f: FlagRegister) -> (u8, FlagRegister) {
    let r = ((v + 1) % 256) as u8;
    (r, FlagRegister { zero: r == 0, subtract: false, half_carry: v % 16 == 15, carry: f.carry })
}

/// 8-bit decrement; the carry flag is kept.
pub open spec fn dec_byte(v: u8, f: FlagRegister) -> (u8, FlagRegister) {
    let r = ((v - 1) % 256) as u8;
    (r, FlagRegister { zero: r == 0, subtract: true, half_carry: v % 16 == 0, carry: f.carry })
}

/// 16-bit increment; the zero and carry flags are kept.
pub open spec fn inc_word(v: u16, f: FlagRegister) -> (u16, FlagRegister) {
    let r = ((v + 1) % 0x10000) as u16;
    (
        r,
        FlagRegister { zero: f.zero, subtract: false, half_carry: v % 0x1000 == 0xFFF, carry: f.carry },
    )
}

/// 16-bit decrement; the zero and carry flags are kept.
pub open spec fn dec_word(v: u16, f: FlagRegister) -> (u16, FlagRegister) {
    let r = ((v - 1) % 0x10000) as u16;
    (r, FlagRegister { zero: f.zero, subtract: true, half_carry: v % 0x1000 == 0, carry: f.carry })
}

/// `x + y` modulo 65536; the zero flag is kept.
pub open spec fn add_words(x: u16, y: u16, f: FlagRegister) -> (u16, FlagRegister) {
    let sum = x + y;
    (
        (sum % 0x10000) as u16,
        FlagRegister {
            zero: f.zero,
            subtract: false,
            half_carry: x % 0x1000 + y % 0x1000 > 0xFFF,
            carry: sum > 0xFFFF,
        },
    )
}

/// A byte read as a two's-complement value in -128..128.
pub open spec fn signed_byte(d: u8) -> int {
    if d < 128 {
        d as int
    } else {
        d - 256
    }
}

/// A signed byte widened to 16 bits.
pub open spec fn sign_extend(d: u8) -> u16 {
    (signed_byte(d) % 0x10000) as u16
}

/// Rotations and shifts give the result and the bit shifted out.
pub open spec fn rotate_left_circular(v: u8) -> (u8, bool) {
    (((v * 2) % 256 + v / 128) as u8, v >= 128)
}

pub open spec fn rotate_right_circular(v: u8) -> (u8, bool) {
    ((v / 2 + (v % 2) * 128) as u8, v % 2 == 1)
}

/// Rotation through the carry: the old carry enters at bit 0.
pub open spec fn rotate_left(v: u8, carry: bool) -> (u8, bool) {
    (((v * 2) % 256 + carry_value(carry)) as u8, v >= 128)
}

/// Rotation through the carry: the old carry enters at bit 7.
pub open spec fn rotate_right(v: u8, carry: bool) -> (u8, bool) {
    ((v / 2 + carry_value(carry) * 128) as u8, v % 2 == 1)
}

pub open spec fn shift_left_arithmetic(v: u8) -> (u8, bool) {
    (((v * 2) % 256) as u8, v >= 128)
}

/// Bit 7 is kept.
pub open spec fn shift_right_arithmetic(v: u8) -> (u8, bool) {
    ((v / 2 + (v / 128) * 128) as u8, v % 2 == 1)
}

/// Bit 7 is cleared.
pub open spec fn shift_right_logical(v: u8) -> (u8, bool) {
    ((v / 2) as u8, v % 2 == 1)
}

/// Exchanges the two nibbles; nothing is shifted out.
pub open spec fn swap_nibbles(v: u8) -> (u8, bool) {
    (((v % 16) * 16 + v / 16) as u8, false)
}

/// Flags after a rotation or shift of a selected register.
pub open spec fn shift_flags(r: u8, carry: bool) -> FlagRegister {
    FlagRegister { zero: r == 0, subtract: false, half_carry: false, carry }
}

pub open spec fn reset_bit(v: u8, b: u8) -> u8 {
    v & !(1u8 << b)
}

pub open spec fn set_bit(v: u8, b: u8) -> u8 {
    v | (1u8 << b)
}

/// Decimal adjustment of the accumulator after a BCD addition or subtraction.
pub open spec fn decimal_adjust(a: u8, f: FlagRegister) -> (u8, FlagRegister) {
    if !f.subtract {
        let carry = f.carry || a > 0x99;
        let high = if carry {
            ((a + 0x60) % 256) as u8
        } else {
            a
        };
        let r = if f.half_carry || high % 16 > 9 {
            ((high + 0x06) % 256) as u8
        } else {
            high
        };
        (r, FlagRegister { zero: r == 0, subtract: false, half_carry: false, carry })
    } else {
        let high = if f.carry {
            ((a - 0x60) % 256) as u8
        } else {
            a
        };
        let r = if f.half_carry {
            ((high - 0x06) % 256) as u8
        } else {
            high
        };
        (r, FlagRegister { zero: r == 0, subtract: true, half_carry: false, carry: f.carry })
    }
}

pub fn sign_extend_byte(d: u8) -> (r: u16)
    ensures
        r == sign_extend(d),
{
    if d < 128 {
        d as u16
    } else {
        d as u16 + 0xFF00
    }
}

pub fn rlc(v: u8) -> (r: (u8, bool))
    ensures
        r == rotate_left_circular(v),
{
    ((v % 128) * 2 + v / 128, v >= 128)
}

pub fn rrc(v: u8) -> (r: (u8, bool))
    ensures
        r == rotate_right_circular(v),
{
    (v / 2 + (v % 2) * 128, v % 2 == 1)
}

pub fn rl(v: u8, carry: bool) -> (r: (u8, bool))
    ensures
        r == rotate_left(v, carry),
{
    ((v % 128) * 2 + if carry {
        1
    } else {
        0
    }, v >= 128)
}

pub fn rr(v: u8, carry: bool) -> (r: (u8, bool))
    ensures
        r == rotate_right(v, carry),
{
    (v / 2 + if carry {
        128
    } else {
        0
    }, v % 2 == 1)
}

pub fn sla(v: u8) -> (r: (u8, bool))
    ensures
        r == shift_left_arithmetic(v),
{
    ((v % 128) * 2, v >= 128)
}

pub fn sra(v: u8) -> (r: (u8, bool))
    ensures
        r == shift_right_arithmetic(v),
{
    (v / 2 + (v / 128) * 128, v % 2 == 1)
}

pub fn srl(v: u8) -> (r: (u8, bool))
    ensures
        r == shift_right_logical(v),
{
    (v / 2, v % 2 == 1)
}

pub fn swap(v: u8) -> (r: (u8, bool))
    ensures
        r == swap_nibbles(v),
{
    ((v % 16) * 16 + v / 16, false)
}

/// Decimal adjustment, see `decimal_adjust`.
pub fn daa(a: u8, f: FlagRegister) -> (r: (u8, FlagRegister))
    ensures
        r == decimal_adjust(a, f),
{
    if !f.subtract {
        let carry = f.carry || a > 0x99;
        let high = if carry {
            a.wrapping_add(0x60)
        } else {
            a
        };
        let r = if f.half_carry || high % 16 > 9 {
            high.wrapping_add(0x06)
        } else {
            high
        };
        (r, FlagRegister { zero: r == 0, subtract: false, half_carry: false, carry })
    } else {
        let high = if f.carry {
            a.wrapping_sub(0x60)
        } else {
            a
        };
        let r = if f.half_carry {
            high.wrapping_sub(0x06)
        } else {
            high
        };
        (r, FlagRegister { zero: r == 0, subtract: true, half_carry: false, carry: f.carry })
    }
}

} // verus!
