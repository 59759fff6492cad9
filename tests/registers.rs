use lr35902::{FlagRegister, Registers};

fn zeroed() -> Registers {
    Registers {
        a: 0,
        b: 0,
        c: 0,
        d: 0,
        e: 0,
        f: FlagRegister::from_byte(0),
        h: 0,
        l: 0,
    }
}

#[test]
fn flag_byte_round_trip_keeps_high_nibble() {
    for x in 0..=255u8 {
        assert_eq!(FlagRegister::from_byte(x).to_byte(), x & 0xF0);
    }
}

#[test]
fn flag_register_from_byte_reads_each_bit() {
    let f = FlagRegister::from(0b1010_0101u8);
    assert!(f.zero);
    assert!(!f.subtract);
    assert!(f.half_carry);
    assert!(!f.carry);
    let g = FlagRegister::from_byte(0b0101_1111);
    assert_eq!(
        g,
        FlagRegister { zero: false, subtract: true, half_carry: false, carry: true }
    );
}

#[test]
fn flag_register_to_byte_sets_only_high_bits() {
    let all = FlagRegister { zero: true, subtract: true, half_carry: true, carry: true };
    assert_eq!(all.to_byte(), 0xF0);
    let carry = FlagRegister { zero: false, subtract: false, half_carry: false, carry: true };
    assert_eq!(carry.to_byte(), 0x10);
}

#[test]
fn register_pairs_are_views_of_two_bytes() {
    let mut r = zeroed();
    r.set_bc(0x1234);
    assert_eq!((r.b, r.c), (0x12, 0x34));
    assert_eq!(r.get_bc(), 0x1234);
    r.set_de(0xBEEF);
    assert_eq!((r.d, r.e), (0xBE, 0xEF));
    assert_eq!(r.get_de(), 0xBEEF);
    r.set_hl(0x00FF);
    assert_eq!((r.h, r.l), (0x00, 0xFF));
    assert_eq!(r.get_hl(), 0x00FF);
    r.l = 0x01;
    assert_eq!(r.get_hl(), 0x0001);
}

#[test]
fn af_pair_drops_low_nibble() {
    let mut r = zeroed();
    r.set_af(0x12FF);
    assert_eq!(r.a, 0x12);
    assert_eq!(r.get_af(), 0x12F0);
}
