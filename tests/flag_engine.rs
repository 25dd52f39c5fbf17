use z80::flags::{add8, cp8, dec8, inc8, ld_a_ir, logic8, parity_even, sign_zero_xy, sub8};

#[test]
fn add_overflow_into_sign() {
    // 0x7F + 0x01 = 0x80: S, H and V set.
    assert_eq!(add8(0x7f, 0x01, false), 0x94);
}

#[test]
fn add_carry_out_to_zero() {
    // 0xFF + 0x01 = 0x00: Z, H and C set, no overflow.
    assert_eq!(add8(0xff, 0x01, false), 0x51);
}

#[test]
fn add_with_carry_in() {
    assert_eq!(add8(0x0e, 0x01, true), 0x10);
    assert_eq!(add8(0x10, 0x05, true), 0x00);
}

#[test]
fn sub_borrow_from_zero() {
    // 0x00 - 0x01 = 0xFF: S, Y, H, X, N, C set.
    assert_eq!(sub8(0x00, 0x01, false), 0xbb);
}

#[test]
fn sub_signed_overflow() {
    // 0x80 - 0x01 = 0x7F: overflow, half borrow, N.
    assert_eq!(sub8(0x80, 0x01, false), 0x3e);
}

#[test]
fn sub_with_borrow_in_to_zero() {
    assert_eq!(sub8(0x10, 0x0f, true), 0x52);
}

#[test]
fn compare_takes_undocumented_bits_from_operand() {
    // 0x10 - 0x28 = 0xE8, but bits 5 and 3 come from 0x28.
    assert_eq!(cp8(0x10, 0x28), 0xbb);
    // A zero operand: N alone.
    assert_eq!(cp8(0x42, 0x00), 0x02);
    // Equal values: Z and N.
    assert_eq!(cp8(0x07, 0x07), 0x42);
}

#[test]
fn increment_keeps_carry() {
    assert_eq!(inc8(0x7f, 0x01), 0x95);
    assert_eq!(inc8(0x7f, 0x00), 0x94);
    assert_eq!(inc8(0xff, 0x00), 0x50);
}

#[test]
fn decrement_keeps_carry() {
    assert_eq!(dec8(0x80, 0x00), 0x3e);
    assert_eq!(dec8(0x01, 0x01), 0x43);
}

#[test]
fn logic_flags_parity_and_half_carry() {
    assert_eq!(logic8(0x00, true), 0x54);
    assert_eq!(logic8(0x07, false), 0x00);
    assert_eq!(logic8(0x03, false), 0x04);
    assert_eq!(logic8(0xff, false), 0xac);
}

#[test]
fn parity_counts_bits() {
    assert!(parity_even(0x00));
    assert!(!parity_even(0x01));
    assert!(parity_even(0x81));
    assert!(!parity_even(0xfe));
}

#[test]
fn sign_zero_and_copies() {
    assert_eq!(sign_zero_xy(0x00), 0x40);
    assert_eq!(sign_zero_xy(0x28), 0x28);
    assert_eq!(sign_zero_xy(0x80), 0x80);
}

#[test]
fn accumulator_from_i_or_r_flags() {
    assert_eq!(ld_a_ir(0x80, false, 0xfe), 0x80);
    assert_eq!(ld_a_ir(0x28, true, 0x01), 0x2d);
    assert_eq!(ld_a_ir(0x00, true, 0x00), 0x44);
}

#[test]
fn previous_flags_matter_only_through_carry() {
    for v in [0x00u8, 0x0f, 0x7f, 0x80, 0xff] {
        assert_eq!(inc8(v, 0xff), inc8(v, 0x01));
        assert_eq!(dec8(v, 0xfe), dec8(v, 0x00));
        assert_eq!(ld_a_ir(v, true, 0xd7), ld_a_ir(v, true, 0x01));
        assert_eq!(inc8(v, 0x01) & 1, 1);
        assert_eq!(dec8(v, 0x00) & 1, 0);
    }
}
