use i8080::instruction::{RegPair, Src};
use i8080::utils::{
    bitmatch, bitset, bittest, flagged_add, flagged_sub, get_u16, idx2rp_psw, idx2rp_sp, idx2src,
    split_u16,
};

// P1 on concrete values: result is the sum modulo 256, carry on 8-bit
// overflow, parity on an even count of set bits.
#[test]
fn flagged_add_wraps_and_sets_carry() {
    let (res, carry, parity, aux, zero, sign) = flagged_add(200, 100);
    assert_eq!(res, 44); // (200 + 100) mod 256
    assert!(carry);
    assert!(!parity); // 44 = 0b0010_1100 has three set bits
    assert!(!aux); // low nibbles 8 + 4 do not pass 15
    assert!(!zero);
    assert!(!sign);
}

#[test]
fn flagged_add_zero_gives_even_parity_and_zero_flag() {
    assert_eq!(flagged_add(0, 0), (0, false, true, false, true, false));
}

#[test]
fn flagged_add_nibble_carry() {
    let (res, carry, _, aux, _, sign) = flagged_add(0x0f, 0x01);
    assert_eq!(res, 0x10);
    assert!(!carry);
    assert!(aux);
    assert!(!sign);
}

// P2 on concrete values: subtracting a value from itself yields zero,
// no borrow, even parity, the zero flag, and a clear sign.
#[test]
fn flagged_sub_self_is_zero() {
    assert_eq!(flagged_sub(0x3e, 0x3e), (0, false, true, true, true, false));
    assert_eq!(flagged_sub(0x00, 0x00), (0, false, true, true, true, false));
    assert_eq!(flagged_sub(0xff, 0xff), (0, false, true, true, true, false));
}

#[test]
fn flagged_sub_borrows_below_zero() {
    let (res, carry, parity, aux, zero, sign) = flagged_sub(2, 5);
    assert_eq!(res, 0xfd); // (2 - 5) mod 256
    assert!(carry);
    assert!(!parity); // 0xfd has seven set bits
    assert!(!aux); // low nibble 2 borrows against 5
    assert!(!zero);
    assert!(sign);
}

#[test]
fn bit_primitives() {
    assert!(bittest(0b1000_0000, 7));
    assert!(!bittest(0b0111_1111, 7));
    let mut bits: u8 = 0;
    bitset(&mut bits, 4, true);
    assert_eq!(bits, 0b0001_0000);
    bitset(&mut bits, 4, false);
    assert_eq!(bits, 0);
    assert!(bitmatch(0b1100_0101, 0b1100_0101, 0b1100_1111));
    assert!(!bitmatch(0b1100_0001, 0b1100_0101, 0b1100_1111));
}

#[test]
fn u16_packing_round_trip() {
    assert_eq!(get_u16(0x12, 0x34), 0x1234);
    assert_eq!(split_u16(0x1234), (0x12, 0x34));
    assert_eq!(get_u16(0xff, 0xff), 0xffff);
    assert_eq!(split_u16(get_u16(0xab, 0xcd)), (0xab, 0xcd));
}

#[test]
fn register_select_fields() {
    assert!(matches!(idx2src(0), Src::B));
    assert!(matches!(idx2src(5), Src::L));
    assert!(matches!(idx2src(6), Src::Mem));
    assert!(matches!(idx2src(7), Src::A));
    assert!(matches!(idx2rp_psw(3), RegPair::PSW));
    assert!(matches!(idx2rp_sp(3), RegPair::SP));
    assert!(matches!(idx2rp_psw(0), RegPair::BC));
    assert!(matches!(idx2rp_sp(2), RegPair::HL));
}
