use vstd::prelude::*;

verus! {

use crate::instruction::{RegPair, Src};

// ---------------------------------------------------------------------------
// Bit primitives
// ---------------------------------------------------------------------------

/// A byte matches a pattern when it agrees with it on every bit the mask keeps.
pub open spec fn spec_bitmatch(bits: u8, pattern: u8, mask: u8) -> bool {
    (bits & mask) == (pattern & mask)
}

/// Bit `n` of `bits`, as a boolean.
pub open spec fn spec_bittest(bits: u8, n: u8) -> bool {
    bits & (1u8 << n) != 0
}

/// `bits` with bit `whence` forced to `set`.
pub open spec fn spec_bitset(bits: u8, whence: u8, set: bool) -> u8 {
    if set {
        bits | (1u8 << whence)
    } else {
        bits & !(1u8 << whence)
    }
}

pub fn bitmatch(bits: u8, pattern: u8, mask: u8) -> (r: bool)
    ensures
        r == spec_bitmatch(bits, pattern, mask),
{
    (bits & mask) == (pattern & mask)
}

pub fn bittest(bits: u8, n: u8) -> (r: bool)
    requires
        n < 8,
    ensures
        r == spec_bittest(bits, n),
{
    (bits & (1u8 << n)) != 0
}

pub fn bitset(bits: &mut u8, whence: u8, set: bool)
    requires
        whence < 8,
    ensures
        *final(bits) == spec_bitset(*old(bits), whence, set),
{
    let mask: u8 = 1u8 << whence;
    if set {
        *bits |= mask;
    } else {
        *bits &= !mask;
    }
}

/// The operand sub-fields of an opcode byte are bounded by their width:
/// a 3-bit register-select field is below 8, a 2-bit pair field below 4.
pub proof fn lemma_field_bounds(b: u8)
    by (bit_vector)
    ensures
        (b & 0x38) >> 3 < 8,
        b & 0x07 < 8,
        (b & 0x30) >> 4 < 4,
        (b & 0x10) >> 4 < 2,
{
}

// ---------------------------------------------------------------------------
// Flag rules for 8-bit addition and subtraction
// ---------------------------------------------------------------------------

/// Even-parity convention: the number of set bits in the byte is even.
pub open spec fn spec_parity(b: u8) -> bool {
    ((b & 1) + ((b >> 1) & 1) + ((b >> 2) & 1) + ((b >> 3) & 1) + ((b >> 4) & 1) + ((b >> 5) & 1)
        + ((b >> 6) & 1) + ((b >> 7) & 1)) % 2 == 0
}

/// The sum modulo 256: 8-bit addition wraps.
pub open spec fn spec_add_result(x: u8, y: u8) -> u8 {
    ((x + y) % 256) as u8
}

/// Carry out of bit 7 on addition.
pub open spec fn spec_add_carry(x: u8, y: u8) -> bool {
    x + y > 255
}

/// Auxiliary carry: the low nibbles alone overflow past bit 3.
pub open spec fn spec_add_aux(x: u8, y: u8) -> bool {
    (x & 0xf) + (y & 0xf) > 0xf
}

/// The difference modulo 256 (`%` here is Euclidean, so the result is in 0..256).
pub open spec fn spec_sub_result(x: u8, y: u8) -> u8 {
    ((x - y) % 256) as u8
}

/// Borrow into bit 7 on subtraction.
pub open spec fn spec_sub_carry(x: u8, y: u8) -> bool {
    x < y
}

/// Auxiliary-carry flag on subtraction: set exactly when the low nibble
/// does not borrow across bit 3.
pub open spec fn spec_sub_aux(x: u8, y: u8) -> bool {
    (x & 0xf) >= (y & 0xf)
}

/// Sign flag: bit 7 of the result.
pub open spec fn spec_sign(b: u8) -> bool {
    spec_bittest(b, 7)
}

pub(crate) fn parity_even(b: u8) -> (r: bool)
    ensures
        r == spec_parity(b),
{
    let n: u16 = (b & 1) as u16 + ((b >> 1) & 1) as u16 + ((b >> 2) & 1) as u16 + ((b >> 3)
        & 1) as u16 + ((b >> 4) & 1) as u16 + ((b >> 5) & 1) as u16 + ((b >> 6) & 1) as u16 + ((b
        >> 7) & 1) as u16;
    n % 2 == 0
}

/// Result, carry, parity, auxiliary carry, zero, sign of `x + y`.
pub fn flagged_add(x: u8, y: u8) -> (r: (u8, bool, bool, bool, bool, bool))
    ensures
        r.0 == spec_add_result(x, y),
        r.1 == spec_add_carry(x, y),
        r.2 == spec_parity(spec_add_result(x, y)),
        r.3 == spec_add_aux(x, y),
        r.4 == (spec_add_result(x, y) == 0),
        r.5 == spec_sign(spec_add_result(x, y)),
{
    let sum: u16 = x as u16 + y as u16;
    let res: u8 = (sum % 256) as u8;
    (
        res,
        sum > 0xff,
        parity_even(res),
        (x & 0xf) as u16 + (y & 0xf) as u16 > 0xf,
        res == 0,
        bittest(res, 7),
    )
}

/// Result, carry, parity, auxiliary carry, zero, sign of `x - y`.
pub fn flagged_sub(x: u8, y: u8) -> (r: (u8, bool, bool, bool, bool, bool))
    ensures
        r.0 == spec_sub_result(x, y),
        r.1 == spec_sub_carry(x, y),
        r.2 == spec_parity(spec_sub_result(x, y)),
        r.3 == spec_sub_aux(x, y),
        r.4 == (spec_sub_result(x, y) == 0),
        r.5 == spec_sign(spec_sub_result(x, y)),
{
    let res: u8 = if x >= y {
        x - y
    } else {
        ((x as u16 + 256) - y as u16) as u8
    };
    (
        res,
        x < y,
        parity_even(res),
        (x & 0xf) >= (y & 0xf),
        res == 0,
        bittest(res, 7),
    )
}

/// Adding a wrapped sum is adding the sum: the carry-in can be folded
/// into the operand before the wrapped addition without changing the
/// byte result.
pub proof fn lemma_carry_in_add(a: u8, x: u8, y: u8)
    ensures
        spec_add_result(a, spec_add_result(x, y)) == ((a + x + y) % 256) as u8,
{
    let k = (x + y) / 256;
    vstd::arithmetic::div_mod::lemma_fundamental_div_mod(x + y, 256);
    vstd::arithmetic::div_mod::lemma_mod_multiples_vanish(-k, a + x + y, 256);
}

/// Subtracting a wrapped sum is subtracting the sum: the borrow-in can
/// be folded into the operand before the wrapped subtraction without
/// changing the byte result.
pub proof fn lemma_carry_in_sub(a: u8, x: u8, y: u8)
    ensures
        spec_sub_result(a, spec_add_result(x, y)) == ((a - x - y) % 256) as u8,
{
    let k = (x + y) / 256;
    vstd::arithmetic::div_mod::lemma_fundamental_div_mod(x + y, 256);
    vstd::arithmetic::div_mod::lemma_mod_multiples_vanish(k, a - x - y, 256);
}

/// Subtracting a value from itself always yields zero, no borrow,
/// even parity, no nibble borrow, the zero flag, and a clear sign.
pub proof fn lemma_sub_self(x: u8)
    ensures
        spec_sub_result(x, x) == 0,
        !spec_sub_carry(x, x),
        spec_parity(spec_sub_result(x, x)),
        spec_sub_aux(x, x),
        !spec_sign(spec_sub_result(x, x)),
{
    assert(spec_parity(0u8)) by (bit_vector);
    assert(!spec_bittest(0u8, 7u8)) by (bit_vector);
}

// ---------------------------------------------------------------------------
// Register-select and register-pair fields
// ---------------------------------------------------------------------------

/// The register (or memory-at-HL) named by a 3-bit register-select field.
pub open spec fn spec_idx2src(idx: u8) -> Src {
    match idx {
        0 => Src::B,
        1 => Src::C,
        2 => Src::D,
        3 => Src::E,
        4 => Src::H,
        5 => Src::L,
        6 => Src::Mem,
        _ => Src::A,
    }
}

/// The register pair named by a 2-bit field in the PUSH/POP family,
/// where index 3 means the accumulator-flag pair.
pub open spec fn spec_idx2rp_psw(idx: u8) -> RegPair {
    match idx {
        0 => RegPair::BC,
        1 => RegPair::DE,
        2 => RegPair::HL,
        _ => RegPair::PSW,
    }
}

/// The register pair named by a 2-bit field in the LXI/DAD/INX/DCX family,
/// where index 3 means the stack pointer.
pub open spec fn spec_idx2rp_sp(idx: u8) -> RegPair {
    match idx {
        0 => RegPair::BC,
        1 => RegPair::DE,
        2 => RegPair::HL,
        _ => RegPair::SP,
    }
}

pub fn idx2src(idx: u8) -> (r: Src)
    requires
        idx < 8,
    ensures
        r == spec_idx2src(idx),
{
    match idx {
        0 => Src::B,
        1 => Src::C,
        2 => Src::D,
        3 => Src::E,
        4 => Src::H,
        5 => Src::L,
        6 => Src::Mem,
        _ => Src::A,
    }
}

pub fn idx2rp_psw(idx: u8) -> (r: RegPair)
    requires
        idx < 4,
    ensures
        r == spec_idx2rp_psw(idx),
{
    match idx {
        0 => RegPair::BC,
        1 => RegPair::DE,
        2 => RegPair::HL,
        _ => RegPair::PSW,
    }
}

pub fn idx2rp_sp(idx: u8) -> (r: RegPair)
    requires
        idx < 4,
    ensures
        r == spec_idx2rp_sp(idx),
{
    match idx {
        0 => RegPair::BC,
        1 => RegPair::DE,
        2 => RegPair::HL,
        _ => RegPair::SP,
    }
}

// ---------------------------------------------------------------------------
// 16-bit packing
// ---------------------------------------------------------------------------

/// Two bytes as one 16-bit value, high byte first.
pub open spec fn spec_get_u16(high: u8, low: u8) -> u16 {
    (high * 256 + low) as u16
}

/// High byte of a 16-bit value.
pub open spec fn spec_high(val: u16) -> u8 {
    (val / 256) as u8
}

/// Low byte of a 16-bit value.
pub open spec fn spec_low(val: u16) -> u8 {
    (val % 256) as u8
}

pub fn get_u16(high: u8, low: u8) -> (r: u16)
    ensures
        r == spec_get_u16(high, low),
{
    (high as u16) * 256 + (low as u16)
}

pub fn split_u16(val: u16) -> (r: (u8, u8))
    ensures
        r.0 == spec_high(val),
        r.1 == spec_low(val),
{
    ((val / 256) as u8, (val % 256) as u8)
}

/// Splitting a packed pair gives back both bytes, and packing a split
/// value gives back the value.
pub proof fn lemma_u16_roundtrip(high: u8, low: u8, val: u16)
    ensures
        spec_high(spec_get_u16(high, low)) == high,
        spec_low(spec_get_u16(high, low)) == low,
        spec_get_u16(spec_high(val), spec_low(val)) == val,
{
    assert((high * 256 + low) / 256 == high) by (nonlinear_arith)
        requires
            0 <= high < 256,
            0 <= low < 256,
    ;
    assert((high * 256 + low) % 256 == low) by (nonlinear_arith)
        requires
            0 <= high < 256,
            0 <= low < 256,
    ;
    assert((val / 256) * 256 + (val % 256) == val) by (nonlinear_arith)
        requires
            0 <= val < 65536,
    ;
}

} // verus!
