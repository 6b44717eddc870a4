//! Byte- and word-level helpers shared by the contracts of the whole core.
//!
//! The flag semantics of the processor are defined here once, as spec
//! functions over plain integers, and every instruction handler's contract
//! speaks in these terms.  Arithmetic (`/`, `%`) is used instead of shifts
//! and masks so that the solver can reason about the definitions directly.

use vstd::prelude::*;

verus! {

/// Low byte of a 16-bit word.
pub open spec fn lo8(w: u16) -> u8 {
    (w % 0x100) as u8
}

/// High byte of a 16-bit word.
pub open spec fn hi8(w: u16) -> u8 {
    (w / 0x100) as u8
}

/// Big-endian composition of two bytes into a 16-bit word.
pub open spec fn pair16(h: u8, l: u8) -> u16 {
    (h * 0x100 + l) as u16
}

/// A 16-bit register pair always decomposes into its two halves and back.
/// The halves are exactly the shifted and masked parts of the word.
pub proof fn lemma_pair_round_trip(w: u16)
    ensures
        pair16(hi8(w), lo8(w)) == w,
        hi8(w) == w >> 8,
        lo8(w) == (w & 0xFF),
{
    assert(w / 0x100 <= 0xFF);
    assert(w == 0x100 * (w / 0x100) + w % 0x100);
    assert(w >> 8 == w / 0x100 && (w & 0xFF) == w % 0x100) by (bit_vector);
}

/// Composing two bytes and splitting the word again returns the bytes.
pub proof fn lemma_pair_split(h: u8, l: u8)
    ensures
        hi8(pair16(h, l)) == h,
        lo8(pair16(h, l)) == l,
{
    assert(h * 0x100 + l < 0x10000);
    assert((h * 0x100 + l) / 0x100 == h) by (nonlinear_arith);
    assert((h * 0x100 + l) % 0x100 == l) by (nonlinear_arith);
}

/// True when the byte has an even number of one bits.
pub open spec fn parity_of(v: u8) -> bool {
    (v % 2 + v / 2 % 2 + v / 4 % 2 + v / 8 % 2 + v / 16 % 2 + v / 32 % 2 + v / 64 % 2
        + v / 128 % 2) % 2 == 0
}

/// Sign flag: bit 7 of an 8-bit result.
pub open spec fn sign8(v: u8) -> bool {
    v >= 0x80
}

/// Copy of bit 5 of a byte (the undocumented Y flag).
pub open spec fn bit5(v: u8) -> bool {
    v / 0x20 % 2 == 1
}

/// Copy of bit 3 of a byte (the undocumented X flag).
pub open spec fn bit3(v: u8) -> bool {
    v / 0x08 % 2 == 1
}

/// Copy of bit 1 of a byte (used by the block-transfer flag quirk).
pub open spec fn bit1(v: u8) -> bool {
    v / 0x02 % 2 == 1
}

/// Carry between bit 3 and bit 4 of `a + b + cin`.
pub open spec fn half_add(a: u8, b: u8, cin: bool) -> bool {
    a % 16 + b % 16 + (if cin { 1int } else { 0int }) > 15
}

/// Borrow between bit 3 and bit 4 of `a - b - cin`.
pub open spec fn half_sub(a: u8, b: u8, cin: bool) -> bool {
    (a % 16) < b % 16 + (if cin { 1int } else { 0int })
}

/// Signed overflow of `a + b + cin`, where `r` is the 8-bit result.
pub open spec fn ov_add(a: u8, b: u8, r: u8) -> bool {
    sign8(a) == sign8(b) && sign8(r) != sign8(a)
}

/// Signed overflow of `a - b - cin`, where `r` is the 8-bit result.
pub open spec fn ov_sub(a: u8, b: u8, r: u8) -> bool {
    sign8(a) != sign8(b) && sign8(r) != sign8(a)
}

/// 8-bit sum with carry-in, truncated to a byte.
pub open spec fn add8(a: u8, b: u8, cin: bool) -> u8 {
    ((a + b + (if cin { 1int } else { 0int })) % 0x100) as u8
}

/// Carry out of bit 7 of `a + b + cin`.
pub open spec fn add8_carry(a: u8, b: u8, cin: bool) -> bool {
    a + b + (if cin { 1int } else { 0int }) > 0xFF
}

/// 8-bit difference with borrow-in, truncated to a byte.
pub open spec fn sub8(a: u8, b: u8, cin: bool) -> u8 {
    ((0x100 + a - b - (if cin { 1int } else { 0int })) % 0x100) as u8
}

/// Borrow out of bit 7 of `a - b - cin`.
pub open spec fn sub8_borrow(a: u8, b: u8, cin: bool) -> bool {
    a < b + (if cin { 1int } else { 0int })
}

/// A displacement byte sign-extended to 16 bits.
pub open spec fn sext16(d: u8) -> u16 {
    if d >= 0x80 {
        (0xFF00 + d) as u16
    } else {
        d as u16
    }
}

/// Sign flag of a 16-bit result: bit 15.
pub open spec fn sign16(v: u16) -> bool {
    v >= 0x8000
}

/// 16-bit sum with carry-in, truncated to a word.
pub open spec fn add16(a: u16, b: u16, cin: bool) -> u16 {
    ((a + b + (if cin { 1int } else { 0int })) % 0x10000) as u16
}

/// Carry out of bit 15 of `a + b + cin`.
pub open spec fn add16_carry(a: u16, b: u16, cin: bool) -> bool {
    a + b + (if cin { 1int } else { 0int }) > 0xFFFF
}

/// Carry between bit 11 and bit 12 of `a + b + cin`.
pub open spec fn half_add16(a: u16, b: u16, cin: bool) -> bool {
    a % 0x1000 + b % 0x1000 + (if cin { 1int } else { 0int }) > 0xFFF
}

/// Signed overflow of the 16-bit sum `a + b + cin`, where `r` is the result.
pub open spec fn ov_add16(a: u16, b: u16, r: u16) -> bool {
    sign16(a) == sign16(b) && sign16(r) != sign16(a)
}

} // verus!
