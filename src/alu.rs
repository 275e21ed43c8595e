use vstd::prelude::*;
use crate::processor_status::{
    flag_set, lemma_with_flag, lemma_zero_neg, with_flag, zero_neg, CARRY, DECIMAL, NEGATIVE, OVERFLOW,
    ZERO,
};

verus! {

/// The carry flag of `p` as 0 or 1.
pub open spec fn carry_in(p: u8) -> int {
    if flag_set(p, CARRY) {
        1
    } else {
        0
    }
}

/// `a` and `v` have the same sign and `r` has the other one.
pub open spec fn signed_overflow(a: u8, v: u8, r: u8) -> bool {
    a & 0x80 == v & 0x80 && r & 0x80 != v & 0x80
}

/// The flags an addition or subtraction leaves: C as given, V from the signs, Z and N
/// from the result.
pub open spec fn arith_flags(p: u8, carry: bool, a: u8, v: u8, r: u8) -> u8 {
    zero_neg(with_flag(with_flag(p, CARRY, carry), OVERFLOW, signed_overflow(a, v, r)), r)
}

/// ADC: the new accumulator and status byte after adding `v` and the carry to `a`,
/// in binary or, with D set, in packed BCD.
pub open spec fn adc(a: u8, v: u8, p: u8) -> (u8, u8) {
    let c = carry_in(p);
    if !flag_set(p, DECIMAL) {
        let sum = a + v + c;
        let r = (sum % 256) as u8;
        (r, arith_flags(p, sum > 255, a, v, r))
    } else {
        let lo = a % 16 + v % 16 + c;
        let hi = a / 16 + v / 16 + (if lo > 9 {
            1int
        } else {
            0
        });
        let r = (lo % 10 + (hi % 10) * 16) as u8;
        (r, arith_flags(p, hi > 9, a, v, r))
    }
}

/// `(x - y) mod 256`.
pub open spec fn sub8(x: int, y: int) -> int {
    (x - y + 256) % 256
}

/// Packed BCD subtraction of `v` and `borrow` from `a`: the result byte and whether
/// no borrow came out of the high digit. A digit that wraps below zero borrows from the
/// next and is corrected by adding ten.
pub open spec fn bcd_sub(a: u8, v: u8, borrow: int) -> (u8, bool) {
    let lo_w = sub8((a % 16) as int, v % 16 + borrow);
    let lo = if lo_w > 10 {
        (lo_w + 10) % 256
    } else {
        lo_w
    };
    let hi_w = sub8((a / 16) as int, v / 16 + (if lo_w > 10 {
        1int
    } else {
        0
    }));
    let hi = if hi_w > 10 {
        (hi_w + 10) % 256
    } else {
        hi_w
    };
    ((lo as u8) | (((hi * 16) % 256) as u8), !(hi_w > 10))
}

/// SBC: in binary, ADC of the one's complement of `v`; with D set, a packed BCD
/// subtraction with the carry as "no borrow".
pub open spec fn sbc(a: u8, v: u8, p: u8) -> (u8, u8) {
    if !flag_set(p, DECIMAL) {
        adc(a, !v, p)
    } else {
        let (r, c) = bcd_sub(a, v, 1 - carry_in(p));
        (r, arith_flags(p, c, a, v, r))
    }
}

/// Packed BCD subtraction; see `bcd_sub`.
#[verifier::rlimit(20)]
pub fn bcd_subtract(a: u8, byte: u8, borrow: u8) -> (r: (u8, bool))
    requires
        borrow <= 1,
    ensures
        r == bcd_sub(a, byte, borrow as int),
{
    let a_lo = a % 16;
    let a_hi = a / 16;
    let op_lo = byte % 16;
    let op_hi = byte / 16;
    let mut lo_result = a_lo.wrapping_sub(op_lo + borrow);
    assert(lo_result == sub8(a_lo as int, op_lo + borrow));
    let c: u8;
    if lo_result > 10 {
        c = 1;
        lo_result = lo_result.wrapping_add(10);
    } else {
        c = 0;
    }
    let mut hi_result = a_hi.wrapping_sub(op_hi + c);
    assert(hi_result == sub8(a_hi as int, op_hi + c));
    let no_borrow = !(hi_result > 10);
    if hi_result > 10 {
        hi_result = hi_result.wrapping_add(10);
    }
    (lo_result | ((hi_result as u16 * 16) % 256) as u8, no_borrow)
}

/// ASL: shift left, bit 7 into C.
pub open spec fn asl(v: u8, p: u8) -> (u8, u8) {
    let r = ((v * 2) % 256) as u8;
    (r, zero_neg(with_flag(p, CARRY, v & 0x80 != 0), r))
}

/// LSR: shift right, bit 0 into C.
pub open spec fn lsr(v: u8, p: u8) -> (u8, u8) {
    let r = v / 2;
    (r, zero_neg(with_flag(p, CARRY, v & 0x01 != 0), r))
}

/// ROL: shift left, C into bit 0, bit 7 into C.
pub open spec fn rol(v: u8, p: u8) -> (u8, u8) {
    let r = ((v * 2) % 256 + carry_in(p)) as u8;
    (r, zero_neg(with_flag(p, CARRY, v & 0x80 != 0), r))
}

/// ROR: shift right, C into bit 7, bit 0 into C.
pub open spec fn ror(v: u8, p: u8) -> (u8, u8) {
    let r = (v / 2 + carry_in(p) * 128) as u8;
    (r, zero_neg(with_flag(p, CARRY, v & 0x01 != 0), r))
}

/// BIT: N and V from bits 7 and 6 of `v`, Z iff `v & a` is zero.
pub open spec fn bit(p: u8, a: u8, v: u8) -> u8 {
    with_flag(with_flag(with_flag(p, NEGATIVE, v & 0x80 != 0), OVERFLOW, v & 0x40 != 0), ZERO, v & a == 0)
}

/// The carry flag that an arithmetic or shift update leaves is the one it was given.
pub proof fn lemma_carry_out(p: u8, carry: bool, overflow: bool, r: u8)
    ensures
        flag_set(zero_neg(with_flag(with_flag(p, CARRY, carry), OVERFLOW, overflow), r), CARRY) == carry,
        flag_set(zero_neg(with_flag(p, CARRY, carry), r), CARRY) == carry,
{
    assert(0x01u8 & 0x40u8 == 0 && 0x40u8 & 0x01u8 == 0) by (bit_vector);
    let q = with_flag(p, CARRY, carry);
    lemma_with_flag(p, CARRY, carry, OVERFLOW);
    lemma_with_flag(q, OVERFLOW, overflow, CARRY);
    lemma_zero_neg(with_flag(q, OVERFLOW, overflow), r);
    lemma_zero_neg(q, r);
    assert(forall|x: u8, y: u8| x & 0x7D == y & 0x7D ==> (x & 0x01 == y & 0x01)) by (bit_vector);
}

/// In binary mode, ADC leaves the low 8 bits of `a + v + C` in A and bit 8 in C.
pub proof fn lemma_adc_binary(a: u8, v: u8, p: u8)
    requires
        !flag_set(p, DECIMAL),
    ensures
        adc(a, v, p).0 == (a + v + carry_in(p)) % 256,
        flag_set(adc(a, v, p).1, CARRY) == ((a + v + carry_in(p)) / 256 == 1),
{
    let sum = a + v + carry_in(p);
    let r = (sum % 256) as u8;
    lemma_carry_out(p, sum > 255, signed_overflow(a, v, r), r);
}

/// In binary mode, SBC of `v` is ADC of the one's complement of `v`: A becomes
/// `a - v - (1 - C)` modulo 256, and C is set iff no borrow was needed.
pub proof fn lemma_sbc_binary(a: u8, v: u8, p: u8)
    requires
        !flag_set(p, DECIMAL),
    ensures
        sbc(a, v, p) == adc(a, !v, p),
        sbc(a, v, p).0 == sub8(a as int, v + 1 - carry_in(p)),
        flag_set(sbc(a, v, p).1, CARRY) == (a >= v + 1 - carry_in(p)),
{
    assert(!v == 255 - v) by (bit_vector);
    lemma_adc_binary(a, !v, p);
}

/// ROR after ROL, with the carry that ROL left, gives back the value and the carry.
pub proof fn lemma_ror_rol(v: u8, p: u8)
    ensures
        ror(rol(v, p).0, rol(v, p).1).0 == v,
        flag_set(ror(rol(v, p).0, rol(v, p).1).1, CARRY) == flag_set(p, CARRY),
{
    let (r1, p1) = rol(v, p);
    lemma_carry_out(p, v & 0x80 != 0, false, r1);
    assert(v & 0x80 != 0 <==> v >= 128) by (bit_vector);
    assert(r1 & 0x01 != 0 <==> r1 % 2 == 1) by (bit_vector);
    let (r2, p2) = ror(r1, p1);
    lemma_carry_out(p1, r1 & 0x01 != 0, false, r2);
}

} // verus!
