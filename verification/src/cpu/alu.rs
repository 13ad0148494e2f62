//! The arithmetic and logic unit: each operation gives its result and the
//! flag byte it leaves behind.

use super::{flags_byte, flag_c, flag_h, flag_n, flag_z, make_flags, lemma_flags_byte};
use vstd::prelude::*;

verus! {

pub open spec fn bit_of(b: bool) -> int {
    if b { 1 } else { 0 }
}

/// `a + b (+ carry)`: flags Z 0 H C.
pub open spec fn add8_spec(a: u8, b: u8, carry: bool) -> (u8, u8) {
    let sum = a + b + bit_of(carry);
    let res = (sum % 256) as u8;
    (res, flags_byte(res == 0, false, a % 16 + b % 16 + bit_of(carry) > 15, sum > 255))
}

/// `a - b (- carry)`: flags Z 1 H C.
pub open spec fn sub8_spec(a: u8, b: u8, carry: bool) -> (u8, u8) {
    let diff = a - b - bit_of(carry);
    let res = ((diff + 256) % 256) as u8;
    (res, flags_byte(res == 0, true, b % 16 + bit_of(carry) > a % 16, b + bit_of(carry) > a))
}

/// Increment of an 8-bit value: flags Z 0 H -.
pub open spec fn inc8_spec(v: u8, f: u8) -> (u8, u8) {
    let res = ((v + 1) % 256) as u8;
    (res, flags_byte(res == 0, false, v % 16 + 1 > 15, flag_c(f)))
}

/// Decrement of an 8-bit value: flags Z 1 H -.
pub open spec fn dec8_spec(v: u8, f: u8) -> (u8, u8) {
    let res = ((v + 255) % 256) as u8;
    (res, flags_byte(res == 0, true, 1 > v % 16, flag_c(f)))
}

/// 16-bit addition into HL: flags - 0 H C.
pub open spec fn add16_spec(a: u16, b: u16, f: u8) -> (u16, u8) {
    let res = ((a + b) % 65536) as u16;
    (res, flags_byte(flag_z(f), false, a % 4096 + b % 4096 > 4095, a + b > 65535))
}

/// The signed offset that a byte stands for.
pub open spec fn signed8(b: u8) -> int {
    if b < 128 { b as int } else { b - 256 }
}

/// SP plus a signed byte: flags 0 0 H C, taken from the unsigned low byte.
pub open spec fn add_sp_spec(sp: u16, r8: u8) -> (u16, u8) {
    let res = ((sp + signed8(r8) + 65536) % 65536) as u16;
    (res, flags_byte(false, false, sp % 16 + r8 % 16 > 15, sp % 256 + r8 > 255))
}

pub open spec fn and_spec(a: u8, b: u8) -> (u8, u8) {
    let res = a & b;
    (res, flags_byte(res == 0, false, true, false))
}

pub open spec fn xor_spec(a: u8, b: u8) -> (u8, u8) {
    let res = a ^ b;
    (res, flags_byte(res == 0, false, false, false))
}

pub open spec fn or_spec(a: u8, b: u8) -> (u8, u8) {
    let res = a | b;
    (res, flags_byte(res == 0, false, false, false))
}

/// Rotate left; bit 7 goes to bit 0 and to the carry.
pub open spec fn rlc_spec(r: u8) -> (u8, u8) {
    let res = ((r % 128) * 2 + r / 128) as u8;
    (res, flags_byte(res == 0, false, false, r >= 128))
}

/// Rotate left through the carry.
pub open spec fn rl_spec(r: u8, carry: bool) -> (u8, u8) {
    let res = ((r % 128) * 2 + bit_of(carry)) as u8;
    (res, flags_byte(res == 0, false, false, r >= 128))
}

/// Rotate right; bit 0 goes to bit 7 and to the carry.
pub open spec fn rrc_spec(r: u8) -> (u8, u8) {
    let res = (r / 2 + (r % 2) * 128) as u8;
    (res, flags_byte(res == 0, false, false, r % 2 == 1))
}

/// Rotate right through the carry.
pub open spec fn rr_spec(r: u8, carry: bool) -> (u8, u8) {
    let res = (r / 2 + bit_of(carry) * 128) as u8;
    (res, flags_byte(res == 0, false, false, r % 2 == 1))
}

/// Shift left, bit 0 becomes zero.
pub open spec fn sla_spec(r: u8) -> (u8, u8) {
    let res = ((r % 128) * 2) as u8;
    (res, flags_byte(res == 0, false, false, r >= 128))
}

/// Shift right, bit 7 becomes zero.
pub open spec fn srl_spec(r: u8) -> (u8, u8) {
    let res = (r / 2) as u8;
    (res, flags_byte(res == 0, false, false, r % 2 == 1))
}

/// Shift right, bit 7 keeps its value.
pub open spec fn sra_spec(r: u8) -> (u8, u8) {
    let res = (r / 2 + (r / 128) * 128) as u8;
    (res, flags_byte(res == 0, false, false, r % 2 == 1))
}

/// Swap the nibbles.
pub open spec fn swap_spec(r: u8) -> (u8, u8) {
    let res = ((r % 16) * 16 + r / 16) as u8;
    (res, flags_byte(res == 0, false, false, false))
}

/// 2 to the power `n`, for the bits of a byte.
pub open spec fn pow2_8(n: u8) -> u8
    recommends
        n < 8,
{
    if n == 0 {
        1
    } else if n == 1 {
        2
    } else if n == 2 {
        4
    } else if n == 3 {
        8
    } else if n == 4 {
        16
    } else if n == 5 {
        32
    } else if n == 6 {
        64
    } else {
        128
    }
}

pub open spec fn bit_set_in(r: u8, n: u8) -> bool {
    (r / pow2_8(n)) % 2 == 1
}

/// Test bit `n`: flags Z 0 1 -.
pub open spec fn bit_spec(n: u8, r: u8, f: u8) -> u8 {
    flags_byte(!bit_set_in(r, n), false, true, flag_c(f))
}

/// Clear bit `n`.
pub open spec fn res_spec(n: u8, r: u8) -> u8 {
    if bit_set_in(r, n) { (r - pow2_8(n)) as u8 } else { r }
}

/// Set bit `n`.
pub open spec fn set_spec(n: u8, r: u8) -> u8 {
    if bit_set_in(r, n) { r } else { (r + pow2_8(n)) as u8 }
}

/// The rotations of the accumulator leave the zero flag clear.
pub open spec fn clear_z(f: u8) -> u8 {
    flags_byte(false, flag_n(f), flag_h(f), flag_c(f))
}

/// Decimal adjust of the accumulator after a BCD addition or subtraction:
/// flags Z - 0 C.
pub open spec fn daa_spec(a: u8, f: u8) -> (u8, u8) {
    let n = flag_n(f);
    let h = flag_h(f);
    let c = flag_c(f);
    if !n {
        let hi_adjust = c || a > 0x99;
        let a1: u8 = if hi_adjust { ((a + 0x60) % 256) as u8 } else { a };
        let a2: u8 = if h || a1 % 16 > 9 { ((a1 + 0x06) % 256) as u8 } else { a1 };
        (a2, flags_byte(a2 == 0, n, false, c || hi_adjust))
    } else {
        let a1: u8 = if c { ((a + 256 - 0x60) % 256) as u8 } else { a };
        let a2: u8 = if h { ((a1 + 256 - 0x06) % 256) as u8 } else { a1 };
        (a2, flags_byte(a2 == 0, n, false, c))
    }
}

/// Complement of the accumulator: flags 0 1 1 0.
pub open spec fn cpl_spec(a: u8) -> (u8, u8) {
    ((255 - a) as u8, flags_byte(false, true, true, false))
}

/// Set the carry: flags - 0 0 1.
pub open spec fn scf_spec(f: u8) -> u8 {
    flags_byte(flag_z(f), false, false, true)
}

/// Toggle the carry: flags - 0 0 C.
pub open spec fn ccf_spec(f: u8) -> u8 {
    flags_byte(flag_z(f), false, false, !flag_c(f))
}

proof fn lemma_low_nibble(x: u8)
    ensures
        x & 0x0fu8 == x % 16,
{
    assert(x & 0x0fu8 == x % 16) by (bit_vector);
}

pub fn add8(a: u8, b: u8, carry: bool) -> (r: (u8, u8))
    ensures
        r == add8_spec(a, b, carry),
{
    let cin: u16 = if carry { 1 } else { 0 };
    let sum: u16 = a as u16 + b as u16 + cin;
    let res = (sum % 256) as u8;
    let h = (a % 16) as u16 + (b % 16) as u16 + cin > 15;
    (res, make_flags(res == 0, false, h, sum > 255))
}

pub fn sub8(a: u8, b: u8, carry: bool) -> (r: (u8, u8))
    ensures
        r == sub8_spec(a, b, carry),
{
    let cin: u16 = if carry { 1 } else { 0 };
    let res = ((a as u16 + 512 - b as u16 - cin) % 256) as u8;
    let h = (b % 16) as u16 + cin > (a % 16) as u16;
    let c = b as u16 + cin > a as u16;
    (res, make_flags(res == 0, true, h, c))
}

pub fn inc8(v: u8, f: u8) -> (r: (u8, u8))
    ensures
        r == inc8_spec(v, f),
{
    let res = v.wrapping_add(1);
    (res, make_flags(res == 0, false, v % 16 + 1 > 15, super::carry_set(f)))
}

pub fn dec8(v: u8, f: u8) -> (r: (u8, u8))
    ensures
        r == dec8_spec(v, f),
{
    let res = v.wrapping_sub(1);
    (res, make_flags(res == 0, true, 1 > v % 16, super::carry_set(f)))
}

pub fn add16(a: u16, b: u16, f: u8) -> (r: (u16, u8))
    ensures
        r == add16_spec(a, b, f),
{
    let sum: u32 = a as u32 + b as u32;
    let res = (sum % 65536) as u16;
    let h = a % 4096 + b % 4096 > 4095;
    (res, make_flags(super::zero_set(f), false, h, sum > 65535))
}

pub fn add_sp(sp: u16, r8: u8) -> (r: (u16, u8))
    ensures
        r == add_sp_spec(sp, r8),
{
    let h = (sp % 16) as u8 + r8 % 16 > 15;
    let c = sp % 256 + r8 as u16 > 255;
    let res: u16 = if r8 < 128 {
        sp.wrapping_add(r8 as u16)
    } else {
        sp.wrapping_sub(256 - r8 as u16)
    };
    (res, make_flags(false, false, h, c))
}

pub fn and8(a: u8, b: u8) -> (r: (u8, u8))
    ensures
        r == and_spec(a, b),
{
    let res = a & b;
    (res, make_flags(res == 0, false, true, false))
}

pub fn xor8(a: u8, b: u8) -> (r: (u8, u8))
    ensures
        r == xor_spec(a, b),
{
    let res = a ^ b;
    (res, make_flags(res == 0, false, false, false))
}

pub fn or8(a: u8, b: u8) -> (r: (u8, u8))
    ensures
        r == or_spec(a, b),
{
    let res = a | b;
    (res, make_flags(res == 0, false, false, false))
}

pub fn rlc(r: u8) -> (o: (u8, u8))
    ensures
        o == rlc_spec(r),
{
    let res = (r % 128) * 2 + r / 128;
    (res, make_flags(res == 0, false, false, r >= 128))
}

pub fn rl(r: u8, carry: bool) -> (o: (u8, u8))
    ensures
        o == rl_spec(r, carry),
{
    let res = (r % 128) * 2 + if carry { 1u8 } else { 0u8 };
    (res, make_flags(res == 0, false, false, r >= 128))
}

pub fn rrc(r: u8) -> (o: (u8, u8))
    ensures
        o == rrc_spec(r),
{
    let res = r / 2 + (r % 2) * 128;
    (res, make_flags(res == 0, false, false, r % 2 == 1))
}

pub fn rr(r: u8, carry: bool) -> (o: (u8, u8))
    ensures
        o == rr_spec(r, carry),
{
    let res = r / 2 + if carry { 128u8 } else { 0u8 };
    (res, make_flags(res == 0, false, false, r % 2 == 1))
}

pub fn sla(r: u8) -> (o: (u8, u8))
    ensures
        o == sla_spec(r),
{
    let res = (r % 128) * 2;
    (res, make_flags(res == 0, false, false, r >= 128))
}

pub fn srl(r: u8) -> (o: (u8, u8))
    ensures
        o == srl_spec(r),
{
    let res = r / 2;
    (res, make_flags(res == 0, false, false, r % 2 == 1))
}

pub fn sra(r: u8) -> (o: (u8, u8))
    ensures
        o == sra_spec(r),
{
    let res = r / 2 + (r / 128) * 128;
    (res, make_flags(res == 0, false, false, r % 2 == 1))
}

pub fn swap(r: u8) -> (o: (u8, u8))
    ensures
        o == swap_spec(r),
{
    let res = (r % 16) * 16 + r / 16;
    (res, make_flags(res == 0, false, false, false))
}

pub fn pow2(n: u8) -> (p: u8)
    requires
        n < 8,
    ensures
        p == pow2_8(n),
{
    if n == 0 {
        1
    } else if n == 1 {
        2
    } else if n == 2 {
        4
    } else if n == 3 {
        8
    } else if n == 4 {
        16
    } else if n == 5 {
        32
    } else if n == 6 {
        64
    } else {
        128
    }
}

pub fn bit_test(n: u8, r: u8, f: u8) -> (o: u8)
    requires
        n < 8,
    ensures
        o == bit_spec(n, r, f),
{
    let set = (r / pow2(n)) % 2 == 1;
    make_flags(!set, false, true, super::carry_set(f))
}

pub fn bit_res(n: u8, r: u8) -> (o: u8)
    requires
        n < 8,
    ensures
        o == res_spec(n, r),
{
    let p = pow2(n);
    if (r / p) % 2 == 1 {
        r - p
    } else {
        r
    }
}

pub fn bit_set(n: u8, r: u8) -> (o: u8)
    requires
        n < 8,
    ensures
        o == set_spec(n, r),
{
    let p = pow2(n);
    if (r / p) % 2 == 1 {
        r
    } else {
        assert(r + p <= 255) by (nonlinear_arith)
            requires
                (r / p) % 2 == 0,
                p == 1 || p == 2 || p == 4 || p == 8 || p == 16 || p == 32 || p == 64 || p
                    == 128,
        ;
        r + p
    }
}

pub fn daa(a: u8, f: u8) -> (o: (u8, u8))
    ensures
        o == daa_spec(a, f),
{
    let n = super::sub_set(f);
    let h = super::half_set(f);
    let c = super::carry_set(f);
    if !n {
        let hi_adjust = c || a > 0x99;
        let a1 = if hi_adjust { a.wrapping_add(0x60) } else { a };
        let a2 = if h || a1 % 16 > 9 { a1.wrapping_add(0x06) } else { a1 };
        (a2, make_flags(a2 == 0, n, false, c || hi_adjust))
    } else {
        let a1 = if c { a.wrapping_sub(0x60) } else { a };
        let a2 = if h { a1.wrapping_sub(0x06) } else { a1 };
        (a2, make_flags(a2 == 0, n, false, c))
    }
}

pub fn cpl(a: u8) -> (o: (u8, u8))
    ensures
        o == cpl_spec(a),
{
    (255 - a, make_flags(false, true, true, false))
}

pub fn scf(f: u8) -> (o: u8)
    ensures
        o == scf_spec(f),
{
    make_flags(super::zero_set(f), false, false, true)
}

pub fn ccf(f: u8) -> (o: u8)
    ensures
        o == ccf_spec(f),
{
    make_flags(super::zero_set(f), false, false, !super::carry_set(f))
}

pub fn clear_zero(f: u8) -> (o: u8)
    ensures
        o == clear_z(f),
{
    make_flags(false, super::sub_set(f), super::half_set(f), super::carry_set(f))
}

} // verus!
