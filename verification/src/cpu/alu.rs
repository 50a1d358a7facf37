use vstd::prelude::*;
use crate::bits::lemma_signed_byte;

use crate::bits::{bit8, get_bit, set_bit, with_bit8};

verus! {

/// 1 for `true`, 0 for `false`.
pub open spec fn b2u(b: bool) -> u8 {
    if b { 1 } else { 0 }
}

/// The flag register `f` with Z, N, H and C (bits 7..4) set to `z`, `n`, `h`, `c`; the low
/// nibble is kept.
pub open spec fn flags(f: u8, z: u8, n: u8, h: u8, c: u8) -> u8 {
    with_bit8(with_bit8(with_bit8(with_bit8(f, 7, z), 6, n), 5, h), 4, c)
}

/// The carry flag of `f`.
pub open spec fn carry(f: u8) -> u8 {
    bit8(f, 4)
}

/// Returns `f` with the four flags set to `z`, `n`, `h`, `c` (each 0 or 1).
pub fn set_flags(f: u8, z: u8, n: u8, h: u8, c: u8) -> (r: u8)
    requires
        z <= 1,
        n <= 1,
        h <= 1,
        c <= 1,
    ensures
        r == flags(f, z, n, h, c),
{
    let r = set_bit(f, 7, z);
    let r = set_bit(r, 6, n);
    let r = set_bit(r, 5, h);
    set_bit(r, 4, c)
}

/// `a + b` wrapped to a byte, and whether it wrapped.
pub fn overflowing_add8(a: u8, b: u8) -> (r: (u8, bool))
    ensures
        r.0 == (a + b) % 256,
        r.1 == (a + b >= 256),
{
    (a.wrapping_add(b), (a as u16) + (b as u16) > 255)
}

/// `a - b` wrapped to a byte, and whether it wrapped.
pub fn overflowing_sub8(a: u8, b: u8) -> (r: (u8, bool))
    ensures
        r.0 == (a - b + 256) % 256,
        r.1 == (a < b),
{
    (a.wrapping_sub(b), a < b)
}

/// ADD: the sum and the new flags.
pub open spec fn add_spec(a: u8, b: u8, f: u8) -> (u8, u8) {
    let r = ((a + b) % 256) as u8;
    (r, flags(f, b2u(r == 0), 0, b2u(a % 16 + b % 16 >= 16), b2u(a + b >= 256)))
}

/// ADC: the sum with the carry and the new flags.
pub open spec fn adc_spec(a: u8, b: u8, f: u8) -> (u8, u8) {
    let c = carry(f);
    let r = ((a + b + c) % 256) as u8;
    (r, flags(f, b2u(r == 0), 0, b2u(a % 16 + b % 16 + c >= 16), b2u(a + b + c >= 256)))
}

/// SUB: the difference and the new flags.
pub open spec fn sub_spec(a: u8, b: u8, f: u8) -> (u8, u8) {
    let r = ((a - b + 256) % 256) as u8;
    (r, flags(f, b2u(r == 0), 1, b2u(a % 16 < b % 16), b2u(a < b)))
}

/// SBC: the difference with the borrow and the new flags.
pub open spec fn sbc_spec(a: u8, b: u8, f: u8) -> (u8, u8) {
    let c = carry(f);
    let r = ((a - b - c + 512) % 256) as u8;
    (r, flags(f, b2u(r == 0), 1, b2u(a % 16 < b % 16 + c), b2u(a < b + c)))
}

/// AND: the conjunction; H is set, N and C cleared.
pub open spec fn and_spec(a: u8, b: u8, f: u8) -> (u8, u8) {
    (a & b, flags(f, b2u(a & b == 0), 0, 1, 0))
}

/// XOR: the exclusive or; N, H and C cleared.
pub open spec fn xor_spec(a: u8, b: u8, f: u8) -> (u8, u8) {
    (a ^ b, flags(f, b2u(a ^ b == 0), 0, 0, 0))
}

/// OR: the disjunction; N, H and C cleared.
pub open spec fn or_spec(a: u8, b: u8, f: u8) -> (u8, u8) {
    (a | b, flags(f, b2u(a | b == 0), 0, 0, 0))
}

/// CP: A is kept, the flags are those of SUB.
pub open spec fn cp_spec(a: u8, b: u8, f: u8) -> (u8, u8) {
    (a, sub_spec(a, b, f).1)
}

/// The eight-bit arithmetic operation `op` (0 ADD, 1 ADC, 2 SUB, 3 SBC, 4 AND, 5 XOR, 6 OR,
/// 7 CP), as encoded in bits 3..5 of the opcode.
pub open spec fn alu_spec(op: u8, a: u8, b: u8, f: u8) -> (u8, u8) {
    if op == 0 {
        add_spec(a, b, f)
    } else if op == 1 {
        adc_spec(a, b, f)
    } else if op == 2 {
        sub_spec(a, b, f)
    } else if op == 3 {
        sbc_spec(a, b, f)
    } else if op == 4 {
        and_spec(a, b, f)
    } else if op == 5 {
        xor_spec(a, b, f)
    } else if op == 6 {
        or_spec(a, b, f)
    } else {
        cp_spec(a, b, f)
    }
}

/// INC: C is kept.
pub open spec fn inc_spec(a: u8, f: u8) -> (u8, u8) {
    let r = ((a + 1) % 256) as u8;
    (r, flags(f, b2u(r == 0), 0, b2u(a % 16 == 15), carry(f)))
}

/// DEC: C is kept.
pub open spec fn dec_spec(a: u8, f: u8) -> (u8, u8) {
    let r = ((a + 255) % 256) as u8;
    (r, flags(f, b2u(r == 0), 1, b2u(a % 16 == 0), carry(f)))
}

/// The half-carry flags as the ALU computes them from the low nibbles.
proof fn lemma_half_carries(a: u8, b: u8, c: u8)
    requires
        c <= 1,
    ensures
        a & 0xF <= 15,
        b & 0xF <= 15,
        c & 0xF <= 15,
        ((((a & 0xF) + (b & 0xF)) as u8) & 0x10) >> 4 == b2u(a % 16 + b % 16 >= 16),
        ((((a & 0xF) + (b & 0xF) + (c & 0xF)) as u8) & 0x10) >> 4 == b2u(a % 16 + b % 16 + c >= 16),
        (((a & 0xF).wrapping_sub(b & 0xF)) & 0x10) >> 4 == b2u(a % 16 < b % 16),
        (((a & 0xF).wrapping_sub(b & 0xF).wrapping_sub(c & 0xF)) & 0x10) >> 4 == b2u(a % 16 < b % 16 + c),
        ((((a & 0xF) + 1) as u8) & 0x10) >> 4 == b2u(a % 16 == 15),
        ((a & 0xF).wrapping_sub(1) & 0x10) >> 4 == b2u(a % 16 == 0),
{
    assert({
        &&& a & 0xF <= 15
        &&& b & 0xF <= 15
        &&& c & 0xF <= 15
        &&& ((((a & 0xF) + (b & 0xF)) as u8) & 0x10) >> 4 == b2u(a % 16 + b % 16 >= 16)
        &&& ((((a & 0xF) + (b & 0xF) + (c & 0xF)) as u8) & 0x10) >> 4 == b2u(a % 16 + b % 16 + c >= 16)
        &&& (((a & 0xF).wrapping_sub(b & 0xF)) & 0x10) >> 4 == b2u(a % 16 < b % 16)
        &&& (((a & 0xF).wrapping_sub(b & 0xF).wrapping_sub(c & 0xF)) & 0x10) >> 4 == b2u(a % 16 < b % 16 + c)
        &&& ((((a & 0xF) + 1) as u8) & 0x10) >> 4 == b2u(a % 16 == 15)
        &&& ((a & 0xF).wrapping_sub(1) & 0x10) >> 4 == b2u(a % 16 == 0)
    }) by (bit_vector)
        requires
            c <= 1;
}

/// ADD.
pub fn alu_add(a: u8, b: u8, f: u8) -> (r: (u8, u8))
    ensures
        r == add_spec(a, b, f),
{
    proof {
        lemma_half_carries(a, b, 0);
    }
    let (result, overflow) = overflowing_add8(a, b);
    let hc = (((a & 0xF) + (b & 0xF)) & 0x10) >> 4;
    (result, set_flags(f, if result == 0 { 1 } else { 0 }, 0, hc, if overflow { 1 } else { 0 }))
}

/// ADC.
pub fn alu_adc(a: u8, b: u8, f: u8) -> (r: (u8, u8))
    ensures
        r == adc_spec(a, b, f),
{
    let c = get_bit(f, 4);
    proof {
        lemma_half_carries(a, b, c);
    }
    let (result1, overflow1) = overflowing_add8(a, b);
    let (result2, overflow2) = overflowing_add8(result1, c);
    let hc = (((a & 0xF) + (b & 0xF) + (c & 0xF)) & 0x10) >> 4;
    (result2, set_flags(f, if result2 == 0 { 1 } else { 0 }, 0, hc, if overflow1 || overflow2 { 1 } else { 0 }))
}

/// SUB (and, keeping A, CP).
pub fn alu_sub(a: u8, b: u8, f: u8) -> (r: (u8, u8))
    ensures
        r == sub_spec(a, b, f),
{
    proof {
        lemma_half_carries(a, b, 0);
    }
    let (result, overflow) = overflowing_sub8(a, b);
    let hc = (((a & 0xF).wrapping_sub(b & 0xF)) & 0x10) >> 4;
    (result, set_flags(f, if result == 0 { 1 } else { 0 }, 1, hc, if overflow { 1 } else { 0 }))
}

/// SBC.
pub fn alu_sbc(a: u8, b: u8, f: u8) -> (r: (u8, u8))
    ensures
        r == sbc_spec(a, b, f),
{
    let c = get_bit(f, 4);
    proof {
        lemma_half_carries(a, b, c);
    }
    let (result1, overflow1) = overflowing_sub8(a, b);
    let (result2, overflow2) = overflowing_sub8(result1, c);
    let hc = (((a & 0xF).wrapping_sub(b & 0xF).wrapping_sub(c & 0xF)) & 0x10) >> 4;
    (result2, set_flags(f, if result2 == 0 { 1 } else { 0 }, 1, hc, if overflow1 || overflow2 { 1 } else { 0 }))
}

/// Runs eight-bit arithmetic operation `op` (0..7) on `a` and `b` with flag register `f`.
pub fn alu(op: u8, a: u8, b: u8, f: u8) -> (r: (u8, u8))
    requires
        op <= 7,
    ensures
        r == alu_spec(op, a, b, f),
{
    if op == 0 {
        alu_add(a, b, f)
    } else if op == 1 {
        alu_adc(a, b, f)
    } else if op == 2 {
        alu_sub(a, b, f)
    } else if op == 3 {
        alu_sbc(a, b, f)
    } else if op == 4 {
        let result = a & b;
        (result, set_flags(f, if result == 0 { 1 } else { 0 }, 0, 1, 0))
    } else if op == 5 {
        let result = a ^ b;
        (result, set_flags(f, if result == 0 { 1 } else { 0 }, 0, 0, 0))
    } else if op == 6 {
        let result = a | b;
        (result, set_flags(f, if result == 0 { 1 } else { 0 }, 0, 0, 0))
    } else {
        let (_, nf) = alu_sub(a, b, f);
        (a, nf)
    }
}

/// Increments `a`.
pub fn inc(a: u8, f: u8) -> (r: (u8, u8))
    ensures
        r == inc_spec(a, f),
{
    let result = a.wrapping_add(1);
    proof {
        lemma_half_carries(a, 0, 0);
    }
    let hc = (((a & 0xF) + 1) & 0x10) >> 4;
    (result, set_flags(f, if result == 0 { 1 } else { 0 }, 0, hc, get_bit(f, 4)))
}

/// Decrements `a`.
pub fn dec(a: u8, f: u8) -> (r: (u8, u8))
    ensures
        r == dec_spec(a, f),
{
    let (result, _) = overflowing_sub8(a, 1);
    proof {
        lemma_half_carries(a, 0, 0);
    }
    let hc = ((a & 0xF).wrapping_sub(1) & 0x10) >> 4;
    (result, set_flags(f, if result == 0 { 1 } else { 0 }, 1, hc, get_bit(f, 4)))
}

/// The rotate/shift operation `op` of the 0xCB page (0 RLC, 1 RRC, 2 RL, 3 RR, 4 SLA, 5 SRA,
/// 6 SWAP, 7 SRL) on `v`: the result and the carry out. RL and RR shift the carry flag in.
pub open spec fn shift_value(op: u8, v: u8, f: u8) -> (u8, u8) {
    if op == 0 {
        ((((v * 2) % 256) + v / 128) as u8, v / 128)
    } else if op == 1 {
        ((v / 2 + (v % 2) * 128) as u8, v % 2)
    } else if op == 2 {
        ((((v * 2) % 256) + carry(f)) as u8, v / 128)
    } else if op == 3 {
        ((v / 2 + carry(f) * 128) as u8, v % 2)
    } else if op == 4 {
        (((v * 2) % 256) as u8, v / 128)
    } else if op == 5 {
        ((v / 2 + (v / 128) * 128) as u8, v % 2)
    } else if op == 6 {
        (((v % 16) * 16 + v / 16) as u8, 0)
    } else {
        (v / 2, v % 2)
    }
}

/// The rotate/shift operation `op` of the 0xCB page: the result, and the flags Z (result
/// zero), N and H cleared, C the bit shifted out.
pub open spec fn shift_spec(op: u8, v: u8, f: u8) -> (u8, u8) {
    let (r, c) = shift_value(op, v, f);
    (r, flags(f, b2u(r == 0), 0, 0, c))
}

/// The accumulator rotations RLCA, RRCA, RLA, RRA (`op` 0..3): as the 0xCB versions, but Z
/// is always cleared.
pub open spec fn rotate_a_spec(op: u8, a: u8, f: u8) -> (u8, u8) {
    let (r, c) = shift_value(op, a, f);
    (r, flags(f, 0, 0, 0, c))
}

/// What the rotate and shift expressions compute on a byte, with carry-in `c`.
proof fn lemma_shifts(v: u8, c: u8)
    requires
        c <= 1,
    ensures
        (v << 1) | (v >> 7) == (((v * 2) % 256) + v / 128) as u8,
        (v >> 1) | (v << 7) == (v / 2 + (v % 2) * 128) as u8,
        (v << 1) | c == (((v * 2) % 256) + c) as u8,
        (v >> 1) | (c << 7) == (v / 2 + c * 128) as u8,
        v << 1 == ((v * 2) % 256) as u8,
        (v >> 1) | (v & 0x80) == (v / 2 + (v / 128) * 128) as u8,
        ((v & 0x0F) << 4) | ((v & 0xF0) >> 4) == ((v % 16) * 16 + v / 16) as u8,
        v >> 1 == v / 2,
        v >> 7 == v / 128,
        v / 128 <= 1,
        v & 1 == v % 2,
        v % 2 <= 1,
{
    assert({
        &&& (v << 1) | (v >> 7) == (((v * 2) % 256) + v / 128) as u8
        &&& (v >> 1) | (v << 7) == (v / 2 + (v % 2) * 128) as u8
        &&& (v << 1) | c == (((v * 2) % 256) + c) as u8
        &&& (v >> 1) | (c << 7) == (v / 2 + c * 128) as u8
        &&& v << 1 == ((v * 2) % 256) as u8
        &&& (v >> 1) | (v & 0x80) == (v / 2 + (v / 128) * 128) as u8
        &&& ((v & 0x0F) << 4) | ((v & 0xF0) >> 4) == ((v % 16) * 16 + v / 16) as u8
        &&& v >> 1 == v / 2
        &&& v >> 7 == v / 128
        &&& v / 128 <= 1
        &&& v & 1 == v % 2
        &&& v % 2 <= 1
    }) by (bit_vector)
        requires
            c <= 1;
}

/// Runs rotate/shift operation `op` (0..7) on `v`.
pub fn shift(op: u8, v: u8, f: u8) -> (r: (u8, u8))
    requires
        op <= 7,
    ensures
        r.0 == shift_value(op, v, f).0,
        r.1 == shift_value(op, v, f).1,
        r.1 <= 1,
{
    let c = get_bit(f, 4);
    proof {
        lemma_shifts(v, c);
    }
    if op == 0 {
        let r = (v << 1) | (v >> 7);
        (r, v >> 7)
    } else if op == 1 {
        let r = (v >> 1) | (v << 7);
        (r, v & 1)
    } else if op == 2 {
        let r = (v << 1) | c;
        (r, v >> 7)
    } else if op == 3 {
        let r = (v >> 1) | (c << 7);
        (r, v & 1)
    } else if op == 4 {
        let r = v << 1;
        (r, v >> 7)
    } else if op == 5 {
        let r = (v >> 1) | (v & 0x80);
        (r, v & 1)
    } else if op == 6 {
        let r = ((v & 0x0F) << 4) | ((v & 0xF0) >> 4);
        (r, 0)
    } else {
        let r = v >> 1;
        (r, v & 1)
    }
}

/// DAA, as this CPU computes it: after an addition a carry or a value above 0x99 adds 0x60
/// and sets C, then a half carry or a low digit above 9 adds 6; after a subtraction C and H
/// subtract 0x60 and 6. Z follows the result, H is cleared, N is kept.
pub open spec fn daa_spec(a: u8, f: u8) -> (u8, u8) {
    let c = carry(f);
    let h = bit8(f, 5);
    if bit8(f, 6) == 0 {
        let up = c == 1 || a > 0x99;
        let v1 = if up { ((a + 0x60) % 256) as u8 } else { a };
        let v2 = if h == 1 || v1 % 16 > 9 { ((v1 + 6) % 256) as u8 } else { v1 };
        (v2, flags(f, b2u(v2 == 0), 0, 0, if up { 1 } else { c }))
    } else {
        let v1 = if c == 1 { ((a + 256 - 0x60) % 256) as u8 } else { a };
        let v2 = if h == 1 { ((v1 + 256 - 6) % 256) as u8 } else { v1 };
        (v2, flags(f, b2u(v2 == 0), 1, 0, c))
    }
}

/// Decimal-adjusts `a`.
#[verifier::rlimit(50)]
pub fn daa(a: u8, f: u8) -> (r: (u8, u8))
    ensures
        r == daa_spec(a, f),
{
    let c = get_bit(f, 4);
    let h = get_bit(f, 5);
    let n = get_bit(f, 6);
    let mut v = a;
    if n == 0 {
        let up = c == 1 || v > 0x99;
        if up {
            v = v.wrapping_add(0x60);
        }
        if h == 1 || v % 16 > 9 {
            v = v.wrapping_add(0x06);
        }
        (v, set_flags(f, if v == 0 { 1 } else { 0 }, 0, 0, if up { 1 } else { c }))
    } else {
        if c == 1 {
            v = v.wrapping_sub(0x60);
        }
        if h == 1 {
            v = v.wrapping_sub(0x06);
        }
        (v, set_flags(f, if v == 0 { 1 } else { 0 }, 1, 0, c))
    }
}

/// ADD HL, rr: the sum and the flags (Z kept, H from bit 11, C from bit 15).
pub open spec fn add16_spec(x: u16, y: u16, f: u8) -> (u16, u8) {
    (((x + y) % 0x10000) as u16, flags(f, bit8(f, 7), 0, b2u(x % 4096 + y % 4096 >= 4096), b2u(x + y >= 0x10000)))
}

/// Adds two register pairs.
pub fn add16(x: u16, y: u16, f: u8) -> (r: (u16, u8))
    ensures
        r == add16_spec(x, y, f),
{
    let result = x.wrapping_add(y);
    let overflow = (x as u32) + (y as u32) > 0xFFFF;
    assert({
        &&& x & 0xFFF <= 0xFFF
        &&& y & 0xFFF <= 0xFFF
        &&& ((((x & 0xFFF) + (y & 0xFFF)) as u16) & 0x1000) >> 12 == b2u(x % 4096 + y % 4096 >= 4096) as u16
    }) by (bit_vector);
    let hc = (((x & 0xFFF) + (y & 0xFFF)) & 0x1000) >> 12;
    (result, set_flags(f, get_bit(f, 7), 0, hc as u8, if overflow { 1 } else { 0 }))
}

/// The signed value of byte `d`.
pub open spec fn signed8(d: u8) -> int {
    if d < 128 { d as int } else { d - 256 }
}

/// SP + d (d signed): the sum and the flags (Z and N cleared, H and C from the unsigned
/// addition of the low byte).
pub open spec fn add_sp_spec(sp: u16, d: u8, f: u8) -> (u16, u8) {
    (((sp + signed8(d) + 0x10000) % 0x10000) as u16,
        flags(f, 0, 0, b2u(sp % 16 + d % 16 >= 16), b2u(sp % 256 + d >= 256)))
}

/// Adds the signed byte `d` to `sp`.
pub fn add_sp(sp: u16, d: u8, f: u8) -> (r: (u16, u8))
    ensures
        r == add_sp_spec(sp, d, f),
{
    let signed_value = (#[verifier::truncate] (d as i8)) as i16;
    proof {
        lemma_signed_byte(d);
    }
    let result = if signed_value >= 0 {
        sp.wrapping_add(signed_value as u16)
    } else {
        sp.wrapping_sub((0 - signed_value) as u16)
    };
    assert({
        &&& sp & 0xF <= 15
        &&& d as u16 & 0xF <= 15
        &&& ((((sp & 0xF) + (d as u16 & 0xF)) as u16) & 0x10) >> 4 == b2u(sp % 16 + d % 16 >= 16) as u16
        &&& ((sp & 0xFF) as u8) as int == sp % 256
    }) by (bit_vector);
    let hc = (((sp & 0xF) + (d as u16 & 0xF)) & 0x10) >> 4;
    let low = (#[verifier::truncate] ((sp & 0xFF) as u8));
    let (_, fc) = overflowing_add8(low, d);
    (result, set_flags(f, 0, 0, hc as u8, if fc { 1 } else { 0 }))
}


/// Subtracting what was added gives the accumulator back, whatever the flags.
pub proof fn lemma_add_then_sub(a: u8, b: u8, f: u8, g: u8)
    ensures
        sub_spec(add_spec(a, b, f).0, b, g).0 == a,
{
}

/// XOR of the accumulator with itself clears it and sets Z.
pub proof fn lemma_xor_self(a: u8, f: u8)
    ensures
        xor_spec(a, a, f).0 == 0,
        bit8(xor_spec(a, a, f).1, 7) == 1,
{
    assert(a ^ a == 0) by (bit_vector);
    crate::bits::lemma_with_bit8(f, 7, 1);
    crate::bits::lemma_with_bit8(with_bit8(f, 7, 1), 6, 0);
    crate::bits::lemma_with_bit8(with_bit8(with_bit8(f, 7, 1), 6, 0), 5, 0);
    crate::bits::lemma_with_bit8(with_bit8(with_bit8(with_bit8(f, 7, 1), 6, 0), 5, 0), 4, 0);
}

/// SWAP twice gives the byte back.
pub proof fn lemma_swap_twice(v: u8, f: u8, g: u8)
    ensures
        shift_value(6, shift_value(6, v, f).0, g).0 == v,
{
}

/// RRC undoes RLC.
pub proof fn lemma_rlc_then_rrc(v: u8, f: u8, g: u8)
    ensures
        shift_value(1, shift_value(0, v, f).0, g).0 == v,
{
}

} // verus!
