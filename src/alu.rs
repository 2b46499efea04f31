use vstd::prelude::*;

use crate::opcode::{effect_of, flag_effect, FlagEffect, Flags};

verus! {

/// The result of an 8-bit operation and the flag values it computes.
#[derive(Debug, Clone, Copy, PartialEq, Eq, Structural)]
pub struct AluOut {
    pub value: u8,
    pub z: bool,
    pub n: bool,
    pub h: bool,
    pub c: bool,
}

pub open spec fn bit_of(b: bool) -> int {
    if b {
        1
    } else {
        0
    }
}

/// `a + b + carry`, with half-carry out of bit 3 and carry out of bit 7.
pub open spec fn add8(a: u8, b: u8, carry: bool) -> AluOut {
    let sum = a + b + bit_of(carry);
    AluOut {
        value: (sum % 256) as u8,
        z: sum % 256 == 0,
        n: false,
        h: a % 16 + b % 16 + bit_of(carry) > 15,
        c: sum > 255,
    }
}

/// `a - b - borrow`, with half-borrow from bit 4 and borrow from bit 8.
pub open spec fn sub8(a: u8, b: u8, borrow: bool) -> AluOut {
    let diff = a - b - bit_of(borrow);
    AluOut {
        value: (diff % 256) as u8,
        z: diff % 256 == 0,
        n: true,
        h: a % 16 < b % 16 + bit_of(borrow),
        c: diff < 0,
    }
}

/// The eight accumulator operations, selected by bits 3-5 of the opcode:
/// ADD, ADC, SUB, SBC, AND, XOR, OR, CP. CP computes SUB's flags and keeps A.
pub open spec fn alu8(op: u8, a: u8, b: u8, carry: bool) -> AluOut {
    if op == 0 {
        add8(a, b, false)
    } else if op == 1 {
        add8(a, b, carry)
    } else if op == 2 {
        sub8(a, b, false)
    } else if op == 3 {
        sub8(a, b, carry)
    } else if op == 4 {
        AluOut { value: a & b, z: a & b == 0, n: false, h: true, c: false }
    } else if op == 5 {
        AluOut { value: a ^ b, z: a ^ b == 0, n: false, h: false, c: false }
    } else if op == 6 {
        AluOut { value: a | b, z: a | b == 0, n: false, h: false, c: false }
    } else {
        AluOut { value: a, ..sub8(a, b, false) }
    }
}

/// Increment: half-carry out of bit 3; the carry is left to the descriptor.
pub open spec fn inc8(a: u8, carry: bool) -> AluOut {
    let v = ((a + 1) % 256) as u8;
    AluOut { value: v, z: v == 0, n: false, h: a % 16 == 15, c: carry }
}

/// Decrement: half-borrow from bit 4; the carry is left to the descriptor.
pub open spec fn dec8(a: u8, carry: bool) -> AluOut {
    let v = ((a + 255) % 256) as u8;
    AluOut { value: v, z: v == 0, n: true, h: a % 16 == 0, c: carry }
}

pub fn add8_exec(a: u8, b: u8, carry: bool) -> (r: AluOut)
    ensures
        r == add8(a, b, carry),
{
    let cin: u16 = if carry {
        1
    } else {
        0
    };
    let sum: u16 = a as u16 + b as u16 + cin;
    let value = (sum % 256) as u8;
    AluOut { value, z: value == 0, n: false, h: a % 16 + b % 16 + (cin as u8) > 15, c: sum > 255 }
}

pub fn sub8_exec(a: u8, b: u8, borrow: bool) -> (r: AluOut)
    ensures
        r == sub8(a, b, borrow),
{
    let bin: u16 = if borrow {
        1
    } else {
        0
    };
    let total: u16 = b as u16 + bin;
    let value = ((a as u16 + 256 - total) % 256) as u8;
    AluOut {
        value,
        z: value == 0,
        n: true,
        h: a % 16 < b % 16 + (bin as u8),
        c: (a as u16) < total,
    }
}

/// Computes one of the eight accumulator operations.
pub fn alu8_exec(op: u8, a: u8, b: u8, carry: bool) -> (r: AluOut)
    ensures
        r == alu8(op, a, b, carry),
{
    if op == 0 {
        add8_exec(a, b, false)
    } else if op == 1 {
        add8_exec(a, b, carry)
    } else if op == 2 {
        sub8_exec(a, b, false)
    } else if op == 3 {
        sub8_exec(a, b, carry)
    } else if op == 4 {
        AluOut { value: a & b, z: a & b == 0, n: false, h: true, c: false }
    } else if op == 5 {
        AluOut { value: a ^ b, z: a ^ b == 0, n: false, h: false, c: false }
    } else if op == 6 {
        AluOut { value: a | b, z: a | b == 0, n: false, h: false, c: false }
    } else {
        let s = sub8_exec(a, b, false);
        AluOut { value: a, ..s }
    }
}

pub fn inc8_exec(a: u8, carry: bool) -> (r: AluOut)
    ensures
        r == inc8(a, carry),
{
    let v = if a == 255 {
        0
    } else {
        a + 1
    };
    AluOut { value: v, z: v == 0, n: false, h: a % 16 == 15, c: carry }
}

pub fn dec8_exec(a: u8, carry: bool) -> (r: AluOut)
    ensures
        r == dec8(a, carry),
{
    let v = if a == 0 {
        255
    } else {
        a - 1
    };
    AluOut { value: v, z: v == 0, n: true, h: a % 16 == 0, c: carry }
}

/// Flag bits of F: Z is bit 7, N bit 6, H bit 5, C bit 4.
pub open spec fn z_of(f: u8) -> bool {
    (f / 128) % 2 == 1
}

pub open spec fn n_of(f: u8) -> bool {
    (f / 64) % 2 == 1
}

pub open spec fn h_of(f: u8) -> bool {
    (f / 32) % 2 == 1
}

pub open spec fn c_of(f: u8) -> bool {
    (f / 16) % 2 == 1
}

/// The F byte that holds the four flags, low nibble zero.
pub open spec fn flags_byte(z: bool, n: bool, h: bool, c: bool) -> u8 {
    (128 * bit_of(z) + 64 * bit_of(n) + 32 * bit_of(h) + 16 * bit_of(c)) as u8
}

/// A flag after an instruction: kept, cleared, raised, or the computed value.
pub open spec fn flag_after(sym: char, old: bool, computed: bool) -> bool {
    match effect_of(sym) {
        FlagEffect::Unaffected => old,
        FlagEffect::Cleared => false,
        FlagEffect::Raised => true,
        FlagEffect::Computed => computed,
    }
}

/// F after an instruction whose descriptor is `fl` and whose operation
/// computed `out`.
pub open spec fn apply_flags(f: u8, fl: Flags, out: AluOut) -> u8 {
    flags_byte(
        flag_after(fl.z, z_of(f), out.z),
        flag_after(fl.n, n_of(f), out.n),
        flag_after(fl.h, h_of(f), out.h),
        flag_after(fl.c, c_of(f), out.c),
    )
}

fn one_flag(sym: char, old: bool, computed: bool) -> (r: bool)
    ensures
        r == flag_after(sym, old, computed),
{
    match flag_effect(sym) {
        FlagEffect::Unaffected => old,
        FlagEffect::Cleared => false,
        FlagEffect::Raised => true,
        FlagEffect::Computed => computed,
    }
}

/// Reads the four flags out of F.
pub fn flag_bits(f: u8) -> (r: (bool, bool, bool, bool))
    ensures
        r == (z_of(f), n_of(f), h_of(f), c_of(f)),
{
    ((f / 128) % 2 == 1, (f / 64) % 2 == 1, (f / 32) % 2 == 1, (f / 16) % 2 == 1)
}

/// Packs four flags into an F byte.
pub fn pack_flags(z: bool, n: bool, h: bool, c: bool) -> (r: u8)
    ensures
        r == flags_byte(z, n, h, c),
        r % 16 == 0,
{
    let mut f: u8 = 0;
    if z {
        f = f + 128;
    }
    if n {
        f = f + 64;
    }
    if h {
        f = f + 32;
    }
    if c {
        f = f + 16;
    }
    f
}

/// Applies an instruction's flag descriptor to F.
pub fn apply_flag_effects(f: u8, fl: &Flags, out: &AluOut) -> (r: u8)
    ensures
        r == apply_flags(f, *fl, *out),
        r % 16 == 0,
{
    let (z, n, h, c) = flag_bits(f);
    pack_flags(
        one_flag(fl.z, z, out.z),
        one_flag(fl.n, n, out.n),
        one_flag(fl.h, h, out.h),
        one_flag(fl.c, c, out.c),
    )
}

/// The value of bit `b` (0 to 7) of a byte.
pub open spec fn bit_weight(b: u8) -> int {
    if b == 0 {
        1
    } else if b == 1 {
        2
    } else if b == 2 {
        4
    } else if b == 3 {
        8
    } else if b == 4 {
        16
    } else if b == 5 {
        32
    } else if b == 6 {
        64
    } else {
        128
    }
}

/// Whether bit `b` of `v` is set.
pub open spec fn bit_set(v: u8, b: u8) -> bool {
    (v as int / bit_weight(b)) % 2 == 1
}

/// The rotate and shift group of the CB-prefixed space, selected by bits
/// 3-5 of the opcode: RLC, RRC, RL, RR, SLA, SRA, SWAP, SRL. Z is computed
/// from the result; N and H are clear; C takes the bit shifted out (SWAP
/// clears it).
pub open spec fn rot8(kind: u8, v: u8, carry: bool) -> AluOut {
    let x = v as int;
    let res: int = if kind == 0 {
        (x * 2) % 256 + x / 128
    } else if kind == 1 {
        x / 2 + (x % 2) * 128
    } else if kind == 2 {
        (x * 2) % 256 + bit_of(carry)
    } else if kind == 3 {
        x / 2 + bit_of(carry) * 128
    } else if kind == 4 {
        (x * 2) % 256
    } else if kind == 5 {
        x / 2 + (x / 128) * 128
    } else if kind == 6 {
        (x % 16) * 16 + x / 16
    } else {
        x / 2
    };
    let c_out = if kind == 0 || kind == 2 || kind == 4 {
        v >= 128
    } else if kind == 6 {
        false
    } else {
        v % 2 == 1
    };
    AluOut { value: res as u8, z: res == 0, n: false, h: false, c: c_out }
}

pub fn rot8_exec(kind: u8, v: u8, carry: bool) -> (r: AluOut)
    ensures
        r == rot8(kind, v, carry),
{
    let cin: u8 = if carry {
        1
    } else {
        0
    };
    let res: u8 = if kind == 0 {
        (v % 128) * 2 + v / 128
    } else if kind == 1 {
        v / 2 + (v % 2) * 128
    } else if kind == 2 {
        (v % 128) * 2 + cin
    } else if kind == 3 {
        v / 2 + cin * 128
    } else if kind == 4 {
        (v % 128) * 2
    } else if kind == 5 {
        v / 2 + (v / 128) * 128
    } else if kind == 6 {
        (v % 16) * 16 + v / 16
    } else {
        v / 2
    };
    let c_out = if kind == 0 || kind == 2 || kind == 4 {
        v >= 128
    } else if kind == 6 {
        false
    } else {
        v % 2 == 1
    };
    AluOut { value: res, z: res == 0, n: false, h: false, c: c_out }
}

fn weight_exec(b: u8) -> (r: u8)
    ensures
        r == bit_weight(b),
{
    if b == 0 {
        1
    } else if b == 1 {
        2
    } else if b == 2 {
        4
    } else if b == 3 {
        8
    } else if b == 4 {
        16
    } else if b == 5 {
        32
    } else if b == 6 {
        64
    } else {
        128
    }
}

/// Whether bit `b` of `v` is set.
pub fn test_bit(v: u8, b: u8) -> (r: bool)
    ensures
        r == bit_set(v, b),
{
    (v / weight_exec(b)) % 2 == 1
}

/// `v` with bit `b` cleared.
pub open spec fn res_bit(v: u8, b: u8) -> u8 {
    if bit_set(v, b) {
        (v - bit_weight(b)) as u8
    } else {
        v
    }
}

/// `v` with bit `b` set.
pub open spec fn set_bit(v: u8, b: u8) -> u8 {
    if bit_set(v, b) {
        v
    } else {
        (v + bit_weight(b)) as u8
    }
}

pub fn res_bit_exec(v: u8, b: u8) -> (r: u8)
    ensures
        r == res_bit(v, b),
{
    let w = weight_exec(b);
    if (v / w) % 2 == 1 {
        proof {
            assert(v >= w) by (nonlinear_arith)
                requires
                    (v / w) % 2 == 1,
                    w > 0,
            ;
        }
        v - w
    } else {
        v
    }
}

pub fn set_bit_exec(v: u8, b: u8) -> (r: u8)
    ensures
        r == set_bit(v, b),
{
    let w = weight_exec(b);
    if (v / w) % 2 == 1 {
        v
    } else {
        proof {
            assert(v + w <= 255) by (nonlinear_arith)
                requires
                    (v / w) % 2 == 0,
                    w == 1 || w == 2 || w == 4 || w == 8 || w == 16 || w == 32 || w == 64 || w
                        == 128,
                    v <= 255,
            ;
        }
        v + w
    }
}


/// Decimal adjustment of A after a BCD addition (N clear) or subtraction
/// (N set), given the N, H and C flags of that operation.
pub open spec fn daa(a: u8, n: bool, h: bool, c: bool) -> AluOut {
    if !n {
        let c2 = c || a > 0x99;
        let a1: int = if c2 {
            a + 0x60
        } else {
            a as int
        };
        let a2: int = if h || a % 16 > 9 {
            a1 + 6
        } else {
            a1
        };
        AluOut { value: (a2 % 256) as u8, z: a2 % 256 == 0, n, h: false, c: c2 }
    } else {
        let a1: int = if c {
            a - 0x60
        } else {
            a as int
        };
        let a2: int = if h {
            a1 - 6
        } else {
            a1
        };
        AluOut { value: (a2 % 256) as u8, z: a2 % 256 == 0, n, h: false, c }
    }
}

pub fn daa_exec(a: u8, n: bool, h: bool, c: bool) -> (r: AluOut)
    ensures
        r == daa(a, n, h, c),
{
    if !n {
        let c2 = c || a > 0x99;
        let mut v: u16 = a as u16;
        if c2 {
            v = v + 0x60;
        }
        if h || a % 16 > 9 {
            v = v + 6;
        }
        let value = (v % 256) as u8;
        AluOut { value, z: value == 0, n, h: false, c: c2 }
    } else {
        let mut v: u16 = a as u16 + 512;
        if c {
            v = v - 0x60;
        }
        if h {
            v = v - 6;
        }
        let value = (v % 256) as u8;
        AluOut { value, z: value == 0, n, h: false, c }
    }
}

/// Flags of adding a signed byte to SP: Z and N clear, H and C from the
/// unsigned addition of the offset byte to SP's low byte.
pub open spec fn sp_offset_flags(sp: u16, e: u8) -> AluOut {
    AluOut { value: 0, z: false, n: false, h: sp % 16 + e % 16 > 15, c: sp % 256 + e > 255 }
}

pub fn sp_offset_flags_exec(sp: u16, e: u8) -> (r: AluOut)
    ensures
        r == sp_offset_flags(sp, e),
{
    AluOut {
        value: 0,
        z: false,
        n: false,
        h: sp % 16 + (e % 16) as u16 > 15,
        c: sp % 256 + e as u16 > 255,
    }
}

} // verus!
