use vstd::prelude::*;

verus! {

/// Abstract contents of the register file.
pub struct RegisterState {
    pub a: u8,
    pub f: u8,
    pub b: u8,
    pub c: u8,
    pub d: u8,
    pub e: u8,
    pub h: u8,
    pub l: u8,
    pub sp: u16,
    pub pc: u16,
}

/// The register values after power-on: AF=0x01B0, BC=0x0013, DE=0x00D8,
/// HL=0x014D, SP=0xFFFE, PC=0x0100.
pub open spec fn boot_state() -> RegisterState {
    RegisterState {
        a: 0x01,
        f: 0xB0,
        b: 0x00,
        c: 0x13,
        d: 0x00,
        e: 0xD8,
        h: 0x01,
        l: 0x4D,
        sp: 0xFFFE,
        pc: 0x0100,
    }
}

/// The 16-bit value formed by a high and a low byte.
pub open spec fn pair_value(hi: u8, lo: u8) -> int {
    hi * 256 + lo
}

/// The flags byte with its low nibble cleared.
pub open spec fn masked_flags(v: u8) -> u8 {
    (v / 16 * 16) as u8
}

pub open spec fn af_of(s: RegisterState) -> int {
    pair_value(s.a, s.f)
}

pub open spec fn bc_of(s: RegisterState) -> int {
    pair_value(s.b, s.c)
}

pub open spec fn de_of(s: RegisterState) -> int {
    pair_value(s.d, s.e)
}

pub open spec fn hl_of(s: RegisterState) -> int {
    pair_value(s.h, s.l)
}

/// The state after writing `v` to the AF pair.
pub open spec fn with_af(s: RegisterState, v: u16) -> RegisterState {
    RegisterState { a: (v / 256) as u8, f: masked_flags((v % 256) as u8), ..s }
}

pub open spec fn with_bc(s: RegisterState, v: u16) -> RegisterState {
    RegisterState { b: (v / 256) as u8, c: (v % 256) as u8, ..s }
}

pub open spec fn with_de(s: RegisterState, v: u16) -> RegisterState {
    RegisterState { d: (v / 256) as u8, e: (v % 256) as u8, ..s }
}

pub open spec fn with_hl(s: RegisterState, v: u16) -> RegisterState {
    RegisterState { h: (v / 256) as u8, l: (v % 256) as u8, ..s }
}

/// The processor's register file: eight 8-bit registers and the two 16-bit
/// registers SP and PC. The pairs AF, BC, DE and HL are views over two 8-bit
/// registers each; the low nibble of F always reads as zero.
pub struct Registers {
    a: u8,
    b: u8,
    c: u8,
    d: u8,
    e: u8,
    f: u8,
    h: u8,
    l: u8,
    sp: u16,
    pc: u16,
}

impl View for Registers {
    type V = RegisterState;

    closed spec fn view(&self) -> RegisterState {
        RegisterState {
            a: self.a,
            f: self.f,
            b: self.b,
            c: self.c,
            d: self.d,
            e: self.e,
            h: self.h,
            l: self.l,
            sp: self.sp,
            pc: self.pc,
        }
    }
}

fn split_hi(v: u16) -> (r: u8)
    ensures
        r == v / 256,
{
    (v / 256) as u8
}

fn split_lo(v: u16) -> (r: u8)
    ensures
        r == v % 256,
{
    (v % 256) as u8
}

fn join(hi: u8, lo: u8) -> (r: u16)
    ensures
        r == pair_value(hi, lo),
{
    (hi as u16) * 256 + (lo as u16)
}

impl Registers {
    /// The low nibble of F is zero.
    pub open spec fn wf(&self) -> bool {
        self@.f % 16 == 0
    }

    /// The register file at its power-on values.
    pub fn new() -> (r: Registers)
        ensures
            r.wf(),
            r@ == boot_state(),
    {
        Registers {
            a: 0x01,
            f: 0xB0,
            b: 0x00,
            c: 0x13,
            d: 0x00,
            e: 0xD8,
            h: 0x01,
            l: 0x4D,
            sp: 0xFFFE,
            pc: 0x0100,
        }
    }

    pub fn get_a(&self) -> (r: u8)
        ensures
            r == self@.a,
    {
        self.a
    }

    pub fn get_b(&self) -> (r: u8)
        ensures
            r == self@.b,
    {
        self.b
    }

    pub fn get_c(&self) -> (r: u8)
        ensures
            r == self@.c,
    {
        self.c
    }

    pub fn get_d(&self) -> (r: u8)
        ensures
            r == self@.d,
    {
        self.d
    }

    pub fn get_e(&self) -> (r: u8)
        ensures
            r == self@.e,
    {
        self.e
    }

    pub fn get_f(&self) -> (r: u8)
        ensures
            r == self@.f,
    {
        self.f
    }

    pub fn get_h(&self) -> (r: u8)
        ensures
            r == self@.h,
    {
        self.h
    }

    pub fn get_l(&self) -> (r: u8)
        ensures
            r == self@.l,
    {
        self.l
    }

    pub fn get_sp(&self) -> (r: u16)
        ensures
            r == self@.sp,
    {
        self.sp
    }

    pub fn get_pc(&self) -> (r: u16)
        ensures
            r == self@.pc,
    {
        self.pc
    }

    pub fn get_af(&self) -> (r: u16)
        ensures
            r == af_of(self@),
    {
        join(self.a, self.f)
    }

    pub fn get_bc(&self) -> (r: u16)
        ensures
            r == bc_of(self@),
    {
        join(self.b, self.c)
    }

    pub fn get_de(&self) -> (r: u16)
        ensures
            r == de_of(self@),
    {
        join(self.d, self.e)
    }

    pub fn get_hl(&self) -> (r: u16)
        ensures
            r == hl_of(self@),
    {
        join(self.h, self.l)
    }

    pub fn set_a(&mut self, value: u8)
        ensures
            final(self)@ == (RegisterState { a: value, ..old(self)@ }),
    {
        self.a = value;
    }

    pub fn set_b(&mut self, value: u8)
        ensures
            final(self)@ == (RegisterState { b: value, ..old(self)@ }),
    {
        self.b = value;
    }

    pub fn set_c(&mut self, value: u8)
        ensures
            final(self)@ == (RegisterState { c: value, ..old(self)@ }),
    {
        self.c = value;
    }

    pub fn set_d(&mut self, value: u8)
        ensures
            final(self)@ == (RegisterState { d: value, ..old(self)@ }),
    {
        self.d = value;
    }

    pub fn set_e(&mut self, value: u8)
        ensures
            final(self)@ == (RegisterState { e: value, ..old(self)@ }),
    {
        self.e = value;
    }

    /// Writes F; its low nibble is forced to zero.
    pub fn set_f(&mut self, value: u8)
        ensures
            final(self)@ == (RegisterState { f: masked_flags(value), ..old(self)@ }),
    {
        self.f = value / 16 * 16;
    }

    pub fn set_h(&mut self, value: u8)
        ensures
            final(self)@ == (RegisterState { h: value, ..old(self)@ }),
    {
        self.h = value;
    }

    pub fn set_l(&mut self, value: u8)
        ensures
            final(self)@ == (RegisterState { l: value, ..old(self)@ }),
    {
        self.l = value;
    }

    pub fn set_sp(&mut self, value: u16)
        ensures
            final(self)@ == (RegisterState { sp: value, ..old(self)@ }),
    {
        self.sp = value;
    }

    pub fn set_pc(&mut self, value: u16)
        ensures
            final(self)@ == (RegisterState { pc: value, ..old(self)@ }),
    {
        self.pc = value;
    }

    /// Writes the AF pair; the low nibble of F is forced to zero.
    pub fn set_af(&mut self, value: u16)
        ensures
            final(self)@ == with_af(old(self)@, value),
    {
        self.a = split_hi(value);
        let lo = split_lo(value);
        self.f = lo / 16 * 16;
    }

    pub fn set_bc(&mut self, value: u16)
        ensures
            final(self)@ == with_bc(old(self)@, value),
    {
        self.b = split_hi(value);
        self.c = split_lo(value);
    }

    pub fn set_de(&mut self, value: u16)
        ensures
            final(self)@ == with_de(old(self)@, value),
    {
        self.d = split_hi(value);
        self.e = split_lo(value);
    }

    pub fn set_hl(&mut self, value: u16)
        ensures
            final(self)@ == with_hl(old(self)@, value),
    {
        self.h = split_hi(value);
        self.l = split_lo(value);
    }
}

/// Writing a value to AF and reading AF back gives the value with its low
/// nibble cleared; F keeps a zero low nibble.
pub proof fn lemma_af_round_trip(s: RegisterState, v: u16)
    ensures
        af_of(with_af(s, v)) == v / 16 * 16,
        af_of(with_af(s, v)) == (v & 0xFFF0u16),
        with_af(s, v).f % 16 == 0,
{
    assert((v & 0xFFF0u16) == v / 16 * 16) by (bit_vector);
    assert((v / 256) * 256 + (v % 256) / 16 * 16 == v / 16 * 16) by (nonlinear_arith);
}

/// Writing a pair and reading it back gives the value written, for BC, DE
/// and HL.
pub proof fn lemma_pair_round_trip(s: RegisterState, v: u16)
    ensures
        bc_of(with_bc(s, v)) == v,
        de_of(with_de(s, v)) == v,
        hl_of(with_hl(s, v)) == v,
{
}

} // verus!
