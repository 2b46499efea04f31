use vstd::prelude::*;

use crate::alu::{
    alu8,
    alu8_exec,
    apply_flag_effects,
    apply_flags,
    c_of,
    dec8,
    dec8_exec,
    flag_bits,
    h_of,
    inc8,
    inc8_exec,
    n_of,
    z_of,
    bit_set,
    res_bit,
    res_bit_exec,
    rot8,
    rot8_exec,
    set_bit,
    set_bit_exec,
    test_bit,
    daa,
    daa_exec,
    sp_offset_flags,
    sp_offset_flags_exec,
    AluOut,
};
use crate::error::CoreError;
use crate::mmu::MMU;
use crate::opcode::{Flags, OpcodeTables};
use crate::registers::{
    af_of,
    bc_of,
    boot_state,
    de_of,
    hl_of,
    masked_flags,
    with_af,
    with_bc,
    with_de,
    with_hl,
    RegisterState,
    Registers,
};

verus! {

/// The byte that selects the CB-prefixed table.
pub const PREFIX_CB: u8 = 0xCB;

/// Cycles that a halted processor idles for in one step.
pub const IDLE_CYCLES: u8 = 4;

/// An unprefixed instruction as the engine executes it. Register operands
/// use the hardware's 3-bit code: B, C, D, E, H, L, (HL), A; conditions use
/// its 2-bit code: NZ, Z, NC, C.
#[derive(Debug, Clone, Copy, PartialEq, Eq, Structural)]
pub enum Instr {
    Nop,
    /// Relative jump by a signed byte, under an optional condition.
    Jr(Option<u8>),
    /// Absolute jump to a 16-bit address, under an optional condition.
    Jp(Option<u8>),
    /// Load an immediate byte into a register.
    LdImm(u8),
    /// Load the second register into the first.
    LdReg(u8, u8),
    Inc(u8),
    Dec(u8),
    /// Accumulator operation with a register operand.
    AluReg(u8, u8),
    /// Accumulator operation with an immediate operand.
    AluImm(u8),
    Scf,
    Ccf,
    Cpl,
    Di,
    Ei,
    Halt,
    /// STOP suspends the processor as HALT does; this core has no joypad or
    /// speed switch to model its wake-up.
    Stop,
    /// Load a 16-bit immediate into pair code `k`: BC, DE, HL, SP.
    LdRR16(u8),
    IncRR(u8),
    DecRR(u8),
    /// Add pair code `k` to HL.
    AddHl(u8),
    /// Store A at (BC), (DE), (HL+) or (HL-).
    StoreInd(u8),
    /// Load A from (BC), (DE), (HL+) or (HL-).
    LoadInd(u8),
    /// RLCA, RRCA, RLA, RRA.
    RotA(u8),
    JpHl,
    LdSpHl,
    /// Return, under an optional condition.
    Ret(Option<u8>),
    Reti,
    /// Pop into stack-pair code `k`: BC, DE, HL, AF.
    Pop(u8),
    /// Push stack-pair code `k`: BC, DE, HL, AF.
    Push(u8),
    /// Call a 16-bit address, under an optional condition.
    Call(Option<u8>),
    /// Call the fixed address given.
    Rst(u8),
    /// Store A at 0xFF00 plus an immediate byte, at 0xFF00 plus C, or at a
    /// 16-bit immediate address.
    StoreHigh(u8),
    /// Load A from the addresses that `StoreHigh` names.
    LoadHigh(u8),
    /// Decimal adjustment of A.
    Daa,
    /// Store SP at a 16-bit immediate address, low byte first.
    StoreSp,
    /// Add a signed byte to SP.
    AddSp,
    /// Load SP plus a signed byte into HL.
    LdHlSp,
    /// The unassigned codes, and the CB prefix, which `step` reads
    /// together with the byte after it.
    Unsupported,
}

/// The instruction that an unprefixed opcode byte encodes.
pub open spec fn decode_spec(op: u8) -> Instr {
    if op == 0x00 {
        Instr::Nop
    } else if op == 0x18 {
        Instr::Jr(None)
    } else if op == 0x20 || op == 0x28 || op == 0x30 || op == 0x38 {
        Instr::Jr(Some(((op - 0x20) / 8) as u8))
    } else if op == 0xC3 {
        Instr::Jp(None)
    } else if op == 0xC2 || op == 0xCA || op == 0xD2 || op == 0xDA {
        Instr::Jp(Some(((op - 0xC2) / 8) as u8))
    } else if op == 0x37 {
        Instr::Scf
    } else if op == 0x3F {
        Instr::Ccf
    } else if op == 0x2F {
        Instr::Cpl
    } else if op == 0x10 {
        Instr::Stop
    } else if op == 0x27 {
        Instr::Daa
    } else if op == 0x08 {
        Instr::StoreSp
    } else if op == 0xE8 {
        Instr::AddSp
    } else if op == 0xF8 {
        Instr::LdHlSp
    } else if op == 0x07 || op == 0x0F || op == 0x17 || op == 0x1F {
        Instr::RotA((op / 8) as u8)
    } else if op < 0x40 && op % 16 == 1 {
        Instr::LdRR16((op / 16) as u8)
    } else if op < 0x40 && op % 16 == 3 {
        Instr::IncRR((op / 16) as u8)
    } else if op < 0x40 && op % 16 == 11 {
        Instr::DecRR((op / 16) as u8)
    } else if op < 0x40 && op % 16 == 9 {
        Instr::AddHl((op / 16) as u8)
    } else if op < 0x40 && op % 16 == 2 {
        Instr::StoreInd((op / 16) as u8)
    } else if op < 0x40 && op % 16 == 10 {
        Instr::LoadInd((op / 16) as u8)
    } else if op < 0x40 && op % 8 == 6 {
        Instr::LdImm(((op / 8) % 8) as u8)
    } else if op < 0x40 && op % 8 == 4 {
        Instr::Inc(((op / 8) % 8) as u8)
    } else if op < 0x40 && op % 8 == 5 {
        Instr::Dec(((op / 8) % 8) as u8)
    } else if op == 0x76 {
        Instr::Halt
    } else if 0x40 <= op < 0x80 {
        Instr::LdReg(((op / 8) % 8) as u8, (op % 8) as u8)
    } else if 0x80 <= op < 0xC0 {
        Instr::AluReg(((op / 8) % 8) as u8, (op % 8) as u8)
    } else if op == 0xC9 {
        Instr::Ret(None)
    } else if op == 0xC0 || op == 0xC8 || op == 0xD0 || op == 0xD8 {
        Instr::Ret(Some(((op - 0xC0) / 8) as u8))
    } else if op == 0xD9 {
        Instr::Reti
    } else if op == 0xCD {
        Instr::Call(None)
    } else if op == 0xC4 || op == 0xCC || op == 0xD4 || op == 0xDC {
        Instr::Call(Some(((op - 0xC4) / 8) as u8))
    } else if op >= 0xC0 && op % 16 == 1 {
        Instr::Pop(((op - 0xC0) / 16) as u8)
    } else if op >= 0xC0 && op % 16 == 5 {
        Instr::Push(((op - 0xC0) / 16) as u8)
    } else if op >= 0xC0 && op % 8 == 7 {
        Instr::Rst((op - 0xC7) as u8)
    } else if op >= 0xC0 && op % 8 == 6 {
        Instr::AluImm(((op / 8) % 8) as u8)
    } else if op == 0xE0 {
        Instr::StoreHigh(0)
    } else if op == 0xE2 {
        Instr::StoreHigh(1)
    } else if op == 0xEA {
        Instr::StoreHigh(2)
    } else if op == 0xF0 {
        Instr::LoadHigh(0)
    } else if op == 0xF2 {
        Instr::LoadHigh(1)
    } else if op == 0xFA {
        Instr::LoadHigh(2)
    } else if op == 0xE9 {
        Instr::JpHl
    } else if op == 0xF9 {
        Instr::LdSpHl
    } else if op == 0xF3 {
        Instr::Di
    } else if op == 0xFB {
        Instr::Ei
    } else {
        Instr::Unsupported
    }
}

/// Decodes an unprefixed opcode byte.
pub fn decode(op: u8) -> (r: Instr)
    ensures
        r == decode_spec(op),
{
    if op == 0x00 {
        Instr::Nop
    } else if op == 0x18 {
        Instr::Jr(None)
    } else if op == 0x20 || op == 0x28 || op == 0x30 || op == 0x38 {
        Instr::Jr(Some((op - 0x20) / 8))
    } else if op == 0xC3 {
        Instr::Jp(None)
    } else if op == 0xC2 || op == 0xCA || op == 0xD2 || op == 0xDA {
        Instr::Jp(Some((op - 0xC2) / 8))
    } else if op == 0x37 {
        Instr::Scf
    } else if op == 0x3F {
        Instr::Ccf
    } else if op == 0x2F {
        Instr::Cpl
    } else if op == 0x10 {
        Instr::Stop
    } else if op == 0x27 {
        Instr::Daa
    } else if op == 0x08 {
        Instr::StoreSp
    } else if op == 0xE8 {
        Instr::AddSp
    } else if op == 0xF8 {
        Instr::LdHlSp
    } else if op == 0x07 || op == 0x0F || op == 0x17 || op == 0x1F {
        Instr::RotA(op / 8)
    } else if op < 0x40 && op % 16 == 1 {
        Instr::LdRR16(op / 16)
    } else if op < 0x40 && op % 16 == 3 {
        Instr::IncRR(op / 16)
    } else if op < 0x40 && op % 16 == 11 {
        Instr::DecRR(op / 16)
    } else if op < 0x40 && op % 16 == 9 {
        Instr::AddHl(op / 16)
    } else if op < 0x40 && op % 16 == 2 {
        Instr::StoreInd(op / 16)
    } else if op < 0x40 && op % 16 == 10 {
        Instr::LoadInd(op / 16)
    } else if op < 0x40 && op % 8 == 6 {
        Instr::LdImm((op / 8) % 8)
    } else if op < 0x40 && op % 8 == 4 {
        Instr::Inc((op / 8) % 8)
    } else if op < 0x40 && op % 8 == 5 {
        Instr::Dec((op / 8) % 8)
    } else if op == 0x76 {
        Instr::Halt
    } else if 0x40 <= op && op < 0x80 {
        Instr::LdReg((op / 8) % 8, op % 8)
    } else if 0x80 <= op && op < 0xC0 {
        Instr::AluReg((op / 8) % 8, op % 8)
    } else if op == 0xC9 {
        Instr::Ret(None)
    } else if op == 0xC0 || op == 0xC8 || op == 0xD0 || op == 0xD8 {
        Instr::Ret(Some((op - 0xC0) / 8))
    } else if op == 0xD9 {
        Instr::Reti
    } else if op == 0xCD {
        Instr::Call(None)
    } else if op == 0xC4 || op == 0xCC || op == 0xD4 || op == 0xDC {
        Instr::Call(Some((op - 0xC4) / 8))
    } else if op >= 0xC0 && op % 16 == 1 {
        Instr::Pop((op - 0xC0) / 16)
    } else if op >= 0xC0 && op % 16 == 5 {
        Instr::Push((op - 0xC0) / 16)
    } else if op >= 0xC0 && op % 8 == 7 {
        Instr::Rst(op - 0xC7)
    } else if op >= 0xC0 && op % 8 == 6 {
        Instr::AluImm((op / 8) % 8)
    } else if op == 0xE0 {
        Instr::StoreHigh(0)
    } else if op == 0xE2 {
        Instr::StoreHigh(1)
    } else if op == 0xEA {
        Instr::StoreHigh(2)
    } else if op == 0xF0 {
        Instr::LoadHigh(0)
    } else if op == 0xF2 {
        Instr::LoadHigh(1)
    } else if op == 0xFA {
        Instr::LoadHigh(2)
    } else if op == 0xE9 {
        Instr::JpHl
    } else if op == 0xF9 {
        Instr::LdSpHl
    } else if op == 0xF3 {
        Instr::Di
    } else if op == 0xFB {
        Instr::Ei
    } else {
        Instr::Unsupported
    }
}

/// An instruction of the CB-prefixed space. Every code is assigned: bits
/// 0-2 give the register code, bits 3-5 the operation or bit number.
#[derive(Debug, Clone, Copy, PartialEq, Eq, Structural)]
pub enum CbInstr {
    /// Rotate or shift group: RLC, RRC, RL, RR, SLA, SRA, SWAP, SRL.
    Rot(u8, u8),
    /// Test a bit.
    Bit(u8, u8),
    /// Clear a bit.
    Res(u8, u8),
    /// Set a bit.
    SetBit(u8, u8),
}

/// The instruction that a byte encodes in the CB-prefixed space.
pub open spec fn decode_cb_spec(op: u8) -> CbInstr {
    let hi = ((op / 8) % 8) as u8;
    let r = (op % 8) as u8;
    if op < 0x40 {
        CbInstr::Rot(hi, r)
    } else if op < 0x80 {
        CbInstr::Bit(hi, r)
    } else if op < 0xC0 {
        CbInstr::Res(hi, r)
    } else {
        CbInstr::SetBit(hi, r)
    }
}

/// Decodes a byte of the CB-prefixed space.
pub fn decode_cb(op: u8) -> (r: CbInstr)
    ensures
        r == decode_cb_spec(op),
{
    let hi = (op / 8) % 8;
    let r = op % 8;
    if op < 0x40 {
        CbInstr::Rot(hi, r)
    } else if op < 0x80 {
        CbInstr::Bit(hi, r)
    } else if op < 0xC0 {
        CbInstr::Res(hi, r)
    } else {
        CbInstr::SetBit(hi, r)
    }
}

/// Whether condition `cc` (NZ, Z, NC, C) holds under flags `f`; no condition
/// always holds.
pub open spec fn cond_holds(f: u8, cc: Option<u8>) -> bool {
    match cc {
        None => true,
        Some(k) => if k == 0 {
            !z_of(f)
        } else if k == 1 {
            z_of(f)
        } else if k == 2 {
            !c_of(f)
        } else {
            c_of(f)
        },
    }
}

/// The value of a signed offset byte.
pub open spec fn signed8(e: u8) -> int {
    if e < 128 {
        e as int
    } else {
        e - 256
    }
}

/// Address plus a signed offset, wrapping in 16 bits.
pub open spec fn offset_addr(base: u16, e: u8) -> u16 {
    ((base + signed8(e) + 0x10000) % 0x10000) as u16
}

/// Address plus `k`, wrapping in 16 bits.
pub open spec fn addr_plus(a: u16, k: int) -> u16 {
    ((a + k) % 0x10000) as u16
}

/// The 8-bit register with code `r`, or the byte at HL for code 6.
pub open spec fn r8_spec(s: RegisterState, m: MMU, r: u8) -> u8 {
    if r == 0 {
        s.b
    } else if r == 1 {
        s.c
    } else if r == 2 {
        s.d
    } else if r == 3 {
        s.e
    } else if r == 4 {
        s.h
    } else if r == 5 {
        s.l
    } else if r == 6 {
        m.read_spec(hl_of(s) as u16)
    } else {
        s.a
    }
}

/// The registers with register code `r` (not 6) set to `v`.
pub open spec fn with_r8(s: RegisterState, r: u8, v: u8) -> RegisterState {
    if r == 0 {
        RegisterState { b: v, ..s }
    } else if r == 1 {
        RegisterState { c: v, ..s }
    } else if r == 2 {
        RegisterState { d: v, ..s }
    } else if r == 3 {
        RegisterState { e: v, ..s }
    } else if r == 4 {
        RegisterState { h: v, ..s }
    } else if r == 5 {
        RegisterState { l: v, ..s }
    } else {
        RegisterState { a: v, ..s }
    }
}

/// The 16-bit pair with code `k`: BC, DE, HL, SP.
pub open spec fn rr_spec(s: RegisterState, k: u8) -> u16 {
    if k == 0 {
        bc_of(s) as u16
    } else if k == 1 {
        de_of(s) as u16
    } else if k == 2 {
        hl_of(s) as u16
    } else {
        s.sp
    }
}

/// The registers with pair code `k` set to `v`.
pub open spec fn with_rr(s: RegisterState, k: u8, v: u16) -> RegisterState {
    if k == 0 {
        with_bc(s, v)
    } else if k == 1 {
        with_de(s, v)
    } else if k == 2 {
        with_hl(s, v)
    } else {
        RegisterState { sp: v, ..s }
    }
}

/// The pair with stack code `k`: BC, DE, HL, AF.
pub open spec fn stack_pair(s: RegisterState, k: u8) -> u16 {
    if k == 3 {
        af_of(s) as u16
    } else {
        rr_spec(s, k)
    }
}

pub open spec fn with_stack_pair(s: RegisterState, k: u8, v: u16) -> RegisterState {
    if k == 3 {
        with_af(s, v)
    } else {
        with_rr(s, k, v)
    }
}

/// The two writes that push `v` below `sp`: high byte first, at `sp - 1`.
pub open spec fn push_writes(sp: u16, v: u16) -> Seq<(u16, u8)> {
    seq![(addr_plus(sp, -1), (v / 256) as u8), (addr_plus(sp, -2), (v % 256) as u8)]
}

/// The 16-bit value stored little-endian at `sp`.
pub open spec fn pop_value(m: MMU, sp: u16) -> u16 {
    (m.read_spec(sp) + 256 * m.read_spec(addr_plus(sp, 1))) as u16
}

/// The address of an indirect access: BC, DE, or HL for the two HL forms.
pub open spec fn ind_addr(s: RegisterState, k: u8) -> u16 {
    if k == 0 {
        bc_of(s) as u16
    } else if k == 1 {
        de_of(s) as u16
    } else {
        hl_of(s) as u16
    }
}

/// The registers after an indirect access: HL moves up for (HL+), down for
/// (HL-).
pub open spec fn ind_regs(s: RegisterState, k: u8) -> RegisterState {
    if k == 2 {
        with_hl(s, addr_plus(hl_of(s) as u16, 1))
    } else if k == 3 {
        with_hl(s, addr_plus(hl_of(s) as u16, -1))
    } else {
        s
    }
}

/// The cycles of a conditional instruction: the taken count when its
/// condition holds, else the base count; an unconditional one costs the base.
pub open spec fn cond_cycles(base: u8, taken: u8, cc: Option<u8>, holds: bool) -> u8 {
    if cc is Some && holds {
        taken
    } else {
        base
    }
}

/// What one instruction does: the registers after it, the memory writes it
/// makes, in order, the interrupt-enable and halt state, and its cycle cost.
pub struct Effect {
    pub regs: RegisterState,
    pub writes: Seq<(u16, u8)>,
    pub ime: bool,
    pub halted: bool,
    pub cycles: u8,
}

/// The whole machine: registers, memory map and instruction tables.
pub struct CPU {
    pub reg: Registers,
    pub mmu: MMU,
    pub tables: OpcodeTables,
    /// Interrupt master enable.
    pub ime: bool,
    pub halted: bool,
}

impl CPU {
    pub open spec fn wf(&self) -> bool {
        self.reg.wf() && self.mmu.wf() && self.tables.wf()
    }

    /// The opcode byte at PC.
    pub open spec fn opcode_at_pc(&self) -> u8 {
        self.mmu.read_spec(self.reg@.pc)
    }

    /// The effect of a result that lands in register code `r`: register
    /// codes write the register, code 6 writes memory at HL.
    pub open spec fn store(&self, base: Effect, r: u8, v: u8) -> Effect {
        if r == 6 {
            Effect { writes: seq![(hl_of(self.reg@) as u16, v)], ..base }
        } else {
            Effect { regs: with_r8(base.regs, r, v), ..base }
        }
    }

    /// The address of a high-page or absolute access: 0xFF00 plus the byte
    /// after the opcode, 0xFF00 plus C, or the 16-bit address after it.
    pub open spec fn high_addr(&self, k: u8) -> u16 {
        let s = self.reg@;
        let lo = self.mmu.read_spec(addr_plus(s.pc, 1));
        if k == 0 {
            (0xFF00 + lo) as u16
        } else if k == 1 {
            (0xFF00 + s.c) as u16
        } else {
            (lo + 256 * self.mmu.read_spec(addr_plus(s.pc, 2))) as u16
        }
    }

    /// The effect of the CB-prefixed instruction whose second byte follows
    /// the prefix at PC. Its descriptor comes from the CB-prefixed table.
    pub open spec fn cb_effect(&self) -> Effect {
        let s = self.reg@;
        let m = self.mmu;
        let op = m.read_spec(addr_plus(s.pc, 1));
        let d = self.tables.entry(op, true);
        let next = addr_plus(s.pc, d.bytes as int);
        let base = Effect {
            regs: RegisterState { pc: next, ..s },
            writes: Seq::empty(),
            ime: self.ime,
            halted: self.halted,
            cycles: d.base_cycles(),
        };
        match decode_cb_spec(op) {
            CbInstr::Rot(k, r) => {
                let out = rot8(k, r8_spec(s, m, r), c_of(s.f));
                self.store(
                    Effect {
                        regs: RegisterState { f: apply_flags(s.f, d.flags, out), pc: next, ..s },
                        ..base
                    },
                    r,
                    out.value,
                )
            },
            CbInstr::Bit(b, r) => {
                let v = r8_spec(s, m, r);
                let out = AluOut { value: v, z: !bit_set(v, b), n: false, h: true, c: c_of(s.f) };
                Effect {
                    regs: RegisterState { f: apply_flags(s.f, d.flags, out), pc: next, ..s },
                    ..base
                }
            },
            CbInstr::Res(b, r) => self.store(base, r, res_bit(r8_spec(s, m, r), b)),
            CbInstr::SetBit(b, r) => self.store(base, r, set_bit(r8_spec(s, m, r), b)),
        }
    }

    /// The effect of executing the instruction at PC, or `None` for one the
    /// engine does not execute. A halted processor only idles. The prefix byte selects the CB-prefixed
    /// table for the byte after it. PC moves past the instruction by
    /// its declared length before any jump is taken, so relative jumps count
    /// from the next instruction. A conditional instruction costs the taken
    /// cycle count when its condition holds, the base count otherwise.
    pub open spec fn effect(&self) -> Option<Effect> {
        let s = self.reg@;
        let m = self.mmu;
        let op = self.opcode_at_pc();
        let d = self.tables.entry(op, false);
        let next = addr_plus(s.pc, d.bytes as int);
        let imm8 = m.read_spec(addr_plus(s.pc, 1));
        let imm16 = imm8 + 256 * m.read_spec(addr_plus(s.pc, 2));
        let base = Effect {
            regs: RegisterState { pc: next, ..s },
            writes: Seq::empty(),
            ime: self.ime,
            halted: self.halted,
            cycles: d.base_cycles(),
        };
        let flagged = |out: AluOut|
            RegisterState { f: apply_flags(s.f, d.flags, out), pc: next, ..s };
        if self.halted {
            Some(Effect { regs: s, cycles: IDLE_CYCLES, ..base })
        } else if op == PREFIX_CB {
            Some(self.cb_effect())
        } else {
            match decode_spec(op) {
                Instr::Nop => Some(base),
                Instr::Jr(cc) => if cc is Some && cond_holds(s.f, cc) {
                    Some(
                        Effect {
                            regs: RegisterState { pc: offset_addr(next, imm8), ..s },
                            cycles: d.taken_cycles(),
                            ..base
                        },
                    )
                } else if cc is None {
                    Some(Effect { regs: RegisterState { pc: offset_addr(next, imm8), ..s }, ..base })
                } else {
                    Some(base)
                },
                Instr::Jp(cc) => if cc is Some && cond_holds(s.f, cc) {
                    Some(
                        Effect {
                            regs: RegisterState { pc: imm16 as u16, ..s },
                            cycles: d.taken_cycles(),
                            ..base
                        },
                    )
                } else if cc is None {
                    Some(Effect { regs: RegisterState { pc: imm16 as u16, ..s }, ..base })
                } else {
                    Some(base)
                },
                Instr::LdImm(r) => Some(self.store(base, r, imm8)),
                Instr::LdReg(dst, src) => Some(self.store(base, dst, r8_spec(s, m, src))),
                Instr::Inc(r) => {
                    let out = inc8(r8_spec(s, m, r), c_of(s.f));
                    Some(self.store(Effect { regs: flagged(out), ..base }, r, out.value))
                },
                Instr::Dec(r) => {
                    let out = dec8(r8_spec(s, m, r), c_of(s.f));
                    Some(self.store(Effect { regs: flagged(out), ..base }, r, out.value))
                },
                Instr::AluReg(k, src) => {
                    let out = alu8(k, s.a, r8_spec(s, m, src), c_of(s.f));
                    Some(Effect { regs: RegisterState { a: out.value, ..flagged(out) }, ..base })
                },
                Instr::AluImm(k) => {
                    let out = alu8(k, s.a, imm8, c_of(s.f));
                    Some(Effect { regs: RegisterState { a: out.value, ..flagged(out) }, ..base })
                },
                Instr::Scf => {
                    let out = AluOut { value: s.a, z: z_of(s.f), n: false, h: false, c: true };
                    Some(Effect { regs: flagged(out), ..base })
                },
                Instr::Ccf => {
                    let out = AluOut { value: s.a, z: z_of(s.f), n: false, h: false, c: !c_of(s.f) };
                    Some(Effect { regs: flagged(out), ..base })
                },
                Instr::Cpl => {
                    let out = AluOut {
                        value: (255 - s.a) as u8,
                        z: z_of(s.f),
                        n: true,
                        h: true,
                        c: c_of(s.f),
                    };
                    Some(Effect { regs: RegisterState { a: out.value, ..flagged(out) }, ..base })
                },
                Instr::Di => Some(Effect { ime: false, ..base }),
                Instr::Ei => Some(Effect { ime: true, ..base }),
                Instr::Halt => Some(Effect { halted: true, ..base }),
                Instr::Stop => Some(Effect { halted: true, ..base }),
                Instr::LdRR16(k) => Some(
                    Effect { regs: RegisterState { pc: next, ..with_rr(s, k, imm16 as u16) }, ..base },
                ),
                Instr::IncRR(k) => Some(
                    Effect {
                        regs: RegisterState {
                            pc: next,
                            ..with_rr(s, k, addr_plus(rr_spec(s, k), 1))
                        },
                        ..base
                    },
                ),
                Instr::DecRR(k) => Some(
                    Effect {
                        regs: RegisterState {
                            pc: next,
                            ..with_rr(s, k, addr_plus(rr_spec(s, k), -1))
                        },
                        ..base
                    },
                ),
                Instr::AddHl(k) => {
                    let hl = hl_of(s);
                    let v = rr_spec(s, k);
                    let out = AluOut {
                        value: 0,
                        z: z_of(s.f),
                        n: false,
                        h: hl % 4096 + v % 4096 > 4095,
                        c: hl + v > 65535,
                    };
                    Some(
                        Effect {
                            regs: RegisterState {
                                f: apply_flags(s.f, d.flags, out),
                                pc: next,
                                ..with_hl(s, ((hl + v) % 65536) as u16)
                            },
                            ..base
                        },
                    )
                },
                Instr::StoreInd(k) => Some(
                    Effect {
                        regs: RegisterState { pc: next, ..ind_regs(s, k) },
                        writes: seq![(ind_addr(s, k), s.a)],
                        ..base
                    },
                ),
                Instr::LoadInd(k) => Some(
                    Effect {
                        regs: RegisterState {
                            a: m.read_spec(ind_addr(s, k)),
                            pc: next,
                            ..ind_regs(s, k)
                        },
                        ..base
                    },
                ),
                Instr::RotA(k) => {
                    let out = rot8(k, s.a, c_of(s.f));
                    Some(Effect { regs: RegisterState { a: out.value, ..flagged(out) }, ..base })
                },
                Instr::JpHl => Some(Effect { regs: RegisterState { pc: hl_of(s) as u16, ..s }, ..base }),
                Instr::LdSpHl => Some(
                    Effect { regs: RegisterState { sp: hl_of(s) as u16, pc: next, ..s }, ..base },
                ),
                Instr::Ret(cc) => if cond_holds(s.f, cc) {
                    Some(
                        Effect {
                            regs: RegisterState {
                                pc: pop_value(m, s.sp),
                                sp: addr_plus(s.sp, 2),
                                ..s
                            },
                            cycles: cond_cycles(d.base_cycles(), d.taken_cycles(), cc, true),
                            ..base
                        },
                    )
                } else {
                    Some(base)
                },
                Instr::Reti => Some(
                    Effect {
                        regs: RegisterState { pc: pop_value(m, s.sp), sp: addr_plus(s.sp, 2), ..s },
                        ime: true,
                        ..base
                    },
                ),
                Instr::Pop(k) => Some(
                    Effect {
                        regs: RegisterState {
                            pc: next,
                            ..with_stack_pair(
                                RegisterState { sp: addr_plus(s.sp, 2), ..s },
                                k,
                                pop_value(m, s.sp),
                            )
                        },
                        ..base
                    },
                ),
                Instr::Push(k) => Some(
                    Effect {
                        regs: RegisterState { sp: addr_plus(s.sp, -2), pc: next, ..s },
                        writes: push_writes(s.sp, stack_pair(s, k)),
                        ..base
                    },
                ),
                Instr::Call(cc) => if cond_holds(s.f, cc) {
                    Some(
                        Effect {
                            regs: RegisterState { sp: addr_plus(s.sp, -2), pc: imm16 as u16, ..s },
                            writes: push_writes(s.sp, next),
                            cycles: cond_cycles(d.base_cycles(), d.taken_cycles(), cc, true),
                            ..base
                        },
                    )
                } else {
                    Some(base)
                },
                Instr::Rst(t) => Some(
                    Effect {
                        regs: RegisterState { sp: addr_plus(s.sp, -2), pc: t as u16, ..s },
                        writes: push_writes(s.sp, next),
                        ..base
                    },
                ),
                Instr::StoreHigh(k) => Some(
                    Effect { writes: seq![(self.high_addr(k), s.a)], ..base },
                ),
                Instr::LoadHigh(k) => Some(
                    Effect {
                        regs: RegisterState { a: m.read_spec(self.high_addr(k)), pc: next, ..s },
                        ..base
                    },
                ),
                Instr::Daa => {
                    let out = daa(s.a, n_of(s.f), h_of(s.f), c_of(s.f));
                    Some(Effect { regs: RegisterState { a: out.value, ..flagged(out) }, ..base })
                },
                Instr::StoreSp => Some(
                    Effect {
                        writes: seq![
                            (imm16 as u16, (s.sp % 256) as u8),
                            (addr_plus(imm16 as u16, 1), (s.sp / 256) as u8),
                        ],
                        ..base
                    },
                ),
                Instr::AddSp => {
                    let out = sp_offset_flags(s.sp, imm8);
                    Some(
                        Effect {
                            regs: RegisterState { sp: offset_addr(s.sp, imm8), ..flagged(out) },
                            ..base
                        },
                    )
                },
                Instr::LdHlSp => {
                    let out = sp_offset_flags(s.sp, imm8);
                    Some(
                        Effect {
                            regs: RegisterState {
                                f: apply_flags(s.f, d.flags, out),
                                pc: next,
                                ..with_hl(s, offset_addr(s.sp, imm8))
                            },
                            ..base
                        },
                    )
                },
                Instr::Unsupported => None,
            }
        }
    }
}


fn cond_exec(f: u8, cc: Option<u8>) -> (r: bool)
    ensures
        r == cond_holds(f, cc),
{
    let (z, _n, _h, c) = flag_bits(f);
    match cc {
        None => true,
        Some(k) => if k == 0 {
            !z
        } else if k == 1 {
            z
        } else if k == 2 {
            !c
        } else {
            c
        },
    }
}

fn offset_exec(base: u16, e: u8) -> (r: u16)
    ensures
        r == offset_addr(base, e),
{
    let v: u32 = if e < 128 {
        base as u32 + 0x10000 + e as u32
    } else {
        base as u32 + 0x10000 + e as u32 - 256
    };
    (v % 0x10000) as u16
}

fn plus_exec(a: u16, k: u8) -> (r: u16)
    ensures
        r == addr_plus(a, k as int),
{
    ((a as u32 + k as u32) % 0x10000) as u16
}

fn minus_exec(a: u16, k: u8) -> (r: u16)
    ensures
        r == addr_plus(a, -(k as int)),
{
    ((a as u32 + 0x10000 - k as u32) % 0x10000) as u16
}

proof fn lemma_masked_identity(v: u8)
    requires
        v % 16 == 0,
    ensures
        masked_flags(v) == v,
{
}

impl CPU {
    /// A machine at its power-on register values, with cleared memory, no
    /// cartridge, interrupts disabled and not halted.
    pub fn new(tables: OpcodeTables) -> (r: CPU)
        requires
            tables.wf(),
        ensures
            r.wf(),
            r.reg@ == boot_state(),
            r.mmu.cartridge is None,
            r.tables == tables,
            !r.ime,
            !r.halted,
    {
        let reg = Registers::new();
        let mmu = MMU::new();
        CPU { reg, mmu, tables, ime: false, halted: false }
    }

    /// The 8-bit register with code `r`, or the byte at HL for code 6.
    pub fn read_r8(&self, r: u8) -> (v: u8)
        requires
            self.wf(),
        ensures
            v == r8_spec(self.reg@, self.mmu, r),
    {
        if r == 0 {
            self.reg.get_b()
        } else if r == 1 {
            self.reg.get_c()
        } else if r == 2 {
            self.reg.get_d()
        } else if r == 3 {
            self.reg.get_e()
        } else if r == 4 {
            self.reg.get_h()
        } else if r == 5 {
            self.reg.get_l()
        } else if r == 6 {
            self.mmu.read(self.reg.get_hl())
        } else {
            self.reg.get_a()
        }
    }

    /// Stores `v` in the register with code `r`, or at HL for code 6.
    fn store_r8(&mut self, r: u8, v: u8)
        requires
            old(self).wf(),
        ensures
            final(self).wf(),
            final(self).tables == old(self).tables,
            final(self).ime == old(self).ime,
            final(self).halted == old(self).halted,
            r == 6 ==> final(self).reg@ == old(self).reg@ && old(self).mmu.write_rel(
                final(self).mmu,
                hl_of(old(self).reg@) as u16,
                v,
            ),
            r != 6 ==> final(self).reg@ == with_r8(old(self).reg@, r, v) && final(self).mmu
                == old(self).mmu,
    {
        if r == 0 {
            self.reg.set_b(v);
        } else if r == 1 {
            self.reg.set_c(v);
        } else if r == 2 {
            self.reg.set_d(v);
        } else if r == 3 {
            self.reg.set_e(v);
        } else if r == 4 {
            self.reg.set_h(v);
        } else if r == 5 {
            self.reg.set_l(v);
        } else if r == 6 {
            let hl = self.reg.get_hl();
            self.mmu.write(hl, v);
        } else {
            self.reg.set_a(v);
        }
    }

    /// The 16-bit pair with code `k`: BC, DE, HL, SP.
    fn read_rr(&self, k: u8) -> (v: u16)
        ensures
            v == rr_spec(self.reg@, k),
    {
        if k == 0 {
            self.reg.get_bc()
        } else if k == 1 {
            self.reg.get_de()
        } else if k == 2 {
            self.reg.get_hl()
        } else {
            self.reg.get_sp()
        }
    }

    fn write_rr(&mut self, k: u8, v: u16)
        requires
            old(self).wf(),
        ensures
            final(self).wf(),
            final(self).reg@ == with_rr(old(self).reg@, k, v),
            final(self).mmu == old(self).mmu,
            final(self).tables == old(self).tables,
            final(self).ime == old(self).ime,
            final(self).halted == old(self).halted,
    {
        if k == 0 {
            self.reg.set_bc(v);
        } else if k == 1 {
            self.reg.set_de(v);
        } else if k == 2 {
            self.reg.set_hl(v);
        } else {
            self.reg.set_sp(v);
        }
    }

    fn read_stack_pair(&self, k: u8) -> (v: u16)
        ensures
            v == stack_pair(self.reg@, k),
    {
        if k == 3 {
            self.reg.get_af()
        } else {
            self.read_rr(k)
        }
    }

    fn write_stack_pair(&mut self, k: u8, v: u16)
        requires
            old(self).wf(),
        ensures
            final(self).wf(),
            final(self).reg@ == with_stack_pair(old(self).reg@, k, v),
            final(self).mmu == old(self).mmu,
            final(self).tables == old(self).tables,
            final(self).ime == old(self).ime,
            final(self).halted == old(self).halted,
    {
        if k == 3 {
            proof {
                crate::registers::lemma_af_round_trip(self.reg@, v);
            }
            self.reg.set_af(v);
        } else {
            self.write_rr(k, v);
        }
    }

    /// Pushes `v`: high byte at SP - 1, low byte at SP - 2, then SP drops by 2.
    fn push16(&mut self, v: u16)
        requires
            old(self).wf(),
        ensures
            final(self).wf(),
            final(self).reg@ == (RegisterState {
                sp: addr_plus(old(self).reg@.sp, -2),
                ..old(self).reg@
            }),
            old(self).mmu.writes_rel(final(self).mmu, push_writes(old(self).reg@.sp, v)),
            final(self).tables == old(self).tables,
            final(self).ime == old(self).ime,
            final(self).halted == old(self).halted,
    {
        let sp = self.reg.get_sp();
        let a1 = minus_exec(sp, 1);
        let a2 = minus_exec(sp, 2);
        let hi = (v / 256) as u8;
        let lo = (v % 256) as u8;
        let ghost m0 = self.mmu;
        self.mmu.write(a1, hi);
        let ghost m1 = self.mmu;
        self.mmu.write(a2, lo);
        let ghost ws = push_writes(sp, v);
        assert(ws[0] == (a1, hi) && ws[1] == (a2, lo));
        assert(m0.write_rel(m1, ws[0].0, ws[0].1) && m1.write_rel(self.mmu, ws[1].0, ws[1].1));
        self.reg.set_sp(a2);
    }

    /// Pops the little-endian value at SP; SP rises by 2.
    fn pop16(&mut self) -> (v: u16)
        requires
            old(self).wf(),
        ensures
            final(self).wf(),
            v == pop_value(old(self).mmu, old(self).reg@.sp),
            final(self).reg@ == (RegisterState {
                sp: addr_plus(old(self).reg@.sp, 2),
                ..old(self).reg@
            }),
            final(self).mmu == old(self).mmu,
            final(self).tables == old(self).tables,
            final(self).ime == old(self).ime,
            final(self).halted == old(self).halted,
    {
        let sp = self.reg.get_sp();
        let lo = self.mmu.read(sp);
        let hi = self.mmu.read(plus_exec(sp, 1));
        self.reg.set_sp(plus_exec(sp, 2));
        lo as u16 + 256 * (hi as u16)
    }

    fn ind_addr_exec(&self, k: u8) -> (a: u16)
        ensures
            a == ind_addr(self.reg@, k),
    {
        if k == 0 {
            self.reg.get_bc()
        } else if k == 1 {
            self.reg.get_de()
        } else {
            self.reg.get_hl()
        }
    }

    /// Moves HL after an (HL+) or (HL-) access.
    fn ind_update(&mut self, k: u8)
        requires
            old(self).wf(),
        ensures
            final(self).wf(),
            final(self).reg@ == ind_regs(old(self).reg@, k),
            final(self).mmu == old(self).mmu,
            final(self).tables == old(self).tables,
            final(self).ime == old(self).ime,
            final(self).halted == old(self).halted,
    {
        if k == 2 {
            let hl = self.reg.get_hl();
            self.reg.set_hl(plus_exec(hl, 1));
        } else if k == 3 {
            let hl = self.reg.get_hl();
            self.reg.set_hl(minus_exec(hl, 1));
        }
    }

    fn high_addr_exec(&self, k: u8) -> (a: u16)
        requires
            self.wf(),
        ensures
            a == self.high_addr(k),
    {
        let pc = self.reg.get_pc();
        let lo = self.mmu.read(plus_exec(pc, 1));
        if k == 0 {
            0xFF00 + lo as u16
        } else if k == 1 {
            0xFF00 + self.reg.get_c() as u16
        } else {
            lo as u16 + 256 * (self.mmu.read(plus_exec(pc, 2)) as u16)
        }
    }

    /// Binds a cartridge to the memory map.
    pub fn load_cartridge(&mut self, cartridge: crate::cartridge::Cartridge)
        requires
            old(self).wf(),
            cartridge.wf(),
        ensures
            final(self).wf(),
            final(self).mmu.cartridge == Some(cartridge),
            final(self).reg@ == old(self).reg@,
            final(self).tables == old(self).tables,
    {
        self.mmu.load_cartridge(cartridge);
    }

    /// Executes the CB-prefixed instruction at PC and returns its cycles.
    fn step_cb(&mut self) -> (r: u8)
        requires
            old(self).wf(),
        ensures
            final(self).wf(),
            final(self).tables == old(self).tables,
            r == old(self).cb_effect().cycles,
            final(self).reg@ == old(self).cb_effect().regs,
            final(self).ime == old(self).cb_effect().ime,
            final(self).halted == old(self).cb_effect().halted,
            old(self).mmu.writes_rel(final(self).mmu, old(self).cb_effect().writes),
    {
        let pc = self.reg.get_pc();
        let op = self.mmu.read(plus_exec(pc, 1));
        let d = self.tables.lookup(op, true);
        let bytes = d.bytes;
        let base = d.cycles[0];
        let fl: Flags = d.flags;
        let next = plus_exec(pc, bytes);
        let f = self.reg.get_f();
        let (_z, _n, _h, c) = flag_bits(f);
        match decode_cb(op) {
            CbInstr::Rot(k, r) => {
                let out = rot8_exec(k, self.read_r8(r), c);
                let nf = apply_flag_effects(f, &fl, &out);
                proof {
                    lemma_masked_identity(nf);
                }
                self.reg.set_f(nf);
                self.reg.set_pc(next);
                self.store_r8(r, out.value);
            },
            CbInstr::Bit(b, r) => {
                let v = self.read_r8(r);
                let out = AluOut { value: v, z: !test_bit(v, b), n: false, h: true, c };
                let nf = apply_flag_effects(f, &fl, &out);
                proof {
                    lemma_masked_identity(nf);
                }
                self.reg.set_f(nf);
                self.reg.set_pc(next);
            },
            CbInstr::Res(b, r) => {
                let v = res_bit_exec(self.read_r8(r), b);
                self.reg.set_pc(next);
                self.store_r8(r, v);
            },
            CbInstr::SetBit(b, r) => {
                let v = set_bit_exec(self.read_r8(r), b);
                self.reg.set_pc(next);
                self.store_r8(r, v);
            },
        }
        base
    }

    /// Nothing has changed between `self` and `new`.
    pub open spec fn same_as(&self, new: CPU) -> bool {
        &&& new.reg@ == self.reg@
        &&& new.mmu == self.mmu
        &&& new.ime == self.ime
        &&& new.halted == self.halted
    }

    /// Fetches, decodes and executes one instruction and returns the cycles
    /// it took; a halted processor idles instead until the caller clears
    /// `halted`. Without a cartridge it fails with `CartridgeNotLoaded`, and
    /// on an instruction it does not execute with `UnsupportedInstruction`;
    /// either way nothing changes.
    pub fn step(&mut self) -> (r: Result<u8, CoreError>)
        requires
            old(self).wf(),
        ensures
            final(self).wf(),
            final(self).tables == old(self).tables,
            old(self).mmu.cartridge is None ==> r == Err::<u8, CoreError>(
                CoreError::CartridgeNotLoaded,
            ) && old(self).same_as(*final(self)),
            old(self).mmu.cartridge is Some ==> match old(self).effect() {
                None => r == Err::<u8, CoreError>(
                    CoreError::UnsupportedInstruction(old(self).opcode_at_pc()),
                ) && old(self).same_as(*final(self)),
                Some(e) => {
                    &&& r == Ok::<u8, CoreError>(e.cycles)
                    &&& final(self).reg@ == e.regs
                    &&& final(self).ime == e.ime
                    &&& final(self).halted == e.halted
                    &&& old(self).mmu.writes_rel(final(self).mmu, e.writes)
                },
            },
    {
        if self.mmu.cartridge.is_none() {
            return Err(CoreError::CartridgeNotLoaded);
        }
        if self.halted {
            return Ok(IDLE_CYCLES);
        }
        let pc = self.reg.get_pc();
        let op = self.mmu.read(pc);
        if op == PREFIX_CB {
            return Ok(self.step_cb());
        }
        let instr = decode(op);
        if let Instr::Unsupported = instr {
            return Err(CoreError::UnsupportedInstruction(op));
        }
        let d = self.tables.lookup(op, false);
        let bytes = d.bytes;
        let base = d.cycles[0];
        let taken = if d.cycles.len() >= 2 {
            d.cycles[1]
        } else {
            d.cycles[0]
        };
        let fl: Flags = d.flags;
        let next = plus_exec(pc, bytes);
        let imm8 = self.mmu.read(plus_exec(pc, 1));
        let imm16 = imm8 as u16 + 256 * (self.mmu.read(plus_exec(pc, 2)) as u16);
        let f = self.reg.get_f();
        let (_z, _n, _h, c) = flag_bits(f);
        let a = self.reg.get_a();
        let ghost e = self.effect().unwrap();
        match instr {
            Instr::Nop => {
                self.reg.set_pc(next);
                Ok(base)
            },
            Instr::Jr(cc) => {
                if cc.is_some() && cond_exec(f, cc) {
                    self.reg.set_pc(offset_exec(next, imm8));
                    Ok(taken)
                } else if cc.is_none() {
                    self.reg.set_pc(offset_exec(next, imm8));
                    Ok(base)
                } else {
                    self.reg.set_pc(next);
                    Ok(base)
                }
            },
            Instr::Jp(cc) => {
                if cc.is_some() && cond_exec(f, cc) {
                    self.reg.set_pc(imm16);
                    Ok(taken)
                } else if cc.is_none() {
                    self.reg.set_pc(imm16);
                    Ok(base)
                } else {
                    self.reg.set_pc(next);
                    Ok(base)
                }
            },
            Instr::LdImm(r) => {
                self.reg.set_pc(next);
                self.store_r8(r, imm8);
                Ok(base)
            },
            Instr::LdReg(dst, src) => {
                let v = self.read_r8(src);
                self.reg.set_pc(next);
                self.store_r8(dst, v);
                Ok(base)
            },
            Instr::Inc(r) => {
                let out = inc8_exec(self.read_r8(r), c);
                let nf = apply_flag_effects(f, &fl, &out);
                proof {
                    lemma_masked_identity(nf);
                }
                self.reg.set_f(nf);
                self.reg.set_pc(next);
                self.store_r8(r, out.value);
                Ok(base)
            },
            Instr::Dec(r) => {
                let out = dec8_exec(self.read_r8(r), c);
                let nf = apply_flag_effects(f, &fl, &out);
                proof {
                    lemma_masked_identity(nf);
                }
                self.reg.set_f(nf);
                self.reg.set_pc(next);
                self.store_r8(r, out.value);
                Ok(base)
            },
            Instr::AluReg(k, src) => {
                let out = alu8_exec(k, a, self.read_r8(src), c);
                let nf = apply_flag_effects(f, &fl, &out);
                proof {
                    lemma_masked_identity(nf);
                }
                self.reg.set_f(nf);
                self.reg.set_a(out.value);
                self.reg.set_pc(next);
                Ok(base)
            },
            Instr::AluImm(k) => {
                let out = alu8_exec(k, a, imm8, c);
                let nf = apply_flag_effects(f, &fl, &out);
                proof {
                    lemma_masked_identity(nf);
                }
                self.reg.set_f(nf);
                self.reg.set_a(out.value);
                self.reg.set_pc(next);
                Ok(base)
            },
            Instr::Scf | Instr::Ccf | Instr::Cpl => {
                let (z, _n2, _h2, c2) = flag_bits(f);
                let out = match instr {
                    Instr::Scf => AluOut { value: a, z, n: false, h: false, c: true },
                    Instr::Ccf => AluOut { value: a, z, n: false, h: false, c: !c2 },
                    _ => AluOut { value: 255 - a, z, n: true, h: true, c: c2 },
                };
                let nf = apply_flag_effects(f, &fl, &out);
                proof {
                    lemma_masked_identity(nf);
                }
                self.reg.set_f(nf);
                self.reg.set_a(out.value);
                self.reg.set_pc(next);
                Ok(base)
            },
            Instr::Di => {
                self.ime = false;
                self.reg.set_pc(next);
                Ok(base)
            },
            Instr::Ei => {
                self.ime = true;
                self.reg.set_pc(next);
                Ok(base)
            },
            Instr::Halt | Instr::Stop => {
                self.halted = true;
                self.reg.set_pc(next);
                Ok(base)
            },
            Instr::LdRR16(k) => {
                self.write_rr(k, imm16);
                self.reg.set_pc(next);
                Ok(base)
            },
            Instr::IncRR(k) => {
                let v = self.read_rr(k);
                self.write_rr(k, plus_exec(v, 1));
                self.reg.set_pc(next);
                Ok(base)
            },
            Instr::DecRR(k) => {
                let v = self.read_rr(k);
                self.write_rr(k, minus_exec(v, 1));
                self.reg.set_pc(next);
                Ok(base)
            },
            Instr::AddHl(k) => {
                let hl = self.reg.get_hl();
                let v = self.read_rr(k);
                let sum: u32 = hl as u32 + v as u32;
                let (z, _n2, _h2, _c2) = flag_bits(f);
                let out = AluOut {
                    value: 0,
                    z,
                    n: false,
                    h: hl % 4096 + v % 4096 > 4095,
                    c: sum > 65535,
                };
                let nf = apply_flag_effects(f, &fl, &out);
                proof {
                    lemma_masked_identity(nf);
                }
                self.reg.set_hl((sum % 65536) as u16);
                self.reg.set_f(nf);
                self.reg.set_pc(next);
                Ok(base)
            },
            Instr::StoreInd(k) => {
                let addr = self.ind_addr_exec(k);
                self.mmu.write(addr, a);
                self.ind_update(k);
                self.reg.set_pc(next);
                Ok(base)
            },
            Instr::LoadInd(k) => {
                let addr = self.ind_addr_exec(k);
                let v = self.mmu.read(addr);
                self.ind_update(k);
                self.reg.set_a(v);
                self.reg.set_pc(next);
                Ok(base)
            },
            Instr::RotA(k) => {
                let out = rot8_exec(k, a, c);
                let nf = apply_flag_effects(f, &fl, &out);
                proof {
                    lemma_masked_identity(nf);
                }
                self.reg.set_f(nf);
                self.reg.set_a(out.value);
                self.reg.set_pc(next);
                Ok(base)
            },
            Instr::JpHl => {
                let hl = self.reg.get_hl();
                self.reg.set_pc(hl);
                Ok(base)
            },
            Instr::LdSpHl => {
                let hl = self.reg.get_hl();
                self.reg.set_sp(hl);
                self.reg.set_pc(next);
                Ok(base)
            },
            Instr::Ret(cc) => {
                if cond_exec(f, cc) {
                    let v = self.pop16();
                    self.reg.set_pc(v);
                    if cc.is_some() {
                        Ok(taken)
                    } else {
                        Ok(base)
                    }
                } else {
                    self.reg.set_pc(next);
                    Ok(base)
                }
            },
            Instr::Reti => {
                let v = self.pop16();
                self.reg.set_pc(v);
                self.ime = true;
                Ok(base)
            },
            Instr::Pop(k) => {
                let v = self.pop16();
                self.write_stack_pair(k, v);
                self.reg.set_pc(next);
                Ok(base)
            },
            Instr::Push(k) => {
                let v = self.read_stack_pair(k);
                self.push16(v);
                self.reg.set_pc(next);
                Ok(base)
            },
            Instr::Call(cc) => {
                if cond_exec(f, cc) {
                    self.push16(next);
                    self.reg.set_pc(imm16);
                    if cc.is_some() {
                        Ok(taken)
                    } else {
                        Ok(base)
                    }
                } else {
                    self.reg.set_pc(next);
                    Ok(base)
                }
            },
            Instr::Rst(t) => {
                self.push16(next);
                self.reg.set_pc(t as u16);
                Ok(base)
            },
            Instr::StoreHigh(k) => {
                let addr = self.high_addr_exec(k);
                self.mmu.write(addr, a);
                self.reg.set_pc(next);
                Ok(base)
            },
            Instr::LoadHigh(k) => {
                let addr = self.high_addr_exec(k);
                let v = self.mmu.read(addr);
                self.reg.set_a(v);
                self.reg.set_pc(next);
                Ok(base)
            },
            Instr::Daa => {
                let (_z2, n2, h2, c2) = flag_bits(f);
                let out = daa_exec(a, n2, h2, c2);
                let nf = apply_flag_effects(f, &fl, &out);
                proof {
                    lemma_masked_identity(nf);
                }
                self.reg.set_f(nf);
                self.reg.set_a(out.value);
                self.reg.set_pc(next);
                Ok(base)
            },
            Instr::StoreSp => {
                let sp = self.reg.get_sp();
                let lo = (sp % 256) as u8;
                let hi = (sp / 256) as u8;
                let a2 = plus_exec(imm16, 1);
                let ghost m0 = self.mmu;
                self.mmu.write(imm16, lo);
                let ghost m1 = self.mmu;
                self.mmu.write(a2, hi);
                let ghost ws = seq![(imm16, lo), (a2, hi)];
                assert(m0.write_rel(m1, ws[0].0, ws[0].1) && m1.write_rel(self.mmu, ws[1].0, ws[1].1));
                self.reg.set_pc(next);
                Ok(base)
            },
            Instr::AddSp => {
                let sp = self.reg.get_sp();
                let out = sp_offset_flags_exec(sp, imm8);
                let nf = apply_flag_effects(f, &fl, &out);
                proof {
                    lemma_masked_identity(nf);
                }
                self.reg.set_f(nf);
                self.reg.set_sp(offset_exec(sp, imm8));
                self.reg.set_pc(next);
                Ok(base)
            },
            Instr::LdHlSp => {
                let sp = self.reg.get_sp();
                let out = sp_offset_flags_exec(sp, imm8);
                let nf = apply_flag_effects(f, &fl, &out);
                proof {
                    lemma_masked_identity(nf);
                }
                self.reg.set_hl(offset_exec(sp, imm8));
                self.reg.set_f(nf);
                self.reg.set_pc(next);
                Ok(base)
            },
            Instr::Unsupported => Err(CoreError::UnsupportedInstruction(op)),
        }
    }
}


/// Opcode 0x00 with a declared length of one byte only moves PC past itself
/// and costs its table's base cycles: no register, flag or memory changes.
pub proof fn lemma_nop_step(cpu: CPU)
    requires
        cpu.wf(),
        !cpu.halted,
        cpu.opcode_at_pc() == 0,
        cpu.tables.entry(0, false).bytes == 1,
    ensures
        cpu.effect() == Some(
            Effect {
                regs: RegisterState { pc: addr_plus(cpu.reg@.pc, 1), ..cpu.reg@ },
                writes: Seq::empty(),
                ime: cpu.ime,
                halted: cpu.halted,
                cycles: cpu.tables.entry(0, false).base_cycles(),
            },
        ),
{
}

/// A relative jump that is taken lands at the signed offset from the
/// address after the whole instruction, not from the opcode's own address.
pub proof fn lemma_relative_jump_from_next(cpu: CPU)
    requires
        cpu.wf(),
        !cpu.halted,
        decode_spec(cpu.opcode_at_pc()) matches Instr::Jr(cc) && cond_holds(cpu.reg@.f, cc),
    ensures
        cpu.effect() matches Some(e) && e.regs.pc == offset_addr(
            addr_plus(cpu.reg@.pc, cpu.tables.entry(cpu.opcode_at_pc(), false).bytes as int),
            cpu.mmu.read_spec(addr_plus(cpu.reg@.pc, 1)),
        ),
{
}

} // verus!
