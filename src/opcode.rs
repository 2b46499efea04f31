use vstd::prelude::*;
use vstd::string::StrSliceExecFns;

use crate::error::CoreError;

verus! {

/// Instruction mnemonics of the unprefixed and the CB-prefixed spaces. The
/// unassigned unprefixed codes each have an `Illegal_xx` mnemonic of their own.
#[allow(non_camel_case_types)]
#[derive(Debug, Clone, Copy, PartialEq, Eq, Structural)]
pub enum Mnemonic {
    Adc,
    Add,
    And,
    Call,
    Ccf,
    Cp,
    Cpl,
    Daa,
    Dec,
    Di,
    Ei,
    Halt,
    Illegal_d3,
    Illegal_db,
    Illegal_dd,
    Illegal_e3,
    Illegal_e4,
    Illegal_eb,
    Illegal_ec,
    Illegal_ed,
    Illegal_f4,
    Illegal_fc,
    Illegal_fd,
    Inc,
    Jp,
    Jr,
    Ld,
    Ldh,
    Nop,
    Or,
    Pop,
    Prefix,
    Push,
    Ret,
    Reti,
    Rla,
    Rlca,
    Rra,
    Rrca,
    Rst,
    Sbc,
    Scf,
    Stop,
    Sub,
    Xor,
    Bit,
    Res,
    Rl,
    Rlc,
    Rr,
    Rrc,
    /// The CB-prefixed SET instruction.
    SetBit,
    Sla,
    Sra,
    Srl,
    Swap,
}

/// One operand of an instruction, as the opcode description gives it.
#[derive(Debug)]
pub struct Operand {
    /// Symbolic name (`A`, `HL`, `n8`, `a16`, ...).
    pub name: String,
    /// Width in bytes of an operand read from the instruction stream.
    pub bytes: Option<u8>,
    /// The HL pointer is incremented after the access.
    pub is_increment: bool,
    /// The operand is the value itself rather than a memory reference.
    pub is_immediate: bool,
}

/// What an instruction does to each flag, one symbol per flag: `-` leaves it,
/// `0` clears it, `1` sets it, and the flag's own letter computes it from the
/// result.
#[derive(Debug, Clone, Copy)]
pub struct Flags {
    pub z: char,
    pub n: char,
    pub h: char,
    pub c: char,
}

/// The effect of an instruction on one flag.
#[derive(Debug, Clone, Copy, PartialEq, Eq, Structural)]
pub enum FlagEffect {
    Unaffected,
    Cleared,
    Raised,
    Computed,
}

/// A symbol is `-`, `0`, `1` or the flag's own letter.
pub open spec fn symbol_ok(sym: char, letter: char) -> bool {
    sym == '-' || sym == '0' || sym == '1' || sym == letter
}

pub open spec fn effect_of(sym: char) -> FlagEffect {
    if sym == '-' {
        FlagEffect::Unaffected
    } else if sym == '0' {
        FlagEffect::Cleared
    } else if sym == '1' {
        FlagEffect::Raised
    } else {
        FlagEffect::Computed
    }
}

/// The effect that a flag symbol denotes.
pub fn flag_effect(sym: char) -> (r: FlagEffect)
    ensures
        r == effect_of(sym),
{
    if sym == '-' {
        FlagEffect::Unaffected
    } else if sym == '0' {
        FlagEffect::Cleared
    } else if sym == '1' {
        FlagEffect::Raised
    } else {
        FlagEffect::Computed
    }
}

impl Flags {
    pub open spec fn valid(&self) -> bool {
        symbol_ok(self.z, 'Z') && symbol_ok(self.n, 'N') && symbol_ok(self.h, 'H')
            && symbol_ok(self.c, 'C')
    }

    pub fn is_valid(&self) -> (r: bool)
        ensures
            r == self.valid(),
    {
        (self.z == '-' || self.z == '0' || self.z == '1' || self.z == 'Z') && (self.n == '-'
            || self.n == '0' || self.n == '1' || self.n == 'N') && (self.h == '-' || self.h == '0'
            || self.h == '1' || self.h == 'H') && (self.c == '-' || self.c == '0' || self.c == '1'
            || self.c == 'C')
    }
}

/// The description of one instruction.
#[derive(Debug)]
pub struct Opcode {
    /// The instruction's byte within its table.
    pub code: u8,
    pub mnemonic: Mnemonic,
    /// Total length of the instruction in bytes.
    pub bytes: u8,
    /// The base cost in cycles, then, for a conditional instruction, the cost
    /// when its condition holds.
    pub cycles: Vec<u8>,
    pub operands: Vec<Operand>,
    pub is_immediate: bool,
    pub flags: Flags,
}

impl Opcode {
    /// Length of 1 to 3 bytes, one or two cycle counts, valid flag symbols.
    pub open spec fn valid(&self) -> bool {
        1 <= self.bytes <= 3 && 1 <= self.cycles@.len() <= 2 && self.flags.valid()
    }

    pub fn is_valid(&self) -> (r: bool)
        ensures
            r == self.valid(),
    {
        1 <= self.bytes && self.bytes <= 3 && 1 <= self.cycles.len() && self.cycles.len() <= 2
            && self.flags.is_valid()
    }

    /// Cycles taken when the instruction runs and, if it is conditional, its
    /// condition does not hold.
    pub open spec fn base_cycles(&self) -> u8 {
        self.cycles@[0]
    }

    /// Cycles taken by a conditional instruction whose condition holds.
    pub open spec fn taken_cycles(&self) -> u8 {
        if self.cycles@.len() >= 2 {
            self.cycles@[1]
        } else {
            self.cycles@[0]
        }
    }
}

pub open spec fn hex_digit_value(c: char) -> Option<u8> {
    if '0' <= c && c <= '9' {
        Some((c as u32 - '0' as u32) as u8)
    } else if 'a' <= c && c <= 'f' {
        Some((c as u32 - 'a' as u32 + 10) as u8)
    } else if 'A' <= c && c <= 'F' {
        Some((c as u32 - 'A' as u32 + 10) as u8)
    } else {
        None
    }
}

/// A table key is `0x` (or `0X`) followed by exactly two hex digits.
pub open spec fn parse_key(s: Seq<char>) -> Option<u8> {
    if s.len() == 4 && s[0] == '0' && (s[1] == 'x' || s[1] == 'X') && hex_digit_value(
        s[2],
    ).is_some() && hex_digit_value(s[3]).is_some() {
        Some((hex_digit_value(s[2]).unwrap() * 16 + hex_digit_value(s[3]).unwrap()) as u8)
    } else {
        None
    }
}

fn hex_digit(c: char) -> (r: Option<u8>)
    ensures
        r == hex_digit_value(c),
{
    if '0' <= c && c <= '9' {
        Some((c as u32 - '0' as u32) as u8)
    } else if 'a' <= c && c <= 'f' {
        Some((c as u32 - 'a' as u32 + 10) as u8)
    } else if 'A' <= c && c <= 'F' {
        Some((c as u32 - 'A' as u32 + 10) as u8)
    } else {
        None
    }
}

/// Reads a table key such as `0x07` as the byte it names.
pub fn key_code(key: &str) -> (r: Option<u8>)
    ensures
        r == parse_key(key@),
{
    if key.unicode_len() != 4 {
        return None;
    }
    let c0 = key.get_char(0);
    let c1 = key.get_char(1);
    if c0 != '0' || (c1 != 'x' && c1 != 'X') {
        return None;
    }
    let hi = hex_digit(key.get_char(2));
    let lo = hex_digit(key.get_char(3));
    match (hi, lo) {
        (Some(h), Some(l)) => Some(h * 16 + l),
        _ => None,
    }
}


/// The code that an entry's key names, when the key is well formed.
pub open spec fn entry_code(e: (String, Opcode)) -> Option<u8> {
    parse_key(e.0@)
}

/// A description of one table: each key names a byte, each entry is valid,
/// no byte is named twice, and every byte is named.
pub open spec fn entries_ok(s: Seq<(String, Opcode)>) -> bool {
    &&& forall|i: int|
        0 <= i < s.len() ==> (#[trigger] entry_code(s[i])).is_some() && s[i].1.valid()
    &&& forall|i: int, j: int|
        0 <= i < s.len() && 0 <= j < s.len() && i != j ==> entry_code(s[i]) != entry_code(s[j])
    &&& forall|c: u8| #[trigger] names_code(s, c)
}

/// Some entry's key names byte `c`.
pub open spec fn names_code(s: Seq<(String, Opcode)>, c: u8) -> bool {
    exists|i: int| 0 <= i < s.len() && entry_code(s[i]) == Some(c)
}

/// One 256-entry instruction table, indexed by the instruction's byte.
pub struct OpcodeTable {
    entries: Vec<Opcode>,
    slot: Vec<usize>,
}

impl OpcodeTable {
    /// Every byte has a valid entry whose code is that byte.
    pub closed spec fn wf(&self) -> bool {
        &&& self.slot@.len() == 256
        &&& forall|c: int|
            0 <= c < 256 ==> (#[trigger] self.slot@[c]) < self.entries@.len()
                && self.entries@[self.slot@[c] as int].code == c
                && self.entries@[self.slot@[c] as int].valid()
    }

    /// The entry for byte `c`.
    pub closed spec fn entry(&self, c: u8) -> Opcode {
        self.entries@[self.slot@[c as int] as int]
    }

    /// Builds a table from its description: pairs of a key such as `0x07`
    /// and an entry. The code of each entry is set from its key.
    pub fn from_entries(entries: Vec<(String, Opcode)>) -> (r: Result<OpcodeTable, CoreError>)
        ensures
            (r is Ok) <==> entries_ok(entries@),
            r is Err ==> r == Err::<OpcodeTable, CoreError>(CoreError::MalformedTable),
            r matches Ok(t) ==> t.wf() && forall|i: int|
                0 <= i < entries@.len() ==> t.entry(entry_code(#[trigger] entries@[i]).unwrap())
                    == (Opcode { code: entry_code(entries@[i]).unwrap(), ..entries@[i].1 }),
    {
        let ghost orig = entries@;
        let ghost n = orig.len();
        let mut rest = entries;
        let mut out: Vec<Opcode> = Vec::new();
        let mut slot: Vec<usize> = Vec::new();
        let mut seen: Vec<bool> = Vec::new();
        let mut c: usize = 0;
        while c < 256
            invariant
                c <= 256,
                orig == entries@,
                slot@.len() == c,
                seen@.len() == c,
                forall|k: int| 0 <= k < c ==> !seen@[k],
            decreases 256 - c,
        {
            slot.push(0);
            seen.push(false);
            c = c + 1;
        }
        while rest.len() > 0
            invariant
                n == orig.len(),
                orig == entries@,
                rest@.len() <= n,
                rest@ == orig.subrange(0, rest@.len() as int),
                out@.len() == n - rest@.len(),
                slot@.len() == 256,
                seen@.len() == 256,
                forall|j: int|
                    0 <= j < out@.len() ==> #[trigger] out@[j] == (Opcode {
                        code: entry_code(orig[n - 1 - j]).unwrap(),
                        ..orig[n - 1 - j].1
                    }),
                forall|k: int|
                    rest@.len() <= k < n ==> (#[trigger] entry_code(orig[k])).is_some()
                        && orig[k].1.valid() && seen@[entry_code(orig[k]).unwrap() as int]
                        && slot@[entry_code(orig[k]).unwrap() as int] == n - 1 - k,
                forall|b: int|
                    0 <= b < 256 && #[trigger] seen@[b] ==> slot@[b] < out@.len()
                        && entry_code(orig[n - 1 - slot@[b]]) == Some(b as u8),
                forall|k1: int, k2: int|
                    rest@.len() <= k1 < n && rest@.len() <= k2 < n && k1 != k2
                        ==> entry_code(orig[k1]) != entry_code(orig[k2]),
            decreases rest@.len(),
        {
            let ghost k = rest@.len() - 1;
            let popped = rest.pop();
            let (key, mut op) = match popped {
                Some(p) => p,
                None => {
                    return Err(CoreError::MalformedTable);
                },
            };
            assert(orig[k] == (key, op));
            let code = match key_code(key.as_str()) {
                Some(b) => b,
                None => {
                    assert(entry_code(orig[k]).is_none());
                    return Err(CoreError::MalformedTable);
                },
            };
            if !op.is_valid() {
                assert(!orig[k].1.valid());
                return Err(CoreError::MalformedTable);
            }
            if seen[code as usize] {
                let ghost other = n - 1 - slot@[code as int];
                assert(entry_code(orig[other]) == entry_code(orig[k]));
                return Err(CoreError::MalformedTable);
            }
            op.code = code;
            seen.set(code as usize, true);
            slot.set(code as usize, out.len());
            out.push(op);
        }
        let mut b: usize = 0;
        while b < 256
            invariant
                b <= 256,
                seen@.len() == 256,
                slot@.len() == 256,
                forall|x: int| 0 <= x < b ==> seen@[x],
                n == orig.len(),
                orig == entries@,
                out@.len() == n,
                forall|j: int|
                    0 <= j < out@.len() ==> #[trigger] out@[j] == (Opcode {
                        code: entry_code(orig[n - 1 - j]).unwrap(),
                        ..orig[n - 1 - j].1
                    }),
                forall|k: int|
                    0 <= k < n ==> (#[trigger] entry_code(orig[k])).is_some() && orig[k].1.valid()
                        && seen@[entry_code(orig[k]).unwrap() as int] && slot@[entry_code(
                        orig[k],
                    ).unwrap() as int] == n - 1 - k,
                forall|x: int|
                    0 <= x < 256 && #[trigger] seen@[x] ==> slot@[x] < out@.len() && entry_code(
                        orig[n - 1 - slot@[x]],
                    ) == Some(x as u8),
                forall|k1: int, k2: int|
                    0 <= k1 < n && 0 <= k2 < n && k1 != k2 ==> entry_code(orig[k1]) != entry_code(
                        orig[k2],
                    ),
            decreases 256 - b,
        {
            if !seen[b] {
                assert(!names_code(orig, b as u8));
                return Err(CoreError::MalformedTable);
            }
            b = b + 1;
        }
        assert(entries_ok(orig)) by {
            assert forall|x: u8| #[trigger] names_code(orig, x) by {
                assert(seen@[x as int]);
                let i = n - 1 - slot@[x as int];
                assert(0 <= i < orig.len() && entry_code(orig[i]) == Some(x));
            }
        }
        let t = OpcodeTable { entries: out, slot };
        assert forall|c: int| 0 <= c < 256 implies (#[trigger] t.slot@[c]) < t.entries@.len()
            && t.entries@[t.slot@[c] as int].code == c
            && t.entries@[t.slot@[c] as int].valid() by {
            assert(seen@[c]);
            let i = n - 1 - slot@[c];
            assert(out@[slot@[c] as int] == (Opcode { code: entry_code(orig[i]).unwrap(), ..orig[i].1 }));
            assert(entry_code(orig[i]).is_some());
        }
        Ok(t)
    }

    /// The number of entries.
    pub fn len(&self) -> (r: usize)
        requires
            self.wf(),
        ensures
            r == 256,
    {
        self.slot.len()
    }

    /// The entry for byte `code`.
    pub fn get(&self, code: u8) -> (r: &Opcode)
        requires
            self.wf(),
        ensures
            *r == self.entry(code),
            r.code == code,
            r.valid(),
    {
        let i = self.slot[code as usize];
        &self.entries[i]
    }
}

/// The unprefixed table and the table reached through the CB prefix.
pub struct OpcodeTables {
    pub unprefixed: OpcodeTable,
    pub cbprefixed: OpcodeTable,
}

impl OpcodeTables {
    pub open spec fn wf(&self) -> bool {
        self.unprefixed.wf() && self.cbprefixed.wf()
    }

    /// The entry that byte `code` selects in the CB-prefixed table when
    /// `prefixed` holds, in the unprefixed one otherwise.
    pub open spec fn entry(&self, code: u8, prefixed: bool) -> Opcode {
        if prefixed {
            self.cbprefixed.entry(code)
        } else {
            self.unprefixed.entry(code)
        }
    }

    /// Builds both tables; fails with `MalformedTable` unless each
    /// description is complete and valid.
    pub fn load(unprefixed: Vec<(String, Opcode)>, cbprefixed: Vec<(String, Opcode)>) -> (r:
        Result<OpcodeTables, CoreError>)
        ensures
            (r is Ok) <==> (entries_ok(unprefixed@) && entries_ok(cbprefixed@)),
            r is Err ==> r == Err::<OpcodeTables, CoreError>(CoreError::MalformedTable),
            r matches Ok(t) ==> {
                &&& t.wf()
                &&& forall|i: int|
                    0 <= i < unprefixed@.len() ==> t.entry(
                        entry_code(#[trigger] unprefixed@[i]).unwrap(),
                        false,
                    ) == (Opcode { code: entry_code(unprefixed@[i]).unwrap(), ..unprefixed@[i].1 })
                &&& forall|i: int|
                    0 <= i < cbprefixed@.len() ==> t.entry(
                        entry_code(#[trigger] cbprefixed@[i]).unwrap(),
                        true,
                    ) == (Opcode { code: entry_code(cbprefixed@[i]).unwrap(), ..cbprefixed@[i].1 })
            },
    {
        let ghost u = unprefixed@;
        let ghost p = cbprefixed@;
        let un = OpcodeTable::from_entries(unprefixed);
        let cb = OpcodeTable::from_entries(cbprefixed);
        match (un, cb) {
            (Ok(unprefixed), Ok(cbprefixed)) => Ok(OpcodeTables { unprefixed, cbprefixed }),
            _ => Err(CoreError::MalformedTable),
        }
    }

    /// The descriptor of an instruction byte.
    pub fn lookup(&self, code: u8, prefixed: bool) -> (r: &Opcode)
        requires
            self.wf(),
        ensures
            *r == self.entry(code, prefixed),
            r.code == code,
            r.valid(),
    {
        if prefixed {
            self.cbprefixed.get(code)
        } else {
            self.unprefixed.get(code)
        }
    }
}


/// A description that names no entry for some byte is rejected.
pub proof fn lemma_missing_code_rejected(s: Seq<(String, Opcode)>, c: u8)
    requires
        !names_code(s, c),
    ensures
        !entries_ok(s),
{
}

} // verus!
