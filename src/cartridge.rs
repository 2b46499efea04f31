use vstd::prelude::*;

use vstd::arithmetic::div_mod::lemma_small_mod;

use crate::error::CoreError;
use crate::names::{
    cartridge_type_name,
    cartridge_type_name_of,
    old_licensee_name,
    old_licensee_name_of,
};

verus! {

/// First ROM address of the header region.
pub const HEADER_START: usize = 0x0100;

/// Number of bytes in the header region, 0x0100 to 0x014F.
pub const HEADER_LEN: usize = 0x50;

/// Size of one switchable ROM bank.
pub const ROM_BANK_SIZE: usize = 0x4000;

/// Size of the external-RAM window.
pub const ERAM_SIZE: usize = 0x2000;

/// The value read where no hardware drives the bus.
pub const OPEN_BUS: u8 = 0xFF;

/// Header offsets, relative to `HEADER_START`.
pub const LOGO_OFFSET: usize = 0x04;

pub const TITLE_OFFSET: usize = 0x34;

pub const TITLE_LEN: usize = 15;

/// The 48 logo bytes that the boot program checks.
pub open spec fn nintendo_logo() -> Seq<u8> {
    seq![
        0xCEu8, 0xED, 0x66, 0x66, 0xCC, 0x0D, 0x00, 0x0B, 0x03, 0x73, 0x00, 0x83, 0x00, 0x0C,
        0x00, 0x0D, 0x00, 0x08, 0x11, 0x1F, 0x88, 0x89, 0x00, 0x0E, 0xDC, 0xCC, 0x6E, 0xE6,
        0xDD, 0xDD, 0xD9, 0x99, 0xBB, 0xBB, 0x67, 0x63, 0x6E, 0x0E, 0xEC, 0xCC, 0xDD, 0xDC,
        0x99, 0x9F, 0xBB, 0xB9, 0x33, 0x3E,
    ]
}

/// What `String::from_utf8_lossy` makes of a byte sequence.
pub uninterp spec fn utf8_lossy(b: Seq<u8>) -> Seq<char>;

/// Relies on `String::from_utf8_lossy`: invalid sequences are replaced, and
/// bytes that are all ASCII decode to the characters of the same codes.
#[verifier::external_body]
fn lossy_text(b: &[u8]) -> (r: String)
    ensures
        r@ == utf8_lossy(b@),
        (forall|i: int| 0 <= i < b@.len() ==> b@[i] < 128) ==> r@ == b@.map_values(
            |x: u8| x as char,
        ),
{
    String::from_utf8_lossy(b).into_owned()
}

/// Number of leading non-zero bytes.
pub open spec fn nonzero_prefix_len(s: Seq<u8>) -> nat
    decreases s.len(),
{
    if s.len() == 0 || s[0] == 0 {
        0
    } else {
        1 + nonzero_prefix_len(s.drop_first())
    }
}

/// The size in KB that a ROM-size code gives: 32 doubled `code` times.
pub open spec fn rom_size_kb_of(code: nat) -> nat
    decreases code,
{
    if code == 0 {
        32
    } else {
        2 * rom_size_kb_of((code - 1) as nat)
    }
}

/// The size in KB that a RAM-size code gives, where the code is assigned.
pub open spec fn ram_size_kb_of(code: u8) -> Option<u8> {
    match code {
        0 => Some(0u8),
        1 => Some(2u8),
        2 => Some(8u8),
        3 => Some(32u8),
        4 => Some(128u8),
        5 => Some(64u8),
        _ => None,
    }
}

/// The header checksum over header bytes 0x34 up to `k`: starting from
/// zero, each byte and one more are subtracted, modulo 256.
pub open spec fn checksum_upto(h: Seq<u8>, k: int) -> int
    decreases k - 0x34,
{
    if k <= 0x34 {
        0
    } else {
        (checksum_upto(h, k - 1) - h[k - 1] - 1) % 256
    }
}

/// The fixed-layout header, bytes 0x0100 to 0x014F of the image. Every
/// accessor is a projection of these bytes.
pub struct ROMHeader {
    bytes: Vec<u8>,
}

impl View for ROMHeader {
    type V = Seq<u8>;

    closed spec fn view(&self) -> Seq<u8> {
        self.bytes@
    }
}

impl ROMHeader {
    pub open spec fn wf(&self) -> bool {
        self@.len() == HEADER_LEN
    }

    pub open spec fn title_bytes(&self) -> Seq<u8> {
        let t = self@.subrange(TITLE_OFFSET as int, TITLE_OFFSET + TITLE_LEN);
        t.take(nonzero_prefix_len(t) as int)
    }

    /// The header held in the first 0x50 bytes of `bytes`.
    pub fn from_bytes(bytes: &[u8]) -> (r: ROMHeader)
        requires
            bytes@.len() >= HEADER_LEN,
        ensures
            r.wf(),
            r@ == bytes@.subrange(0, HEADER_LEN as int),
    {
        let mut v: Vec<u8> = Vec::new();
        let mut i: usize = 0;
        while i < HEADER_LEN
            invariant
                i <= HEADER_LEN,
                bytes@.len() >= HEADER_LEN,
                v@ == bytes@.subrange(0, i as int),
            decreases HEADER_LEN - i,
        {
            v.push(bytes[i]);
            i = i + 1;
            assert(v@ =~= bytes@.subrange(0, i as int));
        }
        ROMHeader { bytes: v }
    }

    /// Length of the title: it ends at its first zero byte, or after 15 bytes.
    fn title_len(&self) -> (r: usize)
        requires
            self.wf(),
        ensures
            r == nonzero_prefix_len(self@.subrange(TITLE_OFFSET as int, TITLE_OFFSET + TITLE_LEN)),
            r <= TITLE_LEN,
    {
        let ghost t = self@.subrange(TITLE_OFFSET as int, TITLE_OFFSET + TITLE_LEN);
        let mut end: usize = TITLE_LEN;
        let mut i: usize = TITLE_LEN;
        assert(t.subrange(TITLE_LEN as int, TITLE_LEN as int).len() == 0);
        while i > 0
            invariant
                i <= TITLE_LEN,
                self.wf(),
                t == self@.subrange(TITLE_OFFSET as int, TITLE_OFFSET + TITLE_LEN),
                end == i + nonzero_prefix_len(t.subrange(i as int, TITLE_LEN as int)),
                end <= TITLE_LEN,
            decreases i,
        {
            i = i - 1;
            let ghost s = t.subrange(i as int, TITLE_LEN as int);
            assert(s.drop_first() =~= t.subrange(i + 1, TITLE_LEN as int));
            if self.bytes[TITLE_OFFSET + i] == 0 {
                end = i;
            }
        }
        assert(t.subrange(0, TITLE_LEN as int) =~= t);
        end
    }

    /// The title: the title bytes up to the first zero, decoded as UTF-8
    /// with invalid sequences replaced.
    pub fn get_title(&self) -> (r: String)
        requires
            self.wf(),
        ensures
            r@ == utf8_lossy(self.title_bytes()),
            (forall|i: int| 0 <= i < self.title_bytes().len() ==> self.title_bytes()[i] < 128)
                ==> r@ == self.title_bytes().map_values(|x: u8| x as char),
    {
        let n = self.title_len();
        let mut t: Vec<u8> = Vec::new();
        let mut i: usize = 0;
        while i < n
            invariant
                i <= n,
                n <= TITLE_LEN,
                self.wf(),
                t@ == self@.subrange(TITLE_OFFSET as int, TITLE_OFFSET + i),
            decreases n - i,
        {
            t.push(self.bytes[TITLE_OFFSET + i]);
            i = i + 1;
            assert(t@ =~= self@.subrange(TITLE_OFFSET as int, TITLE_OFFSET + i));
        }
        assert(t@ =~= self.title_bytes());
        lossy_text(t.as_slice())
    }

    pub fn get_cgb_flag(&self) -> (r: u8)
        requires
            self.wf(),
        ensures
            r == self@[0x43],
    {
        self.bytes[0x43]
    }

    /// The two-byte new licensee code, high byte first.
    pub fn get_new_licensee_code(&self) -> (r: u16)
        requires
            self.wf(),
        ensures
            r == self@[0x44] * 256 + self@[0x45],
    {
        (self.bytes[0x44] as u16) * 256 + (self.bytes[0x45] as u16)
    }

    pub fn get_cartridge_type_code(&self) -> (r: u8)
        requires
            self.wf(),
        ensures
            r == self@[0x47],
    {
        self.bytes[0x47]
    }

    /// The name of the cartridge type, or `Unknown` for an unassigned code.
    pub fn get_cartridge_type(&self) -> (r: &'static str)
        requires
            self.wf(),
        ensures
            r == match cartridge_type_name_of(self@[0x47]) {
                Some(n) => n,
                None => "Unknown",
            },
    {
        match cartridge_type_name(self.bytes[0x47]) {
            Some(n) => n,
            None => "Unknown",
        }
    }

    pub fn get_rom_size_code(&self) -> (r: u8)
        requires
            self.wf(),
        ensures
            r == self@[0x48],
    {
        self.bytes[0x48]
    }

    /// The ROM size in KB, `32 << code`; `None` where that does not fit in
    /// a `usize`.
    pub fn get_rom_size_kb(&self) -> (r: Option<usize>)
        requires
            self.wf(),
        ensures
            r == (if rom_size_kb_of(self@[0x48] as nat) <= usize::MAX {
                Some(rom_size_kb_of(self@[0x48] as nat) as usize)
            } else {
                None::<usize>
            }),
    {
        let code = self.bytes[0x48];
        let mut kb: usize = 32;
        let mut i: u8 = 0;
        while i < code
            invariant
                i <= code,
                code == self@[0x48],
                kb == rom_size_kb_of(i as nat),
            decreases code - i,
        {
            if kb > usize::MAX / 2 {
                proof {
                    lemma_rom_size_doubles(i as nat, code as nat);
                }
                return None;
            }
            kb = kb * 2;
            i = i + 1;
        }
        Some(kb)
    }

    pub fn get_ram_size_code(&self) -> (r: u8)
        requires
            self.wf(),
        ensures
            r == self@[0x49],
    {
        self.bytes[0x49]
    }

    /// The RAM size in KB; `None` for a code with no assigned size.
    pub fn get_ram_size_kb(&self) -> (r: Option<u8>)
        requires
            self.wf(),
        ensures
            r == ram_size_kb_of(self@[0x49]),
    {
        match self.bytes[0x49] {
            0 => Some(0),
            1 => Some(2),
            2 => Some(8),
            3 => Some(32),
            4 => Some(128),
            5 => Some(64),
            _ => None,
        }
    }

    pub fn get_destination_code(&self) -> (r: &'static str)
        requires
            self.wf(),
        ensures
            r == (if self@[0x4A] == 0 {
                "Japanese"
            } else if self@[0x4A] == 1 {
                "Overseas only"
            } else {
                "Unknown"
            }),
    {
        match self.bytes[0x4A] {
            0x00 => "Japanese",
            0x01 => "Overseas only",
            _ => "Unknown",
        }
    }

    /// The publisher named by the old licensee code; code 0x33 defers to
    /// the new licensee code.
    pub fn get_old_licensee_code(&self) -> (r: &'static str)
        requires
            self.wf(),
        ensures
            r == (if self@[0x4B] == 0x33 {
                "New licensee code should be used"
            } else {
                match old_licensee_name_of(self@[0x4B]) {
                    Some(n) => n,
                    None => "Unknown",
                }
            }),
    {
        if self.bytes[0x4B] == 0x33 {
            return "New licensee code should be used";
        }
        match old_licensee_name(self.bytes[0x4B]) {
            Some(n) => n,
            None => "Unknown",
        }
    }

    pub fn get_mask_rom_version_number(&self) -> (r: u8)
        requires
            self.wf(),
        ensures
            r == self@[0x4C],
    {
        self.bytes[0x4C]
    }

    pub fn get_header_checksum(&self) -> (r: u8)
        requires
            self.wf(),
        ensures
            r == self@[0x4D],
    {
        self.bytes[0x4D]
    }

    /// The two-byte global checksum, high byte first.
    pub fn get_global_checksum(&self) -> (r: u16)
        requires
            self.wf(),
        ensures
            r == self@[0x4E] * 256 + self@[0x4F],
    {
        (self.bytes[0x4E] as u16) * 256 + (self.bytes[0x4F] as u16)
    }

    /// The logo bytes match the ones the boot program expects.
    pub fn validate_nintendo_logo(&self) -> (r: bool)
        requires
            self.wf(),
        ensures
            r == (self@.subrange(LOGO_OFFSET as int, LOGO_OFFSET + 48) == nintendo_logo()),
    {
        let logo: Vec<u8> = vec![
            0xCE, 0xED, 0x66, 0x66, 0xCC, 0x0D, 0x00, 0x0B, 0x03, 0x73, 0x00, 0x83, 0x00, 0x0C,
            0x00, 0x0D, 0x00, 0x08, 0x11, 0x1F, 0x88, 0x89, 0x00, 0x0E, 0xDC, 0xCC, 0x6E, 0xE6,
            0xDD, 0xDD, 0xD9, 0x99, 0xBB, 0xBB, 0x67, 0x63, 0x6E, 0x0E, 0xEC, 0xCC, 0xDD, 0xDC,
            0x99, 0x9F, 0xBB, 0xB9, 0x33, 0x3E,
        ];
        assert(logo@ =~= nintendo_logo());
        let ghost region = self@.subrange(LOGO_OFFSET as int, LOGO_OFFSET + 48);
        let mut i: usize = 0;
        while i < 48
            invariant
                i <= 48,
                self.wf(),
                logo@ == nintendo_logo(),
                region == self@.subrange(LOGO_OFFSET as int, LOGO_OFFSET + 48),
                forall|j: int| 0 <= j < i ==> region[j] == logo@[j],
            decreases 48 - i,
        {
            if self.bytes[LOGO_OFFSET + i] != logo[i] {
                assert(region[i as int] != nintendo_logo()[i as int]);
                return false;
            }
            i = i + 1;
        }
        assert(region =~= nintendo_logo());
        true
    }

    /// The header checksum computed over bytes 0x0134 to 0x014C.
    pub fn compute_header_checksum(&self) -> (r: u8)
        requires
            self.wf(),
        ensures
            r == checksum_upto(self@, 0x4D),
    {
        let mut x: u8 = 0;
        let mut i: usize = 0x34;
        while i < 0x4D
            invariant
                0x34 <= i <= 0x4D,
                self.wf(),
                x == checksum_upto(self@, i as int),
            decreases 0x4D - i,
        {
            x = x.wrapping_sub(self.bytes[i]).wrapping_sub(1);
            i = i + 1;
        }
        x
    }

    /// The stored header checksum matches the one computed.
    pub fn validate_header_checksum(&self) -> (r: bool)
        requires
            self.wf(),
        ensures
            r == (self@[0x4D] == checksum_upto(self@, 0x4D)),
    {
        self.compute_header_checksum() == self.bytes[0x4D]
    }
}


/// The bank-controller variants: a cartridge without banking, and one that
/// switches the ROM bank seen at 0x4000-0x7FFF and gates its RAM.
#[derive(Debug, Clone, Copy, PartialEq, Eq, Structural)]
pub enum BankController {
    NoBanking,
    Banked,
}

/// Cartridge types 0x00, 0x08 and 0x09 have no bank controller.
pub open spec fn controller_of(cartridge_type: u8) -> BankController {
    if cartridge_type == 0x00 || cartridge_type == 0x08 || cartridge_type == 0x09 {
        BankController::NoBanking
    } else {
        BankController::Banked
    }
}

/// The number of 16 KB banks that a ROM-size code gives.
pub open spec fn bank_count_of(code: u8) -> nat {
    rom_size_kb_of(code as nat) / 16
}

/// A larger code gives at least twice the size.
pub proof fn lemma_rom_size_doubles(i: nat, j: nat)
    requires
        i < j,
    ensures
        2 * rom_size_kb_of(i) <= rom_size_kb_of(j),
    decreases j - i,
{
    if j > i + 1 {
        lemma_rom_size_doubles(i, (j - 1) as nat);
    }
}

/// Every code gives at least two banks, and codes from 7 up at least 256.
pub proof fn lemma_bank_count_bounds(code: u8)
    ensures
        bank_count_of(code) >= 2,
        code >= 7 ==> bank_count_of(code) >= 256,
{
    reveal_with_fuel(rom_size_kb_of, 8);
    if code > 0 {
        lemma_rom_size_doubles(0, code as nat);
    }
    if code > 7 {
        lemma_rom_size_doubles(7, code as nat);
    }
}

/// The cartridge has external RAM when its RAM-size code gives a non-zero size.
pub open spec fn ram_present_of(code: u8) -> bool {
    ram_size_kb_of(code) matches Some(k) && k > 0
}

/// Byte `i` of the ROM image; open bus past its end.
pub open spec fn rom_byte(rom: Seq<u8>, i: int) -> u8 {
    if 0 <= i < rom.len() {
        rom[i]
    } else {
        OPEN_BUS
    }
}

/// First address of the ROM-bank select range.
pub const BANK_SELECT_START: u16 = 0x4000;

/// First address of the RAM-enable range; it runs to 0x7FFF.
pub const RAM_ENABLE_START: u16 = 0x6000;

/// A loaded cartridge: the raw image, its header, and the state of its bank
/// controller.
pub struct Cartridge {
    pub header: ROMHeader,
    pub rom_data: Vec<u8>,
    pub controller: BankController,
    /// The ROM bank seen at 0x4000-0x7FFF.
    pub rom_bank: usize,
    pub ram_enabled: bool,
    /// External RAM: 8 KB when the cartridge has any, else empty.
    pub ram: Vec<u8>,
}

/// The bank that writing `value` selects: `value` modulo the bank count.
fn select_bank(code: u8, value: u8) -> (r: usize)
    ensures
        r == value as int % bank_count_of(code) as int,
        r < 256,
{
    proof {
        lemma_bank_count_bounds(code);
        reveal_with_fuel(rom_size_kb_of, 8);
    }
    let v = value as usize;
    if code >= 7 {
        proof {
            lemma_small_mod(value as nat, bank_count_of(code));
        }
        return v;
    }
    assert(bank_count_of(0) == 2 && bank_count_of(1) == 4 && bank_count_of(2) == 8
        && bank_count_of(3) == 16 && bank_count_of(4) == 32 && bank_count_of(5) == 64
        && bank_count_of(6) == 128);
    if code == 0 {
        v % 2
    } else if code == 1 {
        v % 4
    } else if code == 2 {
        v % 8
    } else if code == 3 {
        v % 16
    } else if code == 4 {
        v % 32
    } else if code == 5 {
        v % 64
    } else {
        v % 128
    }
}

impl Cartridge {
    pub open spec fn wf(&self) -> bool {
        &&& self.header.wf()
        &&& self.rom_data@.len() >= HEADER_START + HEADER_LEN
        &&& self.header@ == self.rom_data@.subrange(
            HEADER_START as int,
            HEADER_START + HEADER_LEN,
        )
        &&& self.controller == controller_of(self.header@[0x47])
        &&& self.rom_bank < self.bank_count()
        &&& self.rom_bank < 256
        &&& self.ram@.len() == (if ram_present_of(self.header@[0x49]) {
            ERAM_SIZE
        } else {
            0
        })
    }

    /// The number of ROM banks that the header's ROM-size code gives.
    pub open spec fn bank_count(&self) -> nat {
        bank_count_of(self.header@[0x48])
    }

    /// What a read of `addr` returns: ROM bank 0 below 0x4000, the selected
    /// bank at 0x4000-0x7FFF, external RAM at 0xA000-0xBFFF when present and
    /// enabled; open bus everywhere else.
    pub open spec fn read_spec(&self, addr: u16) -> u8 {
        if addr < 0x4000 {
            rom_byte(self.rom_data@, addr as int)
        } else if addr < 0x8000 {
            rom_byte(self.rom_data@, addr - 0x4000 + self.rom_bank * ROM_BANK_SIZE)
        } else if 0xA000 <= addr < 0xC000 && self.ram_enabled && self.ram@.len() == ERAM_SIZE {
            self.ram@[addr - 0xA000]
        } else {
            OPEN_BUS
        }
    }

    /// How a write of `value` to `addr` changes the cartridge: in a banked
    /// cartridge 0x4000-0x5FFF selects the ROM bank, modulo the bank count,
    /// and 0x6000-0x7FFF enables RAM when the value's low nibble is 0xA;
    /// 0xA000-0xBFFF writes enabled RAM. ROM content never changes.
    pub open spec fn write_rel(&self, new: Cartridge, addr: u16, value: u8) -> bool {
        let banked = self.controller == BankController::Banked;
        &&& new.header == self.header
        &&& new.rom_data@ == self.rom_data@
        &&& new.controller == self.controller
        &&& new.rom_bank == (if banked && BANK_SELECT_START <= addr < RAM_ENABLE_START {
            (value as int % self.bank_count() as int) as usize
        } else {
            self.rom_bank
        })
        &&& new.ram_enabled == (if banked && RAM_ENABLE_START <= addr < 0x8000 {
            value % 16 == 0x0A
        } else {
            self.ram_enabled
        })
        &&& new.ram@ == (if 0xA000 <= addr < 0xC000 && self.ram_enabled && self.ram@.len()
            == ERAM_SIZE {
            self.ram@.update(addr - 0xA000, value)
        } else {
            self.ram@
        })
    }

    /// Loads an image. It must hold the whole header region, 0x0150 bytes;
    /// the logo and checksums are not checked here. Bank 1 is selected, and
    /// RAM starts cleared, enabled only on a cartridge without a controller.
    pub fn new(rom_data: Vec<u8>) -> (r: Result<Cartridge, CoreError>)
        ensures
            (r is Err) <==> rom_data@.len() < HEADER_START + HEADER_LEN,
            r is Err ==> r == Err::<Cartridge, CoreError>(CoreError::TruncatedImage),
            r matches Ok(c) ==> {
                &&& c.wf()
                &&& c.rom_data@ == rom_data@
                &&& c.controller == controller_of(rom_data@[0x147])
                &&& c.rom_bank == 1
                &&& c.ram_enabled == (c.controller == BankController::NoBanking)
                &&& c.ram@ == (if ram_present_of(rom_data@[0x149]) {
                    Seq::new(ERAM_SIZE as nat, |i: int| 0u8)
                } else {
                    Seq::<u8>::empty()
                })
            },
    {
        if rom_data.len() < HEADER_START + HEADER_LEN {
            return Err(CoreError::TruncatedImage);
        }
        let mut hb: Vec<u8> = Vec::new();
        let mut i: usize = 0;
        while i < HEADER_LEN
            invariant
                i <= HEADER_LEN,
                rom_data@.len() >= HEADER_START + HEADER_LEN,
                hb@ == rom_data@.subrange(HEADER_START as int, HEADER_START + i),
            decreases HEADER_LEN - i,
        {
            hb.push(rom_data[HEADER_START + i]);
            i = i + 1;
            assert(hb@ =~= rom_data@.subrange(HEADER_START as int, HEADER_START + i));
        }
        let header = ROMHeader::from_bytes(hb.as_slice());
        assert(header@ =~= rom_data@.subrange(HEADER_START as int, HEADER_START + HEADER_LEN));
        let ty = rom_data[0x147];
        let controller = if ty == 0x00 || ty == 0x08 || ty == 0x09 {
            BankController::NoBanking
        } else {
            BankController::Banked
        };
        proof {
            lemma_bank_count_bounds(rom_data@[0x148]);
        }
        let present = match header.get_ram_size_kb() {
            Some(k) => k > 0,
            None => false,
        };
        let mut ram: Vec<u8> = Vec::new();
        if present {
            let mut j: usize = 0;
            while j < ERAM_SIZE
                invariant
                    j <= ERAM_SIZE,
                    ram@ == Seq::new(j as nat, |i: int| 0u8),
                decreases ERAM_SIZE - j,
            {
                ram.push(0);
                j = j + 1;
                assert(ram@ =~= Seq::new(j as nat, |i: int| 0u8));
            }
        } else {
            assert(ram@ =~= Seq::<u8>::empty());
        }
        let ram_enabled = match controller {
            BankController::NoBanking => true,
            BankController::Banked => false,
        };
        Ok(Cartridge { header, rom_data, controller, rom_bank: 1, ram_enabled, ram })
    }

    /// Reads `addr` through the bank controller.
    pub fn read(&self, addr: u16) -> (r: u8)
        requires
            self.wf(),
        ensures
            r == self.read_spec(addr),
    {
        if addr < 0x4000 {
            let i = addr as usize;
            if i < self.rom_data.len() {
                self.rom_data[i]
            } else {
                OPEN_BUS
            }
        } else if addr < 0x8000 {
            assert(self.rom_bank * ROM_BANK_SIZE < 256 * 0x4000) by (nonlinear_arith)
                requires
                    self.rom_bank < 256,
            ;
            let i = (addr - 0x4000) as usize + self.rom_bank * ROM_BANK_SIZE;
            if i < self.rom_data.len() {
                self.rom_data[i]
            } else {
                OPEN_BUS
            }
        } else if 0xA000 <= addr && addr < 0xC000 && self.ram_enabled && self.ram.len()
            == ERAM_SIZE {
            self.ram[(addr - 0xA000) as usize]
        } else {
            OPEN_BUS
        }
    }

    /// Writes `value` to `addr` through the bank controller.
    pub fn write(&mut self, addr: u16, value: u8)
        requires
            old(self).wf(),
        ensures
            final(self).wf(),
            old(self).write_rel(*final(self), addr, value),
    {
        let banked = match self.controller {
            BankController::Banked => true,
            BankController::NoBanking => false,
        };
        if banked && BANK_SELECT_START <= addr && addr < RAM_ENABLE_START {
            self.rom_bank = select_bank(self.header.get_rom_size_code(), value);
        } else if banked && RAM_ENABLE_START <= addr && addr < 0x8000 {
            self.ram_enabled = value % 16 == 0x0A;
        } else if 0xA000 <= addr && addr < 0xC000 && self.ram_enabled && self.ram.len()
            == ERAM_SIZE {
            self.ram.set((addr - 0xA000) as usize, value);
        }
    }
}

} // verus!
