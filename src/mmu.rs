use vstd::prelude::*;

use crate::cartridge::{lemma_bank_count_bounds, rom_byte, BankController, Cartridge, BANK_SELECT_START, OPEN_BUS, RAM_ENABLE_START, ROM_BANK_SIZE};

verus! {

pub const VRAM_SIZE: usize = 0x2000;

pub const WRAM_BANK_SIZE: usize = 0x1000;

pub const OAM_SIZE: usize = 160;

pub const HRAM_SIZE: usize = 127;

/// The value read from the unusable range 0xFEA0-0xFEFF.
pub const UNUSABLE_SENTINEL: u8 = 0xFF;

/// The value read from the I/O registers, which live outside this core.
pub const IO_DEFAULT: u8 = 0xFF;

/// Index into the 8 KB of work RAM that an address reaches: 0xC000-0xDFFF
/// directly, and 0xE000-0xFDFF as its echo.
pub open spec fn work_ram_index(addr: u16) -> Option<int> {
    if 0xC000 <= addr <= 0xDFFF {
        Some(addr - 0xC000)
    } else if 0xE000 <= addr <= 0xFDFF {
        Some(addr - 0xE000)
    } else {
        None
    }
}

/// The address space: the cartridge's windows and the console's own memory.
pub struct MMU {
    pub cartridge: Option<Cartridge>,
    pub vram: Vec<u8>,
    pub wram_bank_0: Vec<u8>,
    pub wram_bank_n: Vec<u8>,
    pub oam: Vec<u8>,
    pub hram: Vec<u8>,
    /// The Interrupt Enable register at 0xFFFF.
    pub ie: u8,
    /// Set by the video unit while it owns OAM: reads then return open bus
    /// and writes are dropped.
    pub oam_locked: bool,
}

fn zeroed(n: usize) -> (r: Vec<u8>)
    ensures
        r@ == Seq::new(n as nat, |i: int| 0u8),
{
    let mut v: Vec<u8> = Vec::new();
    let mut i: usize = 0;
    while i < n
        invariant
            i <= n,
            v@ == Seq::new(i as nat, |j: int| 0u8),
        decreases n - i,
    {
        v.push(0);
        i = i + 1;
        assert(v@ =~= Seq::new(i as nat, |j: int| 0u8));
    }
    v
}

impl MMU {
    pub open spec fn wf(&self) -> bool {
        &&& self.vram@.len() == VRAM_SIZE
        &&& self.wram_bank_0@.len() == WRAM_BANK_SIZE
        &&& self.wram_bank_n@.len() == WRAM_BANK_SIZE
        &&& self.oam@.len() == OAM_SIZE
        &&& self.hram@.len() == HRAM_SIZE
        &&& (self.cartridge matches Some(c) ==> c.wf())
    }

    /// The work-RAM byte at index `i` of 0 to 0x1FFF.
    pub open spec fn work_ram_byte(&self, i: int) -> u8 {
        if i < WRAM_BANK_SIZE {
            self.wram_bank_0@[i]
        } else {
            self.wram_bank_n@[i - WRAM_BANK_SIZE]
        }
    }

    /// The byte a read of `addr` returns, for every 16-bit address.
    pub open spec fn read_spec(&self, addr: u16) -> u8 {
        if addr <= 0x7FFF || (0xA000 <= addr <= 0xBFFF) {
            match self.cartridge {
                Some(c) => c.read_spec(addr),
                None => OPEN_BUS,
            }
        } else if addr <= 0x9FFF {
            self.vram@[addr - 0x8000]
        } else if addr <= 0xFDFF {
            self.work_ram_byte(work_ram_index(addr).unwrap())
        } else if addr <= 0xFE9F {
            if self.oam_locked {
                OPEN_BUS
            } else {
                self.oam@[addr - 0xFE00]
            }
        } else if addr <= 0xFEFF {
            UNUSABLE_SENTINEL
        } else if addr <= 0xFF7F {
            IO_DEFAULT
        } else if addr <= 0xFFFE {
            self.hram@[addr - 0xFF80]
        } else {
            self.ie
        }
    }

    /// How a write of `value` to `addr` changes the memory map. ROM bank 0,
    /// the unusable range and the I/O registers ignore writes; the two
    /// cartridge windows at 0x4000-0x7FFF and 0xA000-0xBFFF go to the
    /// cartridge.
    pub open spec fn write_rel(&self, new: MMU, addr: u16, value: u8) -> bool {
        let w = work_ram_index(addr);
        &&& new.vram@ == (if 0x8000 <= addr <= 0x9FFF {
            self.vram@.update(addr - 0x8000, value)
        } else {
            self.vram@
        })
        &&& new.wram_bank_0@ == (if w is Some && w.unwrap() < WRAM_BANK_SIZE {
            self.wram_bank_0@.update(w.unwrap(), value)
        } else {
            self.wram_bank_0@
        })
        &&& new.wram_bank_n@ == (if w is Some && w.unwrap() >= WRAM_BANK_SIZE {
            self.wram_bank_n@.update(w.unwrap() - WRAM_BANK_SIZE, value)
        } else {
            self.wram_bank_n@
        })
        &&& new.oam_locked == self.oam_locked
        &&& new.oam@ == (if 0xFE00 <= addr <= 0xFE9F && !self.oam_locked {
            self.oam@.update(addr - 0xFE00, value)
        } else {
            self.oam@
        })
        &&& new.hram@ == (if 0xFF80 <= addr <= 0xFFFE {
            self.hram@.update(addr - 0xFF80, value)
        } else {
            self.hram@
        })
        &&& new.ie == (if addr == 0xFFFF {
            value
        } else {
            self.ie
        })
        &&& if (0x4000 <= addr <= 0x7FFF || 0xA000 <= addr <= 0xBFFF) {
            match self.cartridge {
                Some(c) => new.cartridge matches Some(n) && c.write_rel(n, addr, value),
                None => new.cartridge is None,
            }
        } else {
            new.cartridge == self.cartridge
        }
    }

    /// How a sequence of at most two writes, made in order, changes the map.
    pub open spec fn writes_rel(&self, new: MMU, ws: Seq<(u16, u8)>) -> bool {
        if ws.len() == 0 {
            new == *self
        } else if ws.len() == 1 {
            self.write_rel(new, ws[0].0, ws[0].1)
        } else {
            ws.len() == 2 && exists|mid: MMU|
                #[trigger] self.write_rel(mid, ws[0].0, ws[0].1) && mid.write_rel(
                    new,
                    ws[1].0,
                    ws[1].1,
                )
        }
    }

    /// An empty map: all memory cleared, no cartridge.
    pub fn new() -> (r: MMU)
        ensures
            r.wf(),
            r.cartridge is None,
            r.ie == 0,
            !r.oam_locked,
            forall|a: u16| 0x8000 <= a <= 0x9FFF || 0xC000 <= a <= 0xFE9F || 0xFF80 <= a <= 0xFFFE
                ==> #[trigger] r.read_spec(a) == 0,
    {
        MMU {
            cartridge: None,
            vram: zeroed(VRAM_SIZE),
            wram_bank_0: zeroed(WRAM_BANK_SIZE),
            wram_bank_n: zeroed(WRAM_BANK_SIZE),
            oam: zeroed(OAM_SIZE),
            hram: zeroed(HRAM_SIZE),
            ie: 0,
            oam_locked: false,
        }
    }

    /// Clears the console's own memory and the Interrupt Enable register;
    /// the cartridge stays bound.
    pub fn reset(&mut self)
        requires
            old(self).wf(),
        ensures
            final(self).wf(),
            final(self).cartridge == old(self).cartridge,
            final(self).oam_locked == old(self).oam_locked,
            final(self).ie == 0,
            final(self).vram@ == Seq::new(VRAM_SIZE as nat, |i: int| 0u8),
            final(self).wram_bank_0@ == Seq::new(WRAM_BANK_SIZE as nat, |i: int| 0u8),
            final(self).wram_bank_n@ == Seq::new(WRAM_BANK_SIZE as nat, |i: int| 0u8),
            final(self).oam@ == Seq::new(OAM_SIZE as nat, |i: int| 0u8),
            final(self).hram@ == Seq::new(HRAM_SIZE as nat, |i: int| 0u8),
    {
        self.vram = zeroed(VRAM_SIZE);
        self.wram_bank_0 = zeroed(WRAM_BANK_SIZE);
        self.wram_bank_n = zeroed(WRAM_BANK_SIZE);
        self.oam = zeroed(OAM_SIZE);
        self.hram = zeroed(HRAM_SIZE);
        self.ie = 0;
    }

    /// Grants or withdraws the processor's access to OAM.
    pub fn set_oam_locked(&mut self, locked: bool)
        requires
            old(self).wf(),
        ensures
            final(self).wf(),
            *final(self) == (MMU { oam_locked: locked, ..*old(self) }),
    {
        self.oam_locked = locked;
    }

    /// Binds a cartridge, replacing any bound before.
    pub fn load_cartridge(&mut self, cartridge: Cartridge)
        requires
            old(self).wf(),
            cartridge.wf(),
        ensures
            final(self).wf(),
            final(self).cartridge == Some(cartridge),
            final(self).vram == old(self).vram,
            final(self).wram_bank_0 == old(self).wram_bank_0,
            final(self).wram_bank_n == old(self).wram_bank_n,
            final(self).oam == old(self).oam,
            final(self).hram == old(self).hram,
            final(self).ie == old(self).ie,
            final(self).oam_locked == old(self).oam_locked,
    {
        self.cartridge = Some(cartridge);
    }

    /// Reads any address. No address faults: the unusable range, the I/O
    /// registers and a missing cartridge give their fixed values.
    pub fn read(&self, addr: u16) -> (r: u8)
        requires
            self.wf(),
        ensures
            r == self.read_spec(addr),
    {
        if addr <= 0x7FFF || (0xA000 <= addr && addr <= 0xBFFF) {
            match &self.cartridge {
                Some(c) => c.read(addr),
                None => OPEN_BUS,
            }
        } else if addr <= 0x9FFF {
            self.vram[(addr - 0x8000) as usize]
        } else if addr <= 0xCFFF {
            self.wram_bank_0[(addr - 0xC000) as usize]
        } else if addr <= 0xDFFF {
            self.wram_bank_n[(addr - 0xD000) as usize]
        } else if addr <= 0xFDFF {
            let m = (addr - 0xE000) as usize;
            if m < WRAM_BANK_SIZE {
                self.wram_bank_0[m]
            } else {
                self.wram_bank_n[m - WRAM_BANK_SIZE]
            }
        } else if addr <= 0xFE9F {
            if self.oam_locked {
                OPEN_BUS
            } else {
                self.oam[(addr - 0xFE00) as usize]
            }
        } else if addr <= 0xFEFF {
            UNUSABLE_SENTINEL
        } else if addr <= 0xFF7F {
            IO_DEFAULT
        } else if addr <= 0xFFFE {
            self.hram[(addr - 0xFF80) as usize]
        } else {
            self.ie
        }
    }

    /// Writes any address; see `write_rel` for where each write goes.
    pub fn write(&mut self, addr: u16, value: u8)
        requires
            old(self).wf(),
        ensures
            final(self).wf(),
            old(self).write_rel(*final(self), addr, value),
    {
        if addr <= 0x3FFF {
        } else if addr <= 0x7FFF || (0xA000 <= addr && addr <= 0xBFFF) {
            match &mut self.cartridge {
                Some(c) => c.write(addr, value),
                None => {},
            }
        } else if addr <= 0x9FFF {
            self.vram.set((addr - 0x8000) as usize, value);
        } else if addr <= 0xCFFF {
            self.wram_bank_0.set((addr - 0xC000) as usize, value);
        } else if addr <= 0xDFFF {
            self.wram_bank_n.set((addr - 0xD000) as usize, value);
        } else if addr <= 0xFDFF {
            let m = (addr - 0xE000) as usize;
            if m < WRAM_BANK_SIZE {
                self.wram_bank_0.set(m, value);
            } else {
                self.wram_bank_n.set(m - WRAM_BANK_SIZE, value);
            }
        } else if addr <= 0xFE9F {
            if !self.oam_locked {
                self.oam.set((addr - 0xFE00) as usize, value);
            }
        } else if addr <= 0xFEFF {
        } else if addr <= 0xFF7F {
        } else if addr <= 0xFFFE {
            self.hram.set((addr - 0xFF80) as usize, value);
        } else {
            self.ie = value;
        }
    }
}

/// A write to work RAM or to its echo is seen by a read of either address
/// that reaches the same byte.
pub proof fn lemma_work_ram_mirror(m: MMU, n: MMU, a: u16, b: u16, x: u8)
    requires
        m.wf(),
        m.write_rel(n, a, x),
        work_ram_index(a) is Some,
        work_ram_index(a) == work_ram_index(b),
    ensures
        n.read_spec(b) == x,
        n.read_spec(a) == x,
{
}

/// Writing `x` at 0xC010 is seen at 0xE010 and at 0xC010; writing at 0xE010
/// is seen at 0xC010.
pub proof fn lemma_echo_round_trip(m: MMU, n1: MMU, n2: MMU, x: u8)
    requires
        m.wf(),
        m.write_rel(n1, 0xC010, x),
        m.write_rel(n2, 0xE010, x),
    ensures
        n1.read_spec(0xE010) == x,
        n1.read_spec(0xC010) == x,
        n2.read_spec(0xC010) == x,
{
    lemma_work_ram_mirror(m, n1, 0xC010, 0xE010, x);
    lemma_work_ram_mirror(m, n2, 0xE010, 0xC010, x);
}

/// After a bank index `b` is written to the ROM-bank select range of a banked
/// cartridge, every address of 0x4000-0x7FFF reads the ROM byte at
/// `(address - 0x4000) + (b mod bank_count) * 0x4000`.
pub proof fn lemma_bank_switch(m: MMU, n: MMU, sel: u16, b: u8, addr: u16)
    requires
        m.wf(),
        m.cartridge matches Some(c) && c.controller == BankController::Banked,
        BANK_SELECT_START <= sel < RAM_ENABLE_START,
        m.write_rel(n, sel, b),
        0x4000 <= addr <= 0x7FFF,
    ensures
        n.cartridge matches Some(c) && n.read_spec(addr) == rom_byte(
            c.rom_data@,
            addr - 0x4000 + (b as int % c.bank_count() as int) * ROM_BANK_SIZE,
        ),
{
    let c = m.cartridge.unwrap();
    lemma_bank_count_bounds(c.header@[0x48]);
    let k = c.bank_count() as int;
    assert(0 <= b as int % k <= b) by (nonlinear_arith)
        requires
            k > 0,
    ;
}

} // verus!
