//! Video memory: two nametables, mirrored into four as the cartridge wires
//! them, the palette, and the pattern tables that the cartridge holds.

use vstd::prelude::*;
use crate::bus::Bus;

verus! {

/// Number of bytes of nametable memory.
pub const VRAM_SIZE: usize = 0x800;

/// Number of palette entries.
pub const PALETTE_SIZE: usize = 0x20;

/// First address of the nametables.
pub const NAMETABLES: u16 = 0x2000;

/// First address of the palette.
pub const PALETTE: u16 = 0x3F00;

/// First address past video memory.
pub const VIDEO_END: u16 = 0x4000;

/// Which of the two nametables a one-screen cartridge shows.
#[derive(Clone, Copy, Debug, PartialEq, Eq, Structural)]
pub enum ScreenBank {
    Lower,
    Upper,
}

/// How the cartridge maps the four nametables onto the two that exist.
#[derive(Clone, Copy, Debug, PartialEq, Eq, Structural)]
pub enum ScreenMode {
    /// The upper two share one table and the lower two the other.
    Horizontal,
    /// The left two share one table and the right two the other.
    Vertical,
    /// All four are the one table named.
    OneScreenSwap(ScreenBank),
    /// Four tables of their own, which this memory does not hold.
    FourScreen,
}

/// Where in nametable memory the byte at offset `addr` of the four
/// nametables is kept.
pub open spec fn nametable_index(mode: ScreenMode, addr: u16) -> int
    recommends
        mode != ScreenMode::FourScreen,
        mode == ScreenMode::Horizontal || mode == ScreenMode::Vertical ==> addr < 0x1000,
{
    match mode {
        ScreenMode::Horizontal => (addr / 0x800) * 0x400 + addr % 0x400,
        ScreenMode::Vertical => addr as int % 0x800,
        ScreenMode::OneScreenSwap(ScreenBank::Lower) => addr as int % 0x400,
        ScreenMode::OneScreenSwap(ScreenBank::Upper) => addr % 0x400 + 0x400,
        ScreenMode::FourScreen => addr as int,
    }
}

/// Which palette entry answers at `addr`. The palette repeats every 32
/// addresses, and the first entry of each sprite palette is the first entry
/// of the background palette with the same number.
pub open spec fn palette_index(addr: u16) -> int {
    let entry = addr as int % 32;
    if entry >= 16 && entry % 4 == 0 {
        entry - 16
    } else {
        entry
    }
}

/// The address masks of video memory, as remainders.
pub proof fn lemma_video_masks(addr: u16)
    ensures
        (addr & 0xFFF) == addr % 0x1000,
        (addr & 0x3FF) == addr % 0x400,
        (addr as usize & 0x1F) == addr % 32,
        (addr as usize & 0x1F) & 0xF == addr % 16,
{
    assert((addr & 0xFFF) == addr % 0x1000 && (addr & 0x3FF) == addr % 0x400) by (bit_vector);
    assert((addr as usize & 0x1F) == addr % 32 && (addr as usize & 0x1F) & 0xF == addr % 16)
        by (bit_vector);
}

/// Video memory.
pub struct Vram {
    pub vram: [u8; 0x800],
    pub palette: [u8; 0x20],
    /// What the last buffered load left for the next one to return.
    pub ppudata_buff: u8,
}

/// What video memory holds.
pub struct VramState {
    pub vram: Seq<u8>,
    pub palette: Seq<u8>,
    pub buffer: u8,
}

impl View for Vram {
    type V = VramState;

    open spec fn view(&self) -> VramState {
        VramState { vram: self.vram@, palette: self.palette@, buffer: self.ppudata_buff }
    }
}

impl Vram {
    /// The byte that a load from `addr` returns, with the pattern tables in
    /// state `chr`: below the nametables the cartridge answers, from 0x3F00
    /// the palette, between them a nametable.
    pub open spec fn peek<C: Bus>(s: VramState, chr: C::State, mode: ScreenMode, addr: u16) -> u8
        recommends
            addr < VIDEO_END,
    {
        if addr < NAMETABLES {
            C::peek(chr, addr)
        } else if addr < PALETTE {
            s.vram[nametable_index(mode, (addr % 0x1000) as u16)]
        } else {
            s.palette[palette_index(addr)]
        }
    }

    /// What a store of `val` to `addr` leaves in video memory.
    pub open spec fn stored(s: VramState, mode: ScreenMode, addr: u16, val: u8) -> VramState
        recommends
            addr < VIDEO_END,
    {
        if addr < NAMETABLES {
            s
        } else if addr < PALETTE {
            VramState {
                vram: s.vram.update(nametable_index(mode, (addr % 0x1000) as u16), val),
                ..s
            }
        } else {
            VramState { palette: s.palette.update(palette_index(addr), val), ..s }
        }
    }

    /// Video memory with every byte zero.
    pub fn new() -> (v: Vram)
        ensures
            v@.vram == Seq::new(VRAM_SIZE as nat, |i: int| 0u8),
            v@.palette == Seq::new(PALETTE_SIZE as nat, |i: int| 0u8),
            v@.buffer == 0,
    {
        let v = Vram { vram: [0; 0x800], palette: [0; 0x20], ppudata_buff: 0 };
        assert(v.vram@ =~= Seq::new(VRAM_SIZE as nat, |i: int| 0u8));
        assert(v.palette@ =~= Seq::new(PALETTE_SIZE as nat, |i: int| 0u8));
        v
    }

    /// Zeroes the nametables and the palette. The load buffer stays.
    pub fn reset(&mut self)
        ensures
            final(self)@.vram == Seq::new(VRAM_SIZE as nat, |i: int| 0u8),
            final(self)@.palette == Seq::new(PALETTE_SIZE as nat, |i: int| 0u8),
            final(self)@.buffer == old(self)@.buffer,
    {
        self.vram = [0; 0x800];
        self.palette = [0; 0x20];
        assert(self.vram@ =~= Seq::new(VRAM_SIZE as nat, |i: int| 0u8));
        assert(self.palette@ =~= Seq::new(PALETTE_SIZE as nat, |i: int| 0u8));
    }

    /// A load as the data port makes it. Below the palette the port returns
    /// what the load before left in the buffer, and buffers the byte at
    /// `addr`. In the palette it returns the palette byte at once, and
    /// buffers the nametable byte that lies under the palette.
    pub fn buffered_ld8<C: Bus>(&mut self, chr: &mut C, mode: ScreenMode, addr: u16) -> (val: u8)
        requires
            addr < VIDEO_END,
            addr >= NAMETABLES ==> mode != ScreenMode::FourScreen,
        ensures
            val == if addr < PALETTE {
                old(self)@.buffer
            } else {
                Vram::peek::<C>(old(self)@, old(chr).state(), mode, addr)
            },
            final(self)@ == (VramState {
                buffer: if addr < PALETTE {
                    Vram::peek::<C>(old(self)@, old(chr).state(), mode, addr)
                } else {
                    old(self)@.vram[nametable_index(mode, (addr % 0x1000) as u16)]
                },
                ..old(self)@
            }),
            final(chr).state() == if addr < NAMETABLES {
                C::after_load(old(chr).state(), addr)
            } else {
                old(chr).state()
            },
    {
        if addr < 0x3F00 {
            let val = self.ppudata_buff;
            self.ppudata_buff = self.ld8(chr, mode, addr);
            val
        } else {
            proof {
                lemma_video_masks(addr);
            }
            self.ppudata_buff = self.vram[Self::nt_mirror(mode, addr & 0xFFF)];
            self.ld8(chr, mode, addr)
        }
    }

    /// Loads the byte at `addr`. Only a load from the pattern tables reaches
    /// the cartridge.
    pub fn ld8<C: Bus>(&self, chr: &mut C, mode: ScreenMode, addr: u16) -> (val: u8)
        requires
            addr < VIDEO_END,
            NAMETABLES <= addr < PALETTE ==> mode != ScreenMode::FourScreen,
        ensures
            val == Vram::peek::<C>(self@, old(chr).state(), mode, addr),
            final(chr).state() == if addr < NAMETABLES {
                C::after_load(old(chr).state(), addr)
            } else {
                old(chr).state()
            },
    {
        proof {
            lemma_video_masks(addr);
        }
        if addr < 0x2000 {
            chr.ld8(addr)
        } else if addr < 0x3F00 {
            self.vram[Self::nt_mirror(mode, addr & 0xFFF)]
        } else {
            self.palette[Self::palette_mirror(addr)]
        }
    }

    /// Stores `val` at `addr`. Only a store to the pattern tables reaches the
    /// cartridge.
    pub fn store<C: Bus>(&mut self, chr: &mut C, mode: ScreenMode, addr: u16, val: u8)
        requires
            addr < VIDEO_END,
            NAMETABLES <= addr < PALETTE ==> mode != ScreenMode::FourScreen,
        ensures
            final(self)@ == Vram::stored(old(self)@, mode, addr, val),
            final(chr).state() == if addr < NAMETABLES {
                C::after_store(old(chr).state(), addr, val)
            } else {
                old(chr).state()
            },
    {
        proof {
            lemma_video_masks(addr);
        }
        if addr < 0x2000 {
            chr.store(addr, val);
        } else if addr < 0x3F00 {
            let index = Self::nt_mirror(mode, addr & 0xFFF);
            self.vram[index] = val;
        } else {
            let index = Self::palette_mirror(addr);
            self.palette[index] = val;
        }
    }

    /// Resolves the mirroring of the nametables: the index into nametable
    /// memory for offset `addr` of the four nametables. With one screen any
    /// address is taken and folded into the one table.
    pub fn nt_mirror(mode: ScreenMode, addr: u16) -> (index: usize)
        requires
            mode != ScreenMode::FourScreen,
            mode == ScreenMode::Horizontal || mode == ScreenMode::Vertical ==> addr < 0x1000,
        ensures
            index == nametable_index(mode, addr),
            index < VRAM_SIZE,
    {
        match mode {
            ScreenMode::Horizontal => {
                if addr <= 0x3FF {
                    assert(addr / 0x800 == 0 && addr % 0x400 == addr);
                    addr as usize
                } else if addr <= 0xBFF {
                    assert(addr <= 0x7FF ==> addr / 0x800 == 0 && addr % 0x400 == addr - 0x400);
                    assert(addr >= 0x800 ==> addr / 0x800 == 1 && addr % 0x400 == addr - 0x800);
                    (addr - 0x400) as usize
                } else {
                    assert(addr / 0x800 == 1 && addr % 0x400 == addr - 0xC00);
                    (addr - 0x800) as usize
                }
            },
            ScreenMode::Vertical => {
                if addr <= 0x7FF {
                    assert(addr % 0x800 == addr);
                    addr as usize
                } else {
                    assert(addr % 0x800 == addr - 0x800);
                    (addr - 0x800) as usize
                }
            },
            ScreenMode::OneScreenSwap(bank) => {
                proof {
                    lemma_video_masks(addr);
                }
                let addr = addr & 0x3FF;
                match bank {
                    ScreenBank::Lower => addr as usize,
                    ScreenBank::Upper => addr as usize + 0x400,
                }
            },
            ScreenMode::FourScreen => 0,
        }
    }

    /// Resolves the mirroring of the palette: the index of the entry that
    /// answers at `addr`.
    pub fn palette_mirror(addr: u16) -> (index: usize)
        ensures
            index == palette_index(addr),
            index < PALETTE_SIZE,
    {
        proof {
            lemma_video_masks(addr);
        }
        let addr = (addr as usize) & 0x1F;
        if addr == 0x10 || addr == 0x14 || addr == 0x18 || addr == 0x1C {
            addr & 0xF
        } else {
            addr
        }
    }
}

} // verus!
