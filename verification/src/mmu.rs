//! The processor's view of memory: work RAM and the memory-mapped devices,
//! each selected by the address.

use vstd::prelude::*;
use crate::bus::Bus;
use crate::bus::word;

verus! {

/// Number of cells that a [`Ram`] holds.
pub const RAM_SIZE: usize = 0xFFF;

/// Last address of the mirrors of work RAM.
pub const WRAM_END: u16 = 0x1FFF;

/// Last address of the mirrors of the video registers.
pub const PPU_END: u16 = 0x3FFF;

/// The audio status register, the only readable one of its block.
pub const APU_STATUS: u16 = 0x4015;

/// The port of the first controller; a store to it reaches both controllers.
pub const CTRL0_PORT: u16 = 0x4016;

/// The port of the second controller.
pub const CTRL1_PORT: u16 = 0x4017;

/// Last address of the input and output block.
pub const IO_END: u16 = 0x4017;

/// Last address of the block that is normally disabled.
pub const DISABLED_END: u16 = 0x401F;

/// Work RAM.
pub struct Ram {
    cells: [u8; 0xFFF],
}

impl View for Ram {
    type V = Seq<u8>;

    /// The cells, in order of address.
    closed spec fn view(&self) -> Seq<u8> {
        self.cells@
    }
}

impl Ram {
    /// RAM with every cell zero.
    pub fn new() -> (ram: Ram)
        ensures
            ram@ == Seq::new(RAM_SIZE as nat, |i: int| 0u8),
    {
        let ram = Ram { cells: [0; 0xFFF] };
        assert(ram@ =~= Seq::new(RAM_SIZE as nat, |i: int| 0u8));
        ram
    }

    /// The byte in cell `address`.
    pub fn load(&self, address: u16) -> (val: u8)
        requires
            address < RAM_SIZE,
        ensures
            val == self@[address as int],
    {
        self.cells[address as usize]
    }

    /// Puts `val` into cell `address`.
    pub fn store(&mut self, address: u16, val: u8)
        requires
            address < RAM_SIZE,
        ensures
            final(self)@ == old(self)@.update(address as int, val),
    {
        self.cells[address as usize] = val;
    }

    /// Every RAM has the same number of cells.
    pub proof fn lemma_len(&self)
        ensures
            self@.len() == RAM_SIZE,
    {
    }
}

/// On its own a RAM is a bus whose upper address lines are not connected:
/// every address selects the cell `addr % 0x800`.
impl Bus for Ram {
    type State = Seq<u8>;

    open spec fn state(&self) -> Seq<u8> {
        self@
    }

    open spec fn peek(s: Seq<u8>, addr: u16) -> u8 {
        s[addr as int % 0x800]
    }

    open spec fn after_load(s: Seq<u8>, addr: u16) -> Seq<u8> {
        s
    }

    open spec fn after_store(s: Seq<u8>, addr: u16, val: u8) -> Seq<u8> {
        s.update(addr as int % 0x800, val)
    }

    fn ld8(&mut self, addr: u16) -> (val: u8) {
        proof {
            lemma_masks(addr);
        }
        self.load(addr & 0x7FF)
    }

    fn store(&mut self, addr: u16, val: u8) {
        proof {
            lemma_masks(addr);
        }
        Ram::store(self, addr & 0x7FF, val)
    }
}

/// The address masks of the memory map, as remainders.
pub proof fn lemma_masks(addr: u16)
    ensures
        (addr & 0x7FF) == addr % 0x800,
        addr >= 0x2000 ==> ((addr - 0x2000) as u16 & 7) == addr % 8,
{
    assert((addr & 0x7FF) == addr % 0x800) by (bit_vector);
    if addr >= 0x2000 {
        assert(((addr - 0x2000) as u16 & 7) == addr % 8) by (bit_vector)
            requires
                addr >= 0x2000,
        ;
    }
}

/// The memory map: work RAM, the video and audio registers, two controller
/// ports and the cartridge, each a device of its own.
pub struct Mmu<P, A, C, M> {
    pub ppu: P,
    pub apu: A,
    pub ram: Ram,
    pub mapper: M,
    pub ctrl0: C,
    pub ctrl1: C,
}

/// The state of everything behind the memory map.
pub struct MmuState<PS, AS, CS, MS> {
    pub ppu: PS,
    pub apu: AS,
    pub ram: Seq<u8>,
    pub mapper: MS,
    pub ctrl0: CS,
    pub ctrl1: CS,
}

impl<P: Bus, A: Bus, C: Bus, M: Bus> View for Mmu<P, A, C, M> {
    type V = MmuState<P::State, A::State, C::State, M::State>;

    open spec fn view(&self) -> Self::V {
        MmuState {
            ppu: self.ppu.state(),
            apu: self.apu.state(),
            ram: self.ram@,
            mapper: self.mapper.state(),
            ctrl0: self.ctrl0.state(),
            ctrl1: self.ctrl1.state(),
        }
    }
}

impl<P: Bus, A: Bus, C: Bus, M: Bus> Mmu<P, A, C, M> {
    /// The byte that a load from `address` returns.
    ///
    /// Work RAM repeats every 0x800 addresses up to 0x1FFF and the eight video
    /// registers every 8 addresses up to 0x3FFF. Of the block at 0x4000 only
    /// the audio status and the two controller ports can be read; the rest of
    /// it, and the disabled block up to 0x401F, reads as zero. The cartridge
    /// answers from 0x4020 on.
    pub open spec fn spec_peek(s: MmuState<P::State, A::State, C::State, M::State>, address: u16)
        -> u8 {
        if address <= WRAM_END {
            s.ram[address as int % 0x800]
        } else if address <= PPU_END {
            P::peek(s.ppu, address % 8)
        } else if address == APU_STATUS {
            A::peek(s.apu, 0x15)
        } else if address == CTRL0_PORT {
            C::peek(s.ctrl0, 0)
        } else if address == CTRL1_PORT {
            C::peek(s.ctrl1, 0)
        } else if address <= DISABLED_END {
            0
        } else {
            M::peek(s.mapper, address)
        }
    }

    /// The state that a load from `address` leaves: that of the device read
    /// has moved, all others stand.
    pub open spec fn spec_after_load(
        s: MmuState<P::State, A::State, C::State, M::State>,
        address: u16,
    ) -> MmuState<P::State, A::State, C::State, M::State> {
        if address <= WRAM_END {
            s
        } else if address <= PPU_END {
            MmuState { ppu: P::after_load(s.ppu, address % 8), ..s }
        } else if address == APU_STATUS {
            MmuState { apu: A::after_load(s.apu, 0x15), ..s }
        } else if address == CTRL0_PORT {
            MmuState { ctrl0: C::after_load(s.ctrl0, 0), ..s }
        } else if address == CTRL1_PORT {
            MmuState { ctrl1: C::after_load(s.ctrl1, 0), ..s }
        } else if address <= DISABLED_END {
            s
        } else {
            MmuState { mapper: M::after_load(s.mapper, address), ..s }
        }
    }

    /// The state that a store of `val` to `address` leaves.
    ///
    /// A store to the first controller port reaches both controllers; every
    /// other address of the block at 0x4000 belongs to the audio registers. A
    /// store to the disabled block changes nothing.
    pub open spec fn spec_after_store(
        s: MmuState<P::State, A::State, C::State, M::State>,
        address: u16,
        val: u8,
    ) -> MmuState<P::State, A::State, C::State, M::State> {
        if address <= WRAM_END {
            MmuState { ram: s.ram.update(address as int % 0x800, val), ..s }
        } else if address <= PPU_END {
            MmuState { ppu: P::after_store(s.ppu, address % 8, val), ..s }
        } else if address == CTRL0_PORT {
            MmuState {
                ctrl0: C::after_store(s.ctrl0, 0, val),
                ctrl1: C::after_store(s.ctrl1, 0, val),
                ..s
            }
        } else if address <= IO_END {
            MmuState { apu: A::after_store(s.apu, (address - 0x4000) as u16, val), ..s }
        } else if address <= DISABLED_END {
            s
        } else {
            MmuState { mapper: M::after_store(s.mapper, address, val), ..s }
        }
    }

    /// Wires the devices to the memory map.
    pub fn new(apu: A, ram: Ram, ppu: P, mapper: M, ctrl0: C, ctrl1: C) -> (mmu: Self)
        ensures
            mmu@ == (MmuState {
                ppu: ppu.state(),
                apu: apu.state(),
                ram: ram@,
                mapper: mapper.state(),
                ctrl0: ctrl0.state(),
                ctrl1: ctrl1.state(),
            }),
    {
        Mmu { ppu: ppu, apu: apu, ram: ram, mapper: mapper, ctrl0: ctrl0, ctrl1: ctrl1 }
    }

    /// Stores `val` at `address`, in the device that the address selects.
    pub fn store(&mut self, address: u16, val: u8)
        ensures
            final(self)@ == Self::spec_after_store(old(self)@, address, val),
    {
        proof {
            lemma_masks(address);
        }
        if address <= WRAM_END {
            self.ram.store(address & 0x7FF, val);
        } else if address <= PPU_END {
            self.ppu.store((address - 0x2000) & 7, val);
        } else if address == CTRL0_PORT {
            self.ctrl0.store(0, val);
            self.ctrl1.store(0, val);
        } else if address <= IO_END {
            self.apu.store(address - 0x4000, val);
        } else if address <= DISABLED_END {
        } else {
            self.mapper.store(address, val);
        }
    }

    /// Loads the byte at `address` from the device that the address selects.
    pub fn ld8(&mut self, address: u16) -> (val: u8)
        ensures
            val == Self::spec_peek(old(self)@, address),
            final(self)@ == Self::spec_after_load(old(self)@, address),
    {
        proof {
            lemma_masks(address);
        }
        if address <= WRAM_END {
            self.ram.load(address & 0x7FF)
        } else if address <= PPU_END {
            self.ppu.ld8((address - 0x2000) & 7)
        } else if address == APU_STATUS {
            self.apu.ld8(address - 0x4000)
        } else if address == CTRL0_PORT {
            self.ctrl0.ld8(0)
        } else if address == CTRL1_PORT {
            self.ctrl1.ld8(0)
        } else if address <= DISABLED_END {
            0
        } else {
            self.mapper.ld8(address)
        }
    }

    /// Loads the little-endian word at `address`: the low byte from `address`,
    /// then the high byte from the address after it, which wraps past 0xFFFF.
    pub fn ld16(&mut self, address: u16) -> (val: u16)
        ensures
            ({
                let s0 = old(self)@;
                let s1 = Self::spec_after_load(s0, address);
                let next = address.wrapping_add(1);
                &&& val == word(Self::spec_peek(s0, address), Self::spec_peek(s1, next))
                &&& final(self)@ == Self::spec_after_load(s1, next)
            }),
    {
        let l_byte = self.ld8(address);
        let r_byte = self.ld8(address.wrapping_add(1));
        proof {
            crate::bus::lemma_word_bits(l_byte, r_byte);
        }
        (r_byte as u16) << 8 | (l_byte as u16)
    }
}

impl<P: Bus, A: Bus, C: Bus, M: Bus> Bus for Mmu<P, A, C, M> {
    type State = MmuState<P::State, A::State, C::State, M::State>;

    open spec fn state(&self) -> Self::State {
        self@
    }

    open spec fn peek(s: Self::State, addr: u16) -> u8 {
        Self::spec_peek(s, addr)
    }

    open spec fn after_load(s: Self::State, addr: u16) -> Self::State {
        Self::spec_after_load(s, addr)
    }

    open spec fn after_store(s: Self::State, addr: u16, val: u8) -> Self::State {
        Self::spec_after_store(s, addr, val)
    }

    fn ld8(&mut self, addr: u16) -> (val: u8) {
        Mmu::ld8(self, addr)
    }

    fn store(&mut self, addr: u16, val: u8) {
        Mmu::store(self, addr, val)
    }
}

} // verus!
