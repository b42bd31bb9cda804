//! The contract between the processor and whatever is wired to its address
//! lines.

use vstd::prelude::*;

verus! {

/// The 16-bit word with low byte `lo` and high byte `hi`.
#[verifier::opaque]
pub open spec fn word(lo: u8, hi: u8) -> u16 {
    (hi as int * 256 + lo as int) as u16
}

/// The high byte of `addr`: the number of its 256-byte page.
#[verifier::opaque]
pub open spec fn page_of(addr: u16) -> u8 {
    (addr / 256) as u8
}

/// The low byte of `addr`: its place within its page.
#[verifier::opaque]
pub open spec fn offset_of(addr: u16) -> u8 {
    (addr % 256) as u8
}

/// The address after `addr` in the page of `addr`: after the last address of
/// a page comes the first of the same page.
#[verifier::opaque]
pub open spec fn next_in_page(addr: u16) -> u16 {
    (page_of(addr) * 256 + (offset_of(addr) + 1) % 256) as u16
}

/// A byte-addressed device.
///
/// A device is a deterministic state machine: what a load returns and what
/// state a load or a store leaves behind are functions of the state before.
/// A load may change the state, as reading a hardware register can.
///
/// A verified implementation gives the four functions of the model and
/// proves that `ld8` and `store` follow them; [`crate::mmu::Ram`] and
/// [`crate::mmu::Mmu`] do. An implementation in unverified code gives `ld8`
/// and `store` alone. What is proved of a processor then holds of it as far
/// as the device is such a state machine.
pub trait Bus: Sized {
    /// The mathematical state of the device.
    type State;

    /// The state that this device is in.
    open spec fn state(&self) -> Self::State {
        arbitrary()
    }

    /// The byte that a load from `addr` returns in state `s`.
    open spec fn peek(s: Self::State, addr: u16) -> u8 {
        arbitrary()
    }

    /// The state after a load from `addr` in state `s`.
    open spec fn after_load(s: Self::State, addr: u16) -> Self::State {
        arbitrary()
    }

    /// The state after `val` is stored to `addr` in state `s`.
    open spec fn after_store(s: Self::State, addr: u16, val: u8) -> Self::State {
        arbitrary()
    }

    /// Loads the byte at `addr`.
    fn ld8(&mut self, addr: u16) -> (val: u8)
        ensures
            val == Self::peek(old(self).state(), addr),
            final(self).state() == Self::after_load(old(self).state(), addr),
    ;

    /// Stores `val` at `addr`.
    fn store(&mut self, addr: u16, val: u8)
        ensures
            final(self).state() == Self::after_store(old(self).state(), addr, val),
    ;

    /// Loads the little-endian word at `addr`: the low byte from `addr`, then
    /// the high byte from the address after it, which wraps past 0xFFFF.
    fn ld16(&mut self, addr: u16) -> (val: u16)
        ensures
            ({
                let s0 = old(self).state();
                let s1 = Self::after_load(s0, addr);
                let next = addr.wrapping_add(1);
                &&& val == word(Self::peek(s0, addr), Self::peek(s1, next))
                &&& final(self).state() == Self::after_load(s1, next)
            }),
    {
        let lo = self.ld8(addr);
        let hi = self.ld8(addr.wrapping_add(1));
        proof {
            lemma_word_bits(lo, hi);
        }
        (hi as u16) << 8 | (lo as u16)
    }
}

/// The word that two loads starting at `addr` return in state `s`, and the
/// state they leave.
pub open spec fn word_at<B: Bus>(s: B::State, addr: u16) -> (u16, B::State) {
    let lo = B::peek(s, addr);
    let s1 = B::after_load(s, addr);
    let next = addr.wrapping_add(1);
    (word(lo, B::peek(s1, next)), B::after_load(s1, next))
}

/// Assembling a word by shift and or, and taking it apart again.
pub proof fn lemma_word_bits(lo: u8, hi: u8)
    ensures
        (hi as u16) << 8 | (lo as u16) == word(lo, hi),
        (hi as u16) << 8 == word(0, hi),
        word(lo, hi) == hi * 256 + lo,
        page_of(word(lo, hi)) == hi,
        offset_of(word(lo, hi)) == lo,
{
    reveal(word);
    reveal(page_of);
    reveal(offset_of);
    assert((hi as u16) << 8 | (lo as u16) == hi * 256 + lo && (hi as u16) << 8 == hi * 256 + 0)
        by (bit_vector);
}

/// Splitting an address into its bytes by shift, mask and truncation.
pub proof fn lemma_addr_bytes(addr: u16)
    ensures
        (addr >> 8) as u8 == page_of(addr),
        addr as u8 == offset_of(addr),
        word(offset_of(addr), page_of(addr)) == addr,
        (addr & 0xFF00) == page_of(addr) * 256,
        (addr & 0xFF) == offset_of(addr),
        addr == page_of(addr) * 256 + offset_of(addr),
{
    reveal(word);
    reveal(page_of);
    reveal(offset_of);
    assert((addr >> 8) as u8 == addr / 256 && addr as u8 == addr % 256 && (addr & 0xFF00) == (addr
        / 256) * 256 && (addr & 0xFF) == addr % 256) by (bit_vector);
}

/// The next address in the page, by cases: it is the next address, but for
/// the last of a page, where it is the first of that page.
pub proof fn lemma_next_in_page(addr: u16)
    ensures
        offset_of(addr) == 0xFF ==> next_in_page(addr) == addr - 0xFF,
        offset_of(addr) != 0xFF ==> next_in_page(addr) == addr + 1,
        page_of(next_in_page(addr)) == page_of(addr),
        addr <= 0xFF ==> next_in_page(addr) == (addr as u8).wrapping_add(1),
{
    reveal(next_in_page);
    reveal(page_of);
    reveal(offset_of);
}

} // verus!
