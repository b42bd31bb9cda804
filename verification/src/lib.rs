//! A cycle- and bit-exact MOS 6502 core for an 8-bit game console, with the
//! memory map and the video memory that go with it.
//!
//! The processor ([`cpu::Cpu`]) drives anything that implements the
//! load-and-store contract [`bus::Bus`]. What it does is defined twice: as
//! mathematics in [`machine`], where [`machine::Machine`] is the state of the
//! processor and its bus and every instruction is a function on that state,
//! and as executable code in [`cpu`], whose every method is proved to compute
//! the function of the same name. [`laws`] holds what follows for every
//! machine: what crossing a page costs, where pointers wrap, what an
//! interrupt pushes.
//!
//! Many of the functions in [`machine`], [`alu`] and [`bus`] are marked
//! opaque. This changes nothing in what they mean. It keeps the proof of one
//! instruction from paying for the definitions of all the others; a proof
//! that needs a definition reveals it.

pub mod flags;
pub mod registers;
pub mod alu;
pub mod bus;
pub mod mmu;
pub mod vram;
pub mod opcode;
pub mod machine;
pub mod cpu;
pub mod laws;
