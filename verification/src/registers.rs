//! The register file: accumulator, index registers, stack pointer, program
//! counter and status flags.

use vstd::prelude::*;
use crate::flags::Flags;
use crate::flags::law_byte_round_trip;

verus! {

/// The value of the stack pointer after power-up or reset.
pub const STACK_RESET: u8 = 0xFD;

/// The 16-bit instruction pointer. All its arithmetic is modulo 65536.
#[derive(Clone, Copy, Debug, PartialEq, Eq, Structural)]
pub struct ProgramCounter(pub u16);

/// The byte `operand` read as a two's-complement number.
pub open spec fn signed(operand: u8) -> int {
    if operand >= 128 {
        operand as int - 256
    } else {
        operand as int
    }
}

/// Reads a byte as a two's-complement number.
pub fn as_signed(operand: u8) -> (val: i8)
    ensures
        val == signed(operand),
{
    if operand < 128 {
        operand as i8
    } else {
        (operand as i16 - 256) as i8
    }
}

/// `addr` moved by `offset` places, modulo 65536.
#[verifier::opaque]
pub open spec fn offset_addr(addr: u16, offset: int) -> u16 {
    ((addr as int + offset) % 0x1_0000) as u16
}

/// Wrapping arithmetic on addresses is arithmetic modulo 65536.
pub proof fn lemma_wrapping_addr(addr: u16, offset: u16)
    ensures
        addr.wrapping_add(offset) == offset_addr(addr, offset as int),
        addr.wrapping_sub(offset) == offset_addr(addr, -(offset as int)),
        offset_addr(addr, 0) == addr,
{
    reveal(offset_addr);
}

impl ProgramCounter {
    pub fn new(val: u16) -> (pc: ProgramCounter)
        ensures
            pc.0 == val,
    {
        ProgramCounter(val)
    }

    /// Advances the counter by `offset`, wrapping past 0xFFFF.
    pub fn add_unsigned(&mut self, offset: u16)
        ensures
            final(self).0 == offset_addr(old(self).0, offset as int),
    {
        proof {
            lemma_wrapping_addr(self.0, offset);
        }
        self.0 = self.0.wrapping_add(offset);
    }

    /// Moves the counter by the signed displacement `offset`, wrapping in
    /// either direction.
    pub fn add_signed(&mut self, offset: i8)
        ensures
            final(self).0 == offset_addr(old(self).0, offset as int),
    {
        proof {
            reveal(offset_addr);
        }
        self.0 = self.0.wrapping_add_signed(offset as i16);
    }

    pub fn set_addr(&mut self, addr: u16)
        ensures
            final(self).0 == addr,
    {
        self.0 = addr;
    }

    pub fn get_addr(&self) -> (addr: u16)
        ensures
            addr == self.0,
    {
        self.0
    }
}

/// The processor's registers.
#[derive(Clone, Copy, Debug, PartialEq, Eq, Structural)]
pub struct Registers {
    pub acc: u8,
    pub x: u8,
    pub y: u8,
    pub pc: ProgramCounter,
    /// Offset into the stack page 0x0100..=0x01FF.
    pub sp: u8,
    pub flags: Flags,
}

/// The registers as a flat record, with the flags packed into one byte: the
/// form in which a register set is persisted.
#[derive(Clone, Copy, Debug, PartialEq, Eq, Structural)]
pub struct RegisterRecord {
    pub acc: u8,
    pub x: u8,
    pub y: u8,
    pub pc: u16,
    pub sp: u8,
    pub flags: u8,
}

impl Registers {
    /// The registers after power-up or reset, about to run the code at
    /// `address`.
    pub open spec fn power_up(address: u16) -> Registers {
        Registers {
            acc: 0,
            x: 0,
            y: 0,
            pc: ProgramCounter(address),
            sp: STACK_RESET,
            flags: Flags::power_up(),
        }
    }

    pub open spec fn spec_to_record(self) -> RegisterRecord {
        RegisterRecord {
            acc: self.acc,
            x: self.x,
            y: self.y,
            pc: self.pc.0,
            sp: self.sp,
            flags: self.flags.spec_as_byte(),
        }
    }

    pub open spec fn spec_from_record(record: RegisterRecord) -> Registers {
        Registers {
            acc: record.acc,
            x: record.x,
            y: record.y,
            pc: ProgramCounter(record.pc),
            sp: record.sp,
            flags: Flags::spec_from_byte(record.flags),
        }
    }

    /// A register set in its power-up state, with the program counter at
    /// `address`.
    pub fn new(address: u16) -> (regs: Registers)
        ensures
            regs == Registers::power_up(address),
    {
        Registers {
            acc: 0,
            x: 0,
            y: 0,
            pc: ProgramCounter::new(address),
            sp: STACK_RESET,
            flags: Flags::from_byte(0b0010_0100),
        }
    }

    /// Puts every register back to its power-up value and the program counter
    /// at `address`.
    pub fn reset(&mut self, address: u16)
        ensures
            *final(self) == Registers::power_up(address),
    {
        self.acc = 0;
        self.x = 0;
        self.y = 0;
        self.pc.set_addr(address);
        self.sp = STACK_RESET;
        self.flags = Flags::from_byte(0b0010_0100);
    }

    /// Flattens the registers for persisting.
    pub fn to_record(&self) -> (record: RegisterRecord)
        ensures
            record == self.spec_to_record(),
    {
        RegisterRecord {
            acc: self.acc,
            x: self.x,
            y: self.y,
            pc: self.pc.get_addr(),
            sp: self.sp,
            flags: self.flags.as_byte(),
        }
    }

    /// Rebuilds the registers from a persisted record.
    pub fn from_record(record: RegisterRecord) -> (regs: Registers)
        ensures
            regs == Registers::spec_from_record(record),
    {
        Registers {
            acc: record.acc,
            x: record.x,
            y: record.y,
            pc: ProgramCounter::new(record.pc),
            sp: record.sp,
            flags: Flags::from_byte(record.flags),
        }
    }
}

/// Persisting a register set and reading it back reproduces it exactly.
pub proof fn law_registers_round_trip(regs: Registers)
    ensures
        Registers::spec_from_record(regs.spec_to_record()) == regs,
{
}

/// Reading a record and persisting it again reproduces the record exactly.
pub proof fn law_record_round_trip(record: RegisterRecord)
    ensures
        Registers::spec_from_record(record).spec_to_record() == record,
{
    law_byte_round_trip(record.flags);
}

} // verus!
