//! The processor status register.

use vstd::prelude::*;

verus! {

/// The eight status flags, one field per bit of the packed status byte.
///
/// `dec` is stored but never consulted by arithmetic: this processor variant
/// has no decimal mode.
#[derive(Clone, Copy, Debug, PartialEq, Eq, Structural)]
pub struct Flags {
    /// Bit 0.
    pub carry: bool,
    /// Bit 1.
    pub zero: bool,
    /// Bit 2: interrupt disable.
    pub itr: bool,
    /// Bit 3: decimal mode.
    pub dec: bool,
    /// Bit 4: break.
    pub brk: bool,
    /// Bit 5.
    pub unused: bool,
    /// Bit 6.
    pub overflow: bool,
    /// Bit 7: negative.
    pub neg: bool,
}

/// The weight that a flag contributes to the packed byte.
pub open spec fn bit_weight(set: bool, weight: int) -> int {
    if set {
        weight
    } else {
        0
    }
}

impl Flags {
    /// The packed status byte: each flag at its bit position.
    pub open spec fn spec_as_byte(&self) -> u8 {
        (bit_weight(self.carry, 1) + bit_weight(self.zero, 2) + bit_weight(self.itr, 4)
            + bit_weight(self.dec, 8) + bit_weight(self.brk, 16) + bit_weight(self.unused, 32)
            + bit_weight(self.overflow, 64) + bit_weight(self.neg, 128)) as u8
    }

    /// The flags whose packed byte is `byte`.
    pub open spec fn spec_from_byte(byte: u8) -> Flags {
        Flags {
            carry: byte % 2 == 1,
            zero: (byte / 2) % 2 == 1,
            itr: (byte / 4) % 2 == 1,
            dec: (byte / 8) % 2 == 1,
            brk: (byte / 16) % 2 == 1,
            unused: (byte / 32) % 2 == 1,
            overflow: (byte / 64) % 2 == 1,
            neg: (byte / 128) % 2 == 1,
        }
    }

    /// The flags as they stand after power-up or reset: interrupt disable and
    /// the unused bit set, all others clear.
    pub open spec fn power_up() -> Flags {
        Flags {
            carry: false,
            zero: false,
            itr: true,
            dec: false,
            brk: false,
            unused: true,
            overflow: false,
            neg: false,
        }
    }

    /// The flags that a pull from the stack installs for the popped `byte`:
    /// the unused bit is forced to 1 and the break bit to 0.
    pub open spec fn pulled(byte: u8) -> Flags {
        Flags { unused: true, brk: false, ..Flags::spec_from_byte(byte) }
    }

    /// The byte that an instruction pushes for these flags: the break bit is
    /// forced to 1.
    pub open spec fn pushed(self) -> u8 {
        (Flags { brk: true, ..self }).spec_as_byte()
    }

    /// Unpacks a status byte.
    pub fn from_byte(byte: u8) -> (flags: Flags)
        ensures
            flags == Flags::spec_from_byte(byte),
    {
        proof {
            lemma_bit_tests(byte);
        }
        Flags {
            carry: byte & 0x01 != 0,
            zero: byte & 0x02 != 0,
            itr: byte & 0x04 != 0,
            dec: byte & 0x08 != 0,
            brk: byte & 0x10 != 0,
            unused: byte & 0x20 != 0,
            overflow: byte & 0x40 != 0,
            neg: byte & 0x80 != 0,
        }
    }

    /// Packs the flags into the status byte.
    #[verifier::when_used_as_spec(spec_as_byte)]
    pub fn as_byte(&self) -> (byte: u8)
        ensures
            byte == self.spec_as_byte(),
    {
        let mut byte: u8 = 0;
        if self.carry {
            byte = byte + 0x01;
        }
        if self.zero {
            byte = byte + 0x02;
        }
        if self.itr {
            byte = byte + 0x04;
        }
        if self.dec {
            byte = byte + 0x08;
        }
        if self.brk {
            byte = byte + 0x10;
        }
        if self.unused {
            byte = byte + 0x20;
        }
        if self.overflow {
            byte = byte + 0x40;
        }
        if self.neg {
            byte = byte + 0x80;
        }
        byte
    }

    /// Replaces all eight flags by the bits of `byte`.
    pub fn set_byte(&mut self, byte: u8)
        ensures
            *final(self) == Flags::spec_from_byte(byte),
    {
        *self = Flags::from_byte(byte);
    }
}

/// A mask test of a single bit agrees with the bit's arithmetic definition.
pub proof fn lemma_bit_tests(byte: u8)
    ensures
        (byte & 0x01 != 0) == (byte % 2 == 1),
        (byte & 0x02 != 0) == ((byte / 2) % 2 == 1),
        (byte & 0x04 != 0) == ((byte / 4) % 2 == 1),
        (byte & 0x08 != 0) == ((byte / 8) % 2 == 1),
        (byte & 0x10 != 0) == ((byte / 16) % 2 == 1),
        (byte & 0x20 != 0) == ((byte / 32) % 2 == 1),
        (byte & 0x40 != 0) == ((byte / 64) % 2 == 1),
        (byte & 0x80 != 0) == ((byte / 128) % 2 == 1),
{
    assert((byte & 0x01 != 0) == (byte % 2 == 1) && (byte & 0x02 != 0) == ((byte / 2) % 2 == 1)
        && (byte & 0x04 != 0) == ((byte / 4) % 2 == 1) && (byte & 0x08 != 0) == ((byte / 8) % 2
        == 1) && (byte & 0x10 != 0) == ((byte / 16) % 2 == 1) && (byte & 0x20 != 0) == ((byte
        / 32) % 2 == 1) && (byte & 0x40 != 0) == ((byte / 64) % 2 == 1) && (byte & 0x80 != 0) == ((
    byte / 128) % 2 == 1)) by (bit_vector);
}

/// Packing then unpacking gives back the same flags.
pub proof fn law_flags_round_trip(flags: Flags)
    ensures
        Flags::spec_from_byte(flags.spec_as_byte()) == flags,
{
}

/// Unpacking then packing gives back the same byte: the packed form loses
/// nothing, so a pushed status byte is identical bit for bit.
pub proof fn law_byte_round_trip(byte: u8)
    ensures
        Flags::spec_from_byte(byte).spec_as_byte() == byte,
{
    lemma_bit_tests(byte);
    assert(byte == (if byte & 0x01 != 0 {
        0x01int
    } else {
        0
    }) + (if byte & 0x02 != 0 {
        0x02int
    } else {
        0
    }) + (if byte & 0x04 != 0 {
        0x04int
    } else {
        0
    }) + (if byte & 0x08 != 0 {
        0x08int
    } else {
        0
    }) + (if byte & 0x10 != 0 {
        0x10int
    } else {
        0
    }) + (if byte & 0x20 != 0 {
        0x20int
    } else {
        0
    }) + (if byte & 0x40 != 0 {
        0x40int
    } else {
        0
    }) + (if byte & 0x80 != 0 {
        0x80int
    } else {
        0
    })) by (bit_vector);
}

/// Whatever byte is pulled, the installed flags have the unused bit set and the
/// break bit clear, and agree with the byte on the other six bits.
pub proof fn law_pulled_flags(byte: u8)
    ensures
        Flags::pulled(byte).unused,
        !Flags::pulled(byte).brk,
        Flags::pulled(byte) == (Flags {
            unused: true,
            brk: false,
            ..Flags::spec_from_byte(byte)
        }),
        Flags::pulled(byte).spec_as_byte() == (byte | 0x20) & 0xEF,
{
    let forced = (byte | 0x20) & 0xEF;
    law_byte_round_trip(forced);
    lemma_bit_tests(byte);
    lemma_bit_tests(forced);
    assert(forced & 0x20 != 0 && forced & 0x10 == 0 && forced & 0xCF == byte & 0xCF)
        by (bit_vector)
        requires
            forced == (byte | 0x20) & 0xEF,
    ;
    assert((forced & 0x01 != 0) == (byte & 0x01 != 0) && (forced & 0x02 != 0) == (byte & 0x02
        != 0) && (forced & 0x04 != 0) == (byte & 0x04 != 0) && (forced & 0x08 != 0) == (byte
        & 0x08 != 0) && (forced & 0x40 != 0) == (byte & 0x40 != 0) && (forced & 0x80 != 0) == (
    byte & 0x80 != 0)) by (bit_vector)
        requires
            forced == (byte | 0x20) & 0xEF,
    ;
    assert(Flags::spec_from_byte(forced) == Flags::pulled(byte));
}

/// Forcing the break bit by mask gives the pushed form of the flags.
pub proof fn lemma_force_break(flags: Flags)
    ensures
        flags.spec_as_byte() | 0x10 == flags.pushed(),
{
    let byte = flags.spec_as_byte();
    assert(byte | 0x10 == if (byte / 16) % 2 == 1 {
        byte as int
    } else {
        byte + 16
    }) by (bit_vector);
}

/// A pushed status byte has its break bit set and agrees with the live flags on
/// the other seven bits.
pub proof fn law_pushed_flags(flags: Flags)
    ensures
        Flags::spec_from_byte(flags.pushed()) == (Flags { brk: true, ..flags }),
{
}

} // verus!
