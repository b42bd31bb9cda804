//! The instruction set: addressing modes, the operations, the opcode that
//! selects each of them and what each costs.

use vstd::prelude::*;

verus! {

/// Where the processor finds the address of the code to run after reset.
pub const RESET_VEC: u16 = 0xFFFC;

/// Where it finds the handler of the non-maskable interrupt.
pub const NMI_VEC: u16 = 0xFFFA;

/// Where it finds the handler of interrupt requests and of BRK.
pub const IRQ_VEC: u16 = 0xFFFE;

/// The sprite memory data port, the destination of a sprite DMA.
pub const OAM_DATA: u16 = 0x2004;

/// The port that starts a sprite DMA when written.
pub const DMA_ADDR: u16 = 0x4014;

/// How an instruction finds its operand.
///
/// The three modes whose name begins with `NoPB` resolve the address as
/// their namesakes do and never charge for crossing a page: they serve the
/// instructions that write.
#[derive(Clone, Copy, Debug, PartialEq, Eq, Structural)]
pub enum Mode {
    /// The operand is the byte after the opcode.
    Imm,
    /// A one-byte address in page zero.
    ZP,
    /// Page zero, indexed by X within the page.
    ZPX,
    /// Page zero, indexed by Y within the page.
    ZPY,
    /// A two-byte address.
    Abs,
    /// A two-byte address plus X.
    AbsX,
    NoPBAbsX,
    /// A two-byte address plus Y.
    AbsY,
    NoPBAbsY,
    /// The target of a jump, read through a two-byte pointer.
    JmpIndir,
    /// The address held in page zero at the operand plus X.
    IndX,
    /// The address held in page zero at the operand, plus Y.
    IndY,
    NoPBIndY,
}

/// The number of operand bytes that follow the opcode in `mode`.
pub open spec fn operand_bytes(mode: Mode) -> int {
    match mode {
        Mode::Abs | Mode::AbsX | Mode::NoPBAbsX | Mode::AbsY | Mode::NoPBAbsY | Mode::JmpIndir
            => 2,
        _ => 1,
    }
}

/// What an opcode asks for.
#[derive(Clone, Copy, Debug, PartialEq, Eq, Structural)]
pub enum Instr {
    Lda(Mode),
    Ldx(Mode),
    Ldy(Mode),
    Sta(Mode),
    Stx(Mode),
    Sty(Mode),
    Adc(Mode),
    Sbc(Mode),
    And(Mode),
    Ora(Mode),
    Eor(Mode),
    Bit(Mode),
    Cmp(Mode),
    Cpx(Mode),
    Cpy(Mode),
    Inc(Mode),
    Dec(Mode),
    Asl(Mode),
    Lsr(Mode),
    Rol(Mode),
    Ror(Mode),
    AslAcc,
    LsrAcc,
    RolAcc,
    RorAcc,
    Jmp(Mode),
    Jsr,
    Rts,
    Rti,
    Brk,
    Bvs,
    Bvc,
    Bmi,
    Bpl,
    Bne,
    Beq,
    Bcs,
    Bcc,
    Sed,
    Cld,
    Sec,
    Clc,
    Sei,
    Cli,
    Clv,
    Tax,
    Txa,
    Tay,
    Tya,
    Tsx,
    Txs,
    Dex,
    Inx,
    Dey,
    Iny,
    Pha,
    Pla,
    Php,
    Plp,
    /// No operation, one byte.
    Nop,
    /// No operation that skips one operand byte; the mode only sets its cost.
    Dop(Mode),
    /// No operation that skips two operand bytes.
    Top,
    /// No operation that resolves an absolute address indexed by X.
    TopX,
    /// AND, then carry copied from the sign.
    Aac(Mode),
    /// Store of accumulator AND X.
    Aax(Mode),
    /// AND, then rotate right.
    Arr(Mode),
    /// AND, then shift right.
    Alr(Mode),
    /// Load of accumulator and X.
    Atx,
    /// X becomes accumulator AND X, minus the operand.
    Axs,
    /// Load of accumulator and X.
    Lax(Mode),
    /// Decrement, then compare.
    Dcp(Mode),
    /// Increment, then subtract.
    Isc(Mode),
    /// Shift left, then OR.
    Slo(Mode),
    /// Rotate left, then AND.
    Rla(Mode),
    /// Shift right, then exclusive OR.
    Sre(Mode),
    /// Rotate right, then add.
    Rra(Mode),
    /// Store of Y AND the high byte of the address plus one.
    Sya(Mode),
    /// Store of X AND the high byte of the address plus one.
    Sxa(Mode),
}

/// The two low bits of an opcode: which of the four blocks of the opcode map
/// it lies in.
pub open spec fn block_of(op: u8) -> int {
    op as int % 4
}

/// The three high bits of an opcode: its row within its block. Across a row
/// lies one operation in its modes.
pub open spec fn row_of(op: u8) -> int {
    op as int / 32
}

/// The three middle bits of an opcode: its column within its block. Down a
/// column lies one mode.
pub open spec fn column_of(op: u8) -> int {
    (op as int / 4) % 8
}

/// The mode of a column in the blocks that are regular.
pub open spec fn column_mode(column: int) -> Mode {
    if column == 0 {
        Mode::IndX
    } else if column == 1 {
        Mode::ZP
    } else if column == 2 {
        Mode::Imm
    } else if column == 3 {
        Mode::Abs
    } else if column == 4 {
        Mode::IndY
    } else if column == 5 {
        Mode::ZPX
    } else if column == 6 {
        Mode::AbsY
    } else {
        Mode::AbsX
    }
}

/// The mode that an instruction uses where it writes: indexing as in `mode`,
/// without the charge for crossing a page.
pub open spec fn writing(mode: Mode) -> Mode {
    match mode {
        Mode::AbsX => Mode::NoPBAbsX,
        Mode::AbsY => Mode::NoPBAbsY,
        Mode::IndY => Mode::NoPBIndY,
        _ => mode,
    }
}

/// The mode that an instruction on the X register uses in place of `mode`:
/// it indexes by Y where others index by X.
pub open spec fn indexed_by_y(mode: Mode) -> Mode {
    match mode {
        Mode::ZPX => Mode::ZPY,
        Mode::AbsX => Mode::AbsY,
        _ => mode,
    }
}

/// The second block: the operations on the accumulator. Each row is one
/// operation in the eight modes; the store has no immediate form, and its
/// place is taken by a no-operation.
pub open spec fn accumulator_block(row: int, column: int) -> Option<Instr> {
    let mode = column_mode(column);
    Some(
        if row == 0 {
            Instr::Ora(mode)
        } else if row == 1 {
            Instr::And(mode)
        } else if row == 2 {
            Instr::Eor(mode)
        } else if row == 3 {
            Instr::Adc(mode)
        } else if row == 4 {
            if mode == Mode::Imm {
                Instr::Dop(Mode::Imm)
            } else {
                Instr::Sta(writing(mode))
            }
        } else if row == 5 {
            Instr::Lda(mode)
        } else if row == 6 {
            Instr::Cmp(mode)
        } else {
            Instr::Sbc(mode)
        },
    )
}

/// The third block: shifts and rotates, the loads and stores of X,
/// decrement and increment. The even columns hold what takes no operand from
/// memory. Of the forms indexed by X, the shift right, the decrement and the
/// increment charge for crossing a page, and the others do not.
pub open spec fn shift_block(row: int, column: int) -> Option<Instr> {
    if column == 0 {
        if row == 5 {
            Some(Instr::Ldx(Mode::Imm))
        } else if row == 4 || row == 6 || row == 7 {
            Some(Instr::Dop(Mode::Imm))
        } else {
            None
        }
    } else if column == 2 {
        Some(
            if row == 0 {
                Instr::AslAcc
            } else if row == 1 {
                Instr::RolAcc
            } else if row == 2 {
                Instr::LsrAcc
            } else if row == 3 {
                Instr::RorAcc
            } else if row == 4 {
                Instr::Txa
            } else if row == 5 {
                Instr::Tax
            } else if row == 6 {
                Instr::Dex
            } else {
                Instr::Nop
            },
        )
    } else if column == 4 {
        None
    } else if column == 6 {
        Some(
            if row == 4 {
                Instr::Txs
            } else if row == 5 {
                Instr::Tsx
            } else {
                Instr::Nop
            },
        )
    } else {
        let mode = if column == 1 {
            Mode::ZP
        } else if column == 3 {
            Mode::Abs
        } else if column == 5 {
            Mode::ZPX
        } else {
            Mode::AbsX
        };
        Some(
            if row == 0 {
                Instr::Asl(writing(mode))
            } else if row == 1 {
                Instr::Rol(writing(mode))
            } else if row == 2 {
                Instr::Lsr(mode)
            } else if row == 3 {
                Instr::Ror(writing(mode))
            } else if row == 4 {
                if column == 7 {
                    Instr::Sxa(Mode::NoPBAbsY)
                } else {
                    Instr::Stx(indexed_by_y(mode))
                }
            } else if row == 5 {
                Instr::Ldx(indexed_by_y(mode))
            } else if row == 6 {
                Instr::Dec(mode)
            } else {
                Instr::Inc(mode)
            },
        )
    }
}

/// The fourth block: the undocumented combinations, each row combining the
/// operations of the same row in the two blocks before. The combinations
/// that write back never charge for crossing a page. The immediate column
/// holds operations of its own.
pub open spec fn combined_block(row: int, column: int) -> Option<Instr> {
    let mode = column_mode(column);
    if mode == Mode::Imm {
        if row == 0 || row == 1 {
            Some(Instr::Aac(Mode::Imm))
        } else if row == 2 {
            Some(Instr::Alr(Mode::Imm))
        } else if row == 3 {
            Some(Instr::Arr(Mode::Imm))
        } else if row == 4 {
            None
        } else if row == 5 {
            Some(Instr::Atx)
        } else if row == 6 {
            Some(Instr::Axs)
        } else {
            Some(Instr::Sbc(Mode::Imm))
        }
    } else if row == 4 {
        if mode == Mode::IndX || mode == Mode::ZP || mode == Mode::Abs || mode == Mode::ZPX {
            Some(Instr::Aax(indexed_by_y(mode)))
        } else {
            None
        }
    } else if row == 5 {
        if mode == Mode::AbsY {
            None
        } else {
            Some(Instr::Lax(indexed_by_y(mode)))
        }
    } else {
        Some(
            if row == 0 {
                Instr::Slo(writing(mode))
            } else if row == 1 {
                Instr::Rla(writing(mode))
            } else if row == 2 {
                Instr::Sre(writing(mode))
            } else if row == 3 {
                Instr::Rra(writing(mode))
            } else if row == 6 {
                Instr::Dcp(writing(mode))
            } else {
                Instr::Isc(writing(mode))
            },
        )
    }
}

/// The first block: flow of control, the stack, the flags, and the
/// operations on Y. It is the least regular; it is given column by column.
pub open spec fn control_block(row: int, column: int) -> Option<Instr> {
    Some(
        if column == 0 {
            if row == 0 {
                Instr::Brk
            } else if row == 1 {
                Instr::Jsr
            } else if row == 2 {
                Instr::Rti
            } else if row == 3 {
                Instr::Rts
            } else if row == 4 {
                Instr::Dop(Mode::Imm)
            } else if row == 5 {
                Instr::Ldy(Mode::Imm)
            } else if row == 6 {
                Instr::Cpy(Mode::Imm)
            } else {
                Instr::Cpx(Mode::Imm)
            }
        } else if column == 1 {
            if row == 1 {
                Instr::Bit(Mode::ZP)
            } else if row == 4 {
                Instr::Sty(Mode::ZP)
            } else if row == 5 {
                Instr::Ldy(Mode::ZP)
            } else if row == 6 {
                Instr::Cpy(Mode::ZP)
            } else if row == 7 {
                Instr::Cpx(Mode::ZP)
            } else {
                Instr::Dop(Mode::ZP)
            }
        } else if column == 2 {
            if row == 0 {
                Instr::Php
            } else if row == 1 {
                Instr::Plp
            } else if row == 2 {
                Instr::Pha
            } else if row == 3 {
                Instr::Pla
            } else if row == 4 {
                Instr::Dey
            } else if row == 5 {
                Instr::Tay
            } else if row == 6 {
                Instr::Iny
            } else {
                Instr::Inx
            }
        } else if column == 3 {
            if row == 0 {
                Instr::Top
            } else if row == 1 {
                Instr::Bit(Mode::Abs)
            } else if row == 2 {
                Instr::Jmp(Mode::Abs)
            } else if row == 3 {
                Instr::Jmp(Mode::JmpIndir)
            } else if row == 4 {
                Instr::Sty(Mode::Abs)
            } else if row == 5 {
                Instr::Ldy(Mode::Abs)
            } else if row == 6 {
                Instr::Cpy(Mode::Abs)
            } else {
                Instr::Cpx(Mode::Abs)
            }
        } else if column == 4 {
            if row == 0 {
                Instr::Bpl
            } else if row == 1 {
                Instr::Bmi
            } else if row == 2 {
                Instr::Bvc
            } else if row == 3 {
                Instr::Bvs
            } else if row == 4 {
                Instr::Bcc
            } else if row == 5 {
                Instr::Bcs
            } else if row == 6 {
                Instr::Bne
            } else {
                Instr::Beq
            }
        } else if column == 5 {
            if row == 4 {
                Instr::Sty(Mode::ZPX)
            } else if row == 5 {
                Instr::Ldy(Mode::ZPX)
            } else {
                Instr::Dop(Mode::ZPX)
            }
        } else if column == 6 {
            if row == 0 {
                Instr::Clc
            } else if row == 1 {
                Instr::Sec
            } else if row == 2 {
                Instr::Cli
            } else if row == 3 {
                Instr::Sei
            } else if row == 4 {
                Instr::Tya
            } else if row == 5 {
                Instr::Clv
            } else if row == 6 {
                Instr::Cld
            } else {
                Instr::Sed
            }
        } else {
            if row == 4 {
                Instr::Sya(Mode::NoPBAbsX)
            } else if row == 5 {
                Instr::Ldy(Mode::AbsX)
            } else {
                Instr::TopX
            }
        },
    )
}

/// The instruction that opcode `op` selects, or `None` for a byte that is no
/// instruction of this processor.
///
/// The opcode map has four blocks of eight rows and eight columns, and the
/// instruction follows from the block, the row and the column.
#[verifier::opaque]
pub open spec fn decode(op: u8) -> Option<Instr> {
    let row = row_of(op);
    let column = column_of(op);
    if block_of(op) == 0 {
        control_block(row, column)
    } else if block_of(op) == 1 {
        accumulator_block(row, column)
    } else if block_of(op) == 2 {
        shift_block(row, column)
    } else {
        combined_block(row, column)
    }
}

/// Looks up the instruction that opcode `op` selects, in the opcode map
/// written out entry by entry.
pub fn decode_op(op: u8) -> (instr: Option<Instr>)
    ensures
        instr == decode(op),
{
    reveal(decode);
    match op {
        0x00 => Some(Instr::Brk),
        0x01 => Some(Instr::Ora(Mode::IndX)),
        0x03 => Some(Instr::Slo(Mode::IndX)),
        0x04 => Some(Instr::Dop(Mode::ZP)),
        0x05 => Some(Instr::Ora(Mode::ZP)),
        0x06 => Some(Instr::Asl(Mode::ZP)),
        0x07 => Some(Instr::Slo(Mode::ZP)),
        0x08 => Some(Instr::Php),
        0x09 => Some(Instr::Ora(Mode::Imm)),
        0x0A => Some(Instr::AslAcc),
        0x0B => Some(Instr::Aac(Mode::Imm)),
        0x0C => Some(Instr::Top),
        0x0D => Some(Instr::Ora(Mode::Abs)),
        0x0E => Some(Instr::Asl(Mode::Abs)),
        0x0F => Some(Instr::Slo(Mode::Abs)),
        0x10 => Some(Instr::Bpl),
        0x11 => Some(Instr::Ora(Mode::IndY)),
        0x13 => Some(Instr::Slo(Mode::NoPBIndY)),
        0x14 => Some(Instr::Dop(Mode::ZPX)),
        0x15 => Some(Instr::Ora(Mode::ZPX)),
        0x16 => Some(Instr::Asl(Mode::ZPX)),
        0x17 => Some(Instr::Slo(Mode::ZPX)),
        0x18 => Some(Instr::Clc),
        0x19 => Some(Instr::Ora(Mode::AbsY)),
        0x1A => Some(Instr::Nop),
        0x1B => Some(Instr::Slo(Mode::NoPBAbsY)),
        0x1C => Some(Instr::TopX),
        0x1D => Some(Instr::Ora(Mode::AbsX)),
        0x1E => Some(Instr::Asl(Mode::NoPBAbsX)),
        0x1F => Some(Instr::Slo(Mode::NoPBAbsX)),
        0x20 => Some(Instr::Jsr),
        0x21 => Some(Instr::And(Mode::IndX)),
        0x23 => Some(Instr::Rla(Mode::IndX)),
        0x24 => Some(Instr::Bit(Mode::ZP)),
        0x25 => Some(Instr::And(Mode::ZP)),
        0x26 => Some(Instr::Rol(Mode::ZP)),
        0x27 => Some(Instr::Rla(Mode::ZP)),
        0x28 => Some(Instr::Plp),
        0x29 => Some(Instr::And(Mode::Imm)),
        0x2A => Some(Instr::RolAcc),
        0x2B => Some(Instr::Aac(Mode::Imm)),
        0x2C => Some(Instr::Bit(Mode::Abs)),
        0x2D => Some(Instr::And(Mode::Abs)),
        0x2E => Some(Instr::Rol(Mode::Abs)),
        0x2F => Some(Instr::Rla(Mode::Abs)),
        0x30 => Some(Instr::Bmi),
        0x31 => Some(Instr::And(Mode::IndY)),
        0x33 => Some(Instr::Rla(Mode::NoPBIndY)),
        0x34 => Some(Instr::Dop(Mode::ZPX)),
        0x35 => Some(Instr::And(Mode::ZPX)),
        0x36 => Some(Instr::Rol(Mode::ZPX)),
        0x37 => Some(Instr::Rla(Mode::ZPX)),
        0x38 => Some(Instr::Sec),
        0x39 => Some(Instr::And(Mode::AbsY)),
        0x3A => Some(Instr::Nop),
        0x3B => Some(Instr::Rla(Mode::NoPBAbsY)),
        0x3C => Some(Instr::TopX),
        0x3D => Some(Instr::And(Mode::AbsX)),
        0x3E => Some(Instr::Rol(Mode::NoPBAbsX)),
        0x3F => Some(Instr::Rla(Mode::NoPBAbsX)),
        0x40 => Some(Instr::Rti),
        0x41 => Some(Instr::Eor(Mode::IndX)),
        0x43 => Some(Instr::Sre(Mode::IndX)),
        0x44 => Some(Instr::Dop(Mode::ZP)),
        0x45 => Some(Instr::Eor(Mode::ZP)),
        0x46 => Some(Instr::Lsr(Mode::ZP)),
        0x47 => Some(Instr::Sre(Mode::ZP)),
        0x48 => Some(Instr::Pha),
        0x49 => Some(Instr::Eor(Mode::Imm)),
        0x4A => Some(Instr::LsrAcc),
        0x4B => Some(Instr::Alr(Mode::Imm)),
        0x4C => Some(Instr::Jmp(Mode::Abs)),
        0x4D => Some(Instr::Eor(Mode::Abs)),
        0x4E => Some(Instr::Lsr(Mode::Abs)),
        0x4F => Some(Instr::Sre(Mode::Abs)),
        0x50 => Some(Instr::Bvc),
        0x51 => Some(Instr::Eor(Mode::IndY)),
        0x53 => Some(Instr::Sre(Mode::NoPBIndY)),
        0x54 => Some(Instr::Dop(Mode::ZPX)),
        0x55 => Some(Instr::Eor(Mode::ZPX)),
        0x56 => Some(Instr::Lsr(Mode::ZPX)),
        0x57 => Some(Instr::Sre(Mode::ZPX)),
        0x58 => Some(Instr::Cli),
        0x59 => Some(Instr::Eor(Mode::AbsY)),
        0x5A => Some(Instr::Nop),
        0x5B => Some(Instr::Sre(Mode::NoPBAbsY)),
        0x5C => Some(Instr::TopX),
        0x5D => Some(Instr::Eor(Mode::AbsX)),
        0x5E => Some(Instr::Lsr(Mode::AbsX)),
        0x5F => Some(Instr::Sre(Mode::NoPBAbsX)),
        0x60 => Some(Instr::Rts),
        0x61 => Some(Instr::Adc(Mode::IndX)),
        0x63 => Some(Instr::Rra(Mode::IndX)),
        0x64 => Some(Instr::Dop(Mode::ZP)),
        0x65 => Some(Instr::Adc(Mode::ZP)),
        0x66 => Some(Instr::Ror(Mode::ZP)),
        0x67 => Some(Instr::Rra(Mode::ZP)),
        0x68 => Some(Instr::Pla),
        0x69 => Some(Instr::Adc(Mode::Imm)),
        0x6A => Some(Instr::RorAcc),
        0x6B => Some(Instr::Arr(Mode::Imm)),
        0x6C => Some(Instr::Jmp(Mode::JmpIndir)),
        0x6D => Some(Instr::Adc(Mode::Abs)),
        0x6E => Some(Instr::Ror(Mode::Abs)),
        0x6F => Some(Instr::Rra(Mode::Abs)),
        0x70 => Some(Instr::Bvs),
        0x71 => Some(Instr::Adc(Mode::IndY)),
        0x73 => Some(Instr::Rra(Mode::NoPBIndY)),
        0x74 => Some(Instr::Dop(Mode::ZPX)),
        0x75 => Some(Instr::Adc(Mode::ZPX)),
        0x76 => Some(Instr::Ror(Mode::ZPX)),
        0x77 => Some(Instr::Rra(Mode::ZPX)),
        0x78 => Some(Instr::Sei),
        0x79 => Some(Instr::Adc(Mode::AbsY)),
        0x7A => Some(Instr::Nop),
        0x7B => Some(Instr::Rra(Mode::NoPBAbsY)),
        0x7C => Some(Instr::TopX),
        0x7D => Some(Instr::Adc(Mode::AbsX)),
        0x7E => Some(Instr::Ror(Mode::NoPBAbsX)),
        0x7F => Some(Instr::Rra(Mode::NoPBAbsX)),
        0x80 => Some(Instr::Dop(Mode::Imm)),
        0x81 => Some(Instr::Sta(Mode::IndX)),
        0x82 => Some(Instr::Dop(Mode::Imm)),
        0x83 => Some(Instr::Aax(Mode::IndX)),
        0x84 => Some(Instr::Sty(Mode::ZP)),
        0x85 => Some(Instr::Sta(Mode::ZP)),
        0x86 => Some(Instr::Stx(Mode::ZP)),
        0x87 => Some(Instr::Aax(Mode::ZP)),
        0x88 => Some(Instr::Dey),
        0x89 => Some(Instr::Dop(Mode::Imm)),
        0x8A => Some(Instr::Txa),
        0x8C => Some(Instr::Sty(Mode::Abs)),
        0x8D => Some(Instr::Sta(Mode::Abs)),
        0x8E => Some(Instr::Stx(Mode::Abs)),
        0x8F => Some(Instr::Aax(Mode::Abs)),
        0x90 => Some(Instr::Bcc),
        0x91 => Some(Instr::Sta(Mode::NoPBIndY)),
        0x94 => Some(Instr::Sty(Mode::ZPX)),
        0x95 => Some(Instr::Sta(Mode::ZPX)),
        0x96 => Some(Instr::Stx(Mode::ZPY)),
        0x97 => Some(Instr::Aax(Mode::ZPY)),
        0x98 => Some(Instr::Tya),
        0x99 => Some(Instr::Sta(Mode::NoPBAbsY)),
        0x9A => Some(Instr::Txs),
        0x9C => Some(Instr::Sya(Mode::NoPBAbsX)),
        0x9D => Some(Instr::Sta(Mode::NoPBAbsX)),
        0x9E => Some(Instr::Sxa(Mode::NoPBAbsY)),
        0xA0 => Some(Instr::Ldy(Mode::Imm)),
        0xA1 => Some(Instr::Lda(Mode::IndX)),
        0xA2 => Some(Instr::Ldx(Mode::Imm)),
        0xA3 => Some(Instr::Lax(Mode::IndX)),
        0xA4 => Some(Instr::Ldy(Mode::ZP)),
        0xA5 => Some(Instr::Lda(Mode::ZP)),
        0xA6 => Some(Instr::Ldx(Mode::ZP)),
        0xA7 => Some(Instr::Lax(Mode::ZP)),
        0xA8 => Some(Instr::Tay),
        0xA9 => Some(Instr::Lda(Mode::Imm)),
        0xAA => Some(Instr::Tax),
        0xAB => Some(Instr::Atx),
        0xAC => Some(Instr::Ldy(Mode::Abs)),
        0xAD => Some(Instr::Lda(Mode::Abs)),
        0xAE => Some(Instr::Ldx(Mode::Abs)),
        0xAF => Some(Instr::Lax(Mode::Abs)),
        0xB0 => Some(Instr::Bcs),
        0xB1 => Some(Instr::Lda(Mode::IndY)),
        0xB3 => Some(Instr::Lax(Mode::IndY)),
        0xB4 => Some(Instr::Ldy(Mode::ZPX)),
        0xB5 => Some(Instr::Lda(Mode::ZPX)),
        0xB6 => Some(Instr::Ldx(Mode::ZPY)),
        0xB7 => Some(Instr::Lax(Mode::ZPY)),
        0xB8 => Some(Instr::Clv),
        0xB9 => Some(Instr::Lda(Mode::AbsY)),
        0xBA => Some(Instr::Tsx),
        0xBC => Some(Instr::Ldy(Mode::AbsX)),
        0xBD => Some(Instr::Lda(Mode::AbsX)),
        0xBE => Some(Instr::Ldx(Mode::AbsY)),
        0xBF => Some(Instr::Lax(Mode::AbsY)),
        0xC0 => Some(Instr::Cpy(Mode::Imm)),
        0xC1 => Some(Instr::Cmp(Mode::IndX)),
        0xC2 => Some(Instr::Dop(Mode::Imm)),
        0xC3 => Some(Instr::Dcp(Mode::IndX)),
        0xC4 => Some(Instr::Cpy(Mode::ZP)),
        0xC5 => Some(Instr::Cmp(Mode::ZP)),
        0xC6 => Some(Instr::Dec(Mode::ZP)),
        0xC7 => Some(Instr::Dcp(Mode::ZP)),
        0xC8 => Some(Instr::Iny),
        0xC9 => Some(Instr::Cmp(Mode::Imm)),
        0xCA => Some(Instr::Dex),
        0xCB => Some(Instr::Axs),
        0xCC => Some(Instr::Cpy(Mode::Abs)),
        0xCD => Some(Instr::Cmp(Mode::Abs)),
        0xCE => Some(Instr::Dec(Mode::Abs)),
        0xCF => Some(Instr::Dcp(Mode::Abs)),
        0xD0 => Some(Instr::Bne),
        0xD1 => Some(Instr::Cmp(Mode::IndY)),
        0xD3 => Some(Instr::Dcp(Mode::NoPBIndY)),
        0xD4 => Some(Instr::Dop(Mode::ZPX)),
        0xD5 => Some(Instr::Cmp(Mode::ZPX)),
        0xD6 => Some(Instr::Dec(Mode::ZPX)),
        0xD7 => Some(Instr::Dcp(Mode::ZPX)),
        0xD8 => Some(Instr::Cld),
        0xD9 => Some(Instr::Cmp(Mode::AbsY)),
        0xDA => Some(Instr::Nop),
        0xDB => Some(Instr::Dcp(Mode::NoPBAbsY)),
        0xDC => Some(Instr::TopX),
        0xDD => Some(Instr::Cmp(Mode::AbsX)),
        0xDE => Some(Instr::Dec(Mode::AbsX)),
        0xDF => Some(Instr::Dcp(Mode::NoPBAbsX)),
        0xE0 => Some(Instr::Cpx(Mode::Imm)),
        0xE1 => Some(Instr::Sbc(Mode::IndX)),
        0xE2 => Some(Instr::Dop(Mode::Imm)),
        0xE3 => Some(Instr::Isc(Mode::IndX)),
        0xE4 => Some(Instr::Cpx(Mode::ZP)),
        0xE5 => Some(Instr::Sbc(Mode::ZP)),
        0xE6 => Some(Instr::Inc(Mode::ZP)),
        0xE7 => Some(Instr::Isc(Mode::ZP)),
        0xE8 => Some(Instr::Inx),
        0xE9 => Some(Instr::Sbc(Mode::Imm)),
        0xEA => Some(Instr::Nop),
        0xEB => Some(Instr::Sbc(Mode::Imm)),
        0xEC => Some(Instr::Cpx(Mode::Abs)),
        0xED => Some(Instr::Sbc(Mode::Abs)),
        0xEE => Some(Instr::Inc(Mode::Abs)),
        0xEF => Some(Instr::Isc(Mode::Abs)),
        0xF0 => Some(Instr::Beq),
        0xF1 => Some(Instr::Sbc(Mode::IndY)),
        0xF3 => Some(Instr::Isc(Mode::NoPBIndY)),
        0xF4 => Some(Instr::Dop(Mode::ZPX)),
        0xF5 => Some(Instr::Sbc(Mode::ZPX)),
        0xF6 => Some(Instr::Inc(Mode::ZPX)),
        0xF7 => Some(Instr::Isc(Mode::ZPX)),
        0xF8 => Some(Instr::Sed),
        0xF9 => Some(Instr::Sbc(Mode::AbsY)),
        0xFA => Some(Instr::Nop),
        0xFB => Some(Instr::Isc(Mode::NoPBAbsY)),
        0xFC => Some(Instr::TopX),
        0xFD => Some(Instr::Sbc(Mode::AbsX)),
        0xFE => Some(Instr::Inc(Mode::AbsX)),
        0xFF => Some(Instr::Isc(Mode::NoPBAbsX)),
        _ => None,
    }
}

/// Base cost in cycles of reading an operand in `mode`.
pub open spec fn read_cycles(mode: Mode) -> int {
    match mode {
        Mode::Imm => 2,
        Mode::ZP => 3,
        Mode::ZPX | Mode::ZPY => 4,
        Mode::Abs | Mode::AbsX | Mode::NoPBAbsX | Mode::AbsY | Mode::NoPBAbsY => 4,
        Mode::IndY | Mode::NoPBIndY | Mode::JmpIndir => 5,
        Mode::IndX => 6,
    }
}

/// Cost in cycles of writing an operand in `mode`. A write through an
/// indexed address always pays for the index.
pub open spec fn write_cycles(mode: Mode) -> int {
    match mode {
        Mode::AbsX | Mode::NoPBAbsX | Mode::AbsY | Mode::NoPBAbsY | Mode::IndY | Mode::NoPBIndY
            => read_cycles(mode) + 1,
        _ => read_cycles(mode),
    }
}

/// Base cost in cycles of reading, changing and writing back an operand in
/// `mode`.
pub open spec fn modify_cycles(mode: Mode) -> int {
    write_cycles(mode) + 2
}

impl Instr {
    /// The fixed part of what the instruction costs, in cycles. Crossing a
    /// page, taking a branch and starting a sprite DMA cost extra.
    pub open spec fn base_cycles(self) -> int {
        match self {
            Instr::Lda(m) | Instr::Ldx(m) | Instr::Ldy(m) | Instr::Lax(m) | Instr::Adc(m)
            | Instr::Sbc(m) | Instr::And(m) | Instr::Ora(m) | Instr::Eor(m) | Instr::Bit(m)
            | Instr::Cmp(m) | Instr::Cpx(m) | Instr::Cpy(m) | Instr::Aac(m) | Instr::Arr(m)
            | Instr::Alr(m) | Instr::Dop(m) => read_cycles(m),
            Instr::Atx | Instr::Axs => read_cycles(Mode::Imm),
            Instr::Top | Instr::TopX => read_cycles(Mode::Abs),
            Instr::Sta(m) | Instr::Stx(m) | Instr::Sty(m) | Instr::Aax(m) | Instr::Sya(m)
            | Instr::Sxa(m) => write_cycles(m),
            Instr::Inc(m) | Instr::Dec(m) | Instr::Asl(m) | Instr::Lsr(m) | Instr::Rol(m)
            | Instr::Ror(m) | Instr::Dcp(m) | Instr::Isc(m) | Instr::Slo(m) | Instr::Rla(m)
            | Instr::Sre(m) | Instr::Rra(m) => modify_cycles(m),
            Instr::Jmp(m) => read_cycles(m) - 1 + if m == Mode::JmpIndir {
                1int
            } else {
                0int
            },
            Instr::Pha | Instr::Php => 3,
            Instr::Pla | Instr::Plp => 4,
            Instr::Jsr | Instr::Rts | Instr::Rti => 6,
            Instr::Brk => 7,
            _ => 2,
        }
    }
}

/// What each opcode costs before extras, in cycles, by opcode.
pub const CYCLES: [u8; 256] = [
    7, 6, 2, 8, 3, 3, 5, 5, 3, 2, 2, 2, 4, 4, 6, 6,
    2, 5, 2, 8, 4, 4, 6, 6, 2, 4, 2, 7, 4, 4, 7, 7,
    6, 6, 2, 8, 3, 3, 5, 5, 4, 2, 2, 2, 4, 4, 6, 6,
    2, 5, 2, 8, 4, 4, 6, 6, 2, 4, 2, 7, 4, 4, 7, 7,
    6, 6, 2, 8, 3, 3, 5, 5, 3, 2, 2, 2, 3, 4, 6, 6,
    2, 5, 2, 8, 4, 4, 6, 6, 2, 4, 2, 7, 4, 4, 7, 7,
    6, 6, 2, 8, 3, 3, 5, 5, 4, 2, 2, 2, 5, 4, 6, 6,
    2, 5, 2, 8, 4, 4, 6, 6, 2, 4, 2, 7, 4, 4, 7, 7,
    2, 6, 2, 6, 3, 3, 3, 3, 2, 2, 2, 2, 4, 4, 4, 4,
    2, 6, 2, 6, 4, 4, 4, 4, 2, 5, 2, 5, 5, 5, 5, 5,
    2, 6, 2, 6, 3, 3, 3, 3, 2, 2, 2, 2, 4, 4, 4, 4,
    2, 5, 2, 5, 4, 4, 4, 4, 2, 4, 2, 4, 4, 4, 4, 4,
    2, 6, 2, 8, 3, 3, 5, 5, 2, 2, 2, 2, 4, 4, 6, 6,
    2, 5, 2, 8, 4, 4, 6, 6, 2, 4, 2, 7, 4, 4, 7, 7,
    2, 6, 2, 8, 3, 3, 5, 5, 2, 2, 2, 2, 4, 4, 6, 6,
    2, 5, 2, 8, 4, 4, 6, 6, 2, 4, 2, 7, 4, 4, 7, 7,
];

/// The table agrees with the timing rules for every instruction.
pub proof fn lemma_cycles_table(op: u8)
    requires
        decode(op) is Some,
    ensures
        CYCLES@[op as int] == decode(op).unwrap().base_cycles(),
{
    if op < 0x40 {
        lemma_cycles_rows_0(op);
    } else if op < 0x80 {
        lemma_cycles_rows_4(op);
    } else if op < 0xC0 {
        lemma_cycles_rows_8(op);
    } else {
        lemma_cycles_rows_c(op);
    }
}

proof fn lemma_cycles_rows_0(op: u8)
    requires
        op < 0x40,
        decode(op) is Some,
    ensures
        CYCLES@[op as int] == decode(op).unwrap().base_cycles(),
{
    reveal(decode);
}

proof fn lemma_cycles_rows_4(op: u8)
    requires
        0x40 <= op < 0x80,
        decode(op) is Some,
    ensures
        CYCLES@[op as int] == decode(op).unwrap().base_cycles(),
{
    reveal(decode);
}

proof fn lemma_cycles_rows_8(op: u8)
    requires
        0x80 <= op < 0xC0,
        decode(op) is Some,
    ensures
        CYCLES@[op as int] == decode(op).unwrap().base_cycles(),
{
    reveal(decode);
}

proof fn lemma_cycles_rows_c(op: u8)
    requires
        0xC0 <= op,
        decode(op) is Some,
    ensures
        CYCLES@[op as int] == decode(op).unwrap().base_cycles(),
{
    reveal(decode);
}

} // verus!
