//! The executable processor.

use vstd::prelude::*;
use crate::alu::add_with_carry;
use crate::alu::carry_in;
use crate::alu::law_add_with_carry_flags;
use crate::alu::lemma_complement;
use crate::alu::law_subtract_is_add_complement;
use crate::alu::lemma_end_bits;
use crate::alu::lemma_middle_bits;
use crate::alu::lemma_overflow_test;
use crate::alu::lemma_shifts;
use crate::alu::lemma_wrapping_byte;
use crate::alu::rotate_left;
use crate::alu::rotate_right;
use crate::alu::shift_left;
use crate::alu::shift_right;
use crate::bus::Bus;
use crate::bus::lemma_addr_bytes;
use crate::bus::lemma_next_in_page;
use crate::bus::lemma_word_bits;
use crate::bus::page_of;
use crate::flags::Flags;
use crate::flags::law_pulled_flags;
use crate::laws::law_branch_cost;
use crate::laws::law_indirect_modes_use_zero_page;
use crate::laws::law_page_cross_penalty;
use crate::laws::law_resolve_moves_counter;
use crate::laws::law_unindexed_modes_cost_nothing;
use crate::machine::pays_page_cross;
use crate::flags::lemma_force_break;
use crate::machine::dma_copy;
use crate::machine::lemma_stack_addr;
use crate::machine::Machine;
use crate::machine::moved_pc_only;
use crate::machine::page_penalty;
use crate::machine::UnsupportedOp;
use crate::opcode::CYCLES;
use crate::opcode::decode;
use crate::opcode::decode_op;
use crate::opcode::DMA_ADDR;
use crate::opcode::Instr;
use crate::opcode::IRQ_VEC;
use crate::opcode::lemma_cycles_table;
use crate::opcode::Mode;
use crate::opcode::operand_bytes;
use crate::opcode::NMI_VEC;
use crate::opcode::OAM_DATA;
use crate::opcode::RESET_VEC;
use crate::registers::as_signed;
use crate::registers::offset_addr;
use crate::registers::signed;
use crate::registers::lemma_wrapping_addr;
use crate::registers::Registers;

verus! {

/// The processor, wired to the bus `mmu`.
pub struct Cpu<B: Bus> {
    pub regs: Registers,
    /// Cycles charged so far to the instruction under way; zero between
    /// instructions.
    pub cycle_count: u16,
    pub mmu: B,
}

impl<B: Bus> View for Cpu<B> {
    type V = Machine<B>;

    open spec fn view(&self) -> Machine<B> {
        Machine { regs: self.regs, cycles: self.cycle_count, bus: self.mmu.state() }
    }
}

impl<B: Bus> Cpu<B> {
    /// A processor just powered up on `mmu`: it will run the code that the
    /// reset vector points to.
    pub fn new(mmu: B) -> (cpu: Cpu<B>)
        ensures
            cpu@ == Machine::<B>::power_on(mmu.state()),
    {
        let mut cpu = Cpu { cycle_count: 0, regs: Registers::new(0), mmu: mmu };
        let addr = cpu.mmu.ld16(RESET_VEC);
        cpu.regs.pc.set_addr(addr);
        cpu
    }

    /// Puts the processor back into its power-up state. The bus is only read,
    /// for the reset vector.
    pub fn reset(&mut self)
        ensures
            final(self)@ == Machine::<B>::power_on(old(self)@.bus),
    {
        self.cycle_count = 0;
        let addr = self.mmu.ld16(RESET_VEC);
        self.regs.reset(addr);
    }

    /// Charges one cycle if `base` and `base_offset` lie in different pages.
    fn check_pb(&mut self, base: u16, base_offset: u16)
        ensures
            final(self)@ == old(self)@.charge(page_penalty(base, base_offset)),
    {
        proof {
            lemma_addr_bytes(base);
            lemma_addr_bytes(base_offset);
            lemma_wrapping_addr(self.cycle_count, 0);
        }
        if (base & 0xFF00) != (base_offset & 0xFF00) {
            self.incr_cc();
        }
    }

    /// Charges one cycle.
    fn incr_cc(&mut self)
        ensures
            final(self)@ == old(self)@.charge(1),
    {
        proof {
            lemma_wrapping_addr(self.cycle_count, 1);
        }
        self.cycle_count = self.cycle_count.wrapping_add(1);
    }

    /// Resolves the address of an operand in `mode` and moves the program
    /// counter past the operand bytes.
    ///
    /// The modes that index a 16-bit address for reading charge one cycle
    /// when the index carries into the high byte, and no mode charges
    /// otherwise. A pointer in page zero stays in page zero, and the pointer
    /// of an indirect jump stays in its page.
    pub fn address_mem(&mut self, mode: Mode) -> (addr: u16)
        ensures
            (addr, final(self)@) == old(self)@.resolve(mode),
            moved_pc_only(old(self).regs, final(self).regs),
            final(self).regs.pc.0 == offset_addr(old(self).regs.pc.0, operand_bytes(mode)),
            mode == Mode::AbsX || mode == Mode::AbsY || mode == Mode::IndY || mode
                == Mode::NoPBAbsX || mode == Mode::NoPBAbsY || mode == Mode::NoPBIndY ==> ({
                let base = old(self)@.pointer(mode).0;
                &&& addr == offset_addr(base, old(self)@.index(mode) as int)
                &&& final(self).mmu.state() == old(self)@.pointer(mode).1.bus
                &&& final(self).cycle_count == if pays_page_cross(mode) && page_of(addr)
                    != page_of(base) {
                    offset_addr(old(self).cycle_count, 1)
                } else {
                    old(self).cycle_count
                }
            }),
            mode == Mode::Imm || mode == Mode::ZP || mode == Mode::ZPX || mode == Mode::ZPY
                || mode == Mode::Abs || mode == Mode::JmpIndir || mode == Mode::IndX
                ==> final(self).cycle_count == old(self).cycle_count,
            mode == Mode::IndX ==> (addr, final(self)@) == old(self)@.fetch().1.zero_page_word(
                old(self)@.fetch().0.wrapping_add(old(self).regs.x),
            ),
            mode == Mode::IndY || mode == Mode::NoPBIndY ==> old(self)@.pointer(mode) == old(
                self,
            )@.fetch().1.zero_page_word(old(self)@.fetch().0),
            mode == Mode::JmpIndir ==> (addr, final(self)@) == old(self)@.fetch_word().1.jump_target(
                old(self)@.fetch_word().0,
            ),
    {
        proof {
            law_resolve_moves_counter(self@, mode);
            law_indirect_modes_use_zero_page(self@);
            if mode == Mode::AbsX || mode == Mode::AbsY || mode == Mode::IndY || mode
                == Mode::NoPBAbsX || mode == Mode::NoPBAbsY || mode == Mode::NoPBIndY {
                law_page_cross_penalty(self@, mode);
            } else {
                law_unindexed_modes_cost_nothing(self@, mode);
            }
        }
        reveal(Machine::resolve);
        match mode {
            Mode::Imm => {
                let tmp = self.regs.pc.get_addr();
                self.regs.pc.add_unsigned(1);
                tmp
            },
            Mode::ZP => self.ld8_pc_up() as u16,
            Mode::ZPX => {
                let tmp = self.ld8_pc_up();
                tmp.wrapping_add(self.regs.x) as u16
            },
            Mode::ZPY => {
                let tmp = self.ld8_pc_up();
                tmp.wrapping_add(self.regs.y) as u16
            },
            Mode::Abs => self.ld16_pc_up(),
            Mode::AbsX => {
                let base = self.ld16_pc_up();
                let tmp = base.wrapping_add(self.regs.x as u16);
                self.check_pb(base, tmp);
                tmp
            },
            Mode::AbsY => {
                let base = self.ld16_pc_up();
                let tmp = base.wrapping_add(self.regs.y as u16);
                self.check_pb(base, tmp);
                tmp
            },
            Mode::NoPBAbsX => {
                let base = self.ld16_pc_up();
                base.wrapping_add(self.regs.x as u16)
            },
            Mode::NoPBAbsY => {
                let base = self.ld16_pc_up();
                base.wrapping_add(self.regs.y as u16)
            },
            Mode::JmpIndir => {
                let tmp = self.ld16_pc_up();
                proof {
                    lemma_addr_bytes(tmp);
                    lemma_next_in_page(tmp);
                }
                let low = self.mmu.ld8(tmp);
                let high: u8 = if tmp & 0xFF == 0xFF {
                    self.mmu.ld8(tmp - 0xFF)
                } else {
                    self.mmu.ld8(tmp + 1)
                };
                proof {
                    lemma_word_bits(low, high);
                }
                (high as u16) << 8 | (low as u16)
            },
            Mode::IndX => {
                let tmp = self.ld8_pc_up();
                self.ld16_zero_page(tmp.wrapping_add(self.regs.x))
            },
            Mode::IndY => {
                let base = self.ld8_pc_up();
                let tmp = self.ld16_zero_page(base);
                let addr = tmp.wrapping_add(self.regs.y as u16);
                self.check_pb(tmp, addr);
                addr
            },
            Mode::NoPBIndY => {
                let base = self.ld8_pc_up();
                let tmp = self.ld16_zero_page(base);
                tmp.wrapping_add(self.regs.y as u16)
            },
        }
    }

    /// Loads the word that page zero holds at `base`, without leaving page
    /// zero.
    fn ld16_zero_page(&mut self, base: u8) -> (val: u16)
        ensures
            (val, final(self)@) == old(self)@.zero_page_word(base),
    {
        if base == 0xFF {
            let high = self.mmu.ld8(0);
            let low = self.mmu.ld8(0xFF);
            proof {
                lemma_word_bits(low, high);
            }
            (high as u16) << 8 | (low as u16)
        } else {
            self.mmu.ld16(base as u16)
        }
    }

    /// Enters the handler of the non-maskable interrupt.
    pub fn proc_nmi(&mut self)
        ensures
            final(self)@ == old(self)@.nmi(),
    {
        reveal(Machine::nmi);
        let flags = self.regs.flags;
        self.push_pc();
        self.push(flags.as_byte());
        let addr = self.mmu.ld16(NMI_VEC);
        self.regs.pc.set_addr(addr);
    }

    /// Loads the operand in `mode`.
    fn read_op(&mut self, mode: Mode) -> (val: u8)
        ensures
            (val, final(self)@) == old(self)@.read(mode),
            moved_pc_only(old(self).regs, final(self).regs),
    {
        let addr = self.address_mem(mode);
        self.mmu.ld8(addr)
    }

    /// Copies page `high_nyb` to the sprite memory port, byte by byte in
    /// ascending order, and charges what the copy costs: 513 cycles if the
    /// count stands even, 514 if odd.
    pub fn write_dma(&mut self, high_nyb: u8)
        ensures
            final(self)@ == old(self)@.dma(high_nyb),
            final(self).regs == old(self).regs,
            final(self).mmu.state() == dma_copy::<B>(old(self).mmu.state(), high_nyb, 256),
            old(self).cycle_count % 2 == 0 ==> final(self).cycle_count == offset_addr(
                old(self).cycle_count,
                513,
            ),
            old(self).cycle_count % 2 == 1 ==> final(self).cycle_count == offset_addr(
                old(self).cycle_count,
                514,
            ),
    {
        reveal(Machine::dma);
        proof {
            lemma_wrapping_addr(self.cycle_count, (513 + self.cycle_count % 2) as u16);
            lemma_word_bits(0, high_nyb);
        }
        self.cycle_count = self.cycle_count.wrapping_add(513 + self.cycle_count % 2);
        let page_num = (high_nyb as u16) << 8;
        let ghost start = old(self).mmu.state();
        let mut offset: u16 = 0;
        while offset < 0x100
            invariant
                offset <= 0x100,
                page_num == high_nyb * 256,
                self.mmu.state() == dma_copy::<B>(start, high_nyb, offset as nat),
                self.regs == old(self).regs,
                self.cycle_count == old(self)@.dma(high_nyb).cycles,
            decreases 0x100 - offset,
        {
            let tmp = self.mmu.ld8(page_num + offset);
            self.mmu.store(OAM_DATA, tmp);
            offset += 1;
        }
    }

    /// Stores `val` at `addr`; a store to the DMA port starts a sprite DMA.
    fn store(&mut self, addr: u16, val: u8)
        ensures
            final(self)@ == old(self)@.write(addr, val),
            final(self).regs == old(self).regs,
    {
        if addr == DMA_ADDR {
            self.write_dma(val);
        } else {
            self.mmu.store(addr, val);
        }
    }

    /// Pushes `val` on the stack.
    fn push(&mut self, val: u8)
        ensures
            final(self)@ == old(self)@.push(val),
    {
        let sp = self.regs.sp;
        proof {
            lemma_stack_addr(sp);
            lemma_wrapping_byte(sp, 1);
        }
        let addr = self.regs.sp as u16 | 0x100;
        self.store(addr, val);
        self.regs.sp = self.regs.sp.wrapping_sub(1);
    }

    /// Pops a byte off the stack.
    fn pop(&mut self) -> (val: u8)
        ensures
            (val, final(self)@) == old(self)@.pop(),
    {
        proof {
            lemma_wrapping_byte(self.regs.sp, 1);
            lemma_stack_addr(self.regs.sp.wrapping_add(1));
        }
        self.regs.sp = self.regs.sp.wrapping_add(1);
        self.mmu.ld8(self.regs.sp as u16 | 0x100)
    }

    /// Pulls the program counter, low byte first.
    fn pull_pc(&mut self)
        ensures
            final(self)@ == old(self)@.pull_pc(),
    {
        let low = self.pop();
        let high = self.pop();
        proof {
            lemma_word_bits(low, high);
        }
        self.regs.pc.set_addr(((high as u16) << 8) | low as u16);
    }

    /// Pulls the flags. Whatever byte is popped, unused is then set and break
    /// clear; the other six flags are the bits of the byte.
    pub fn pull_status(&mut self)
        ensures
            final(self)@ == old(self)@.pull_status(),
            final(self).regs.flags == Flags::pulled(old(self)@.pop().0),
            final(self).regs.flags.unused,
            !final(self).regs.flags.brk,
            final(self).regs.flags.spec_as_byte() == (old(self)@.pop().0 | 0x20) & 0xEF,
            final(self).regs == (Registers {
                flags: final(self).regs.flags,
                sp: old(self)@.pop().1.regs.sp,
                ..old(self).regs
            }),
    {
        proof {
            law_pulled_flags(self@.pop().0);
        }
        let tmp = self.pop();
        self.regs.flags.set_byte(tmp);
        self.regs.flags.unused = true;
        self.regs.flags.brk = false;
    }

    /// Pushes the program counter, high byte first.
    fn push_pc(&mut self)
        ensures
            final(self)@ == old(self)@.push_pc(),
    {
        proof {
            lemma_addr_bytes(self.regs.pc.0);
        }
        let high = self.regs.pc.get_addr() >> 8;
        let low = self.regs.pc.get_addr();
        self.push(high as u8);
        self.push(low as u8);
    }

    /// Sets zero and negative from `val`.
    fn set_zero_neg(&mut self, val: u8)
        ensures
            final(self)@ == old(self)@.set_zn(val),
    {
        proof {
            lemma_end_bits(val);
        }
        self.regs.flags.neg = val >> 7 == 1;
        self.regs.flags.zero = val == 0;
    }

    /// Loads the byte at the program counter and moves past it.
    fn ld8_pc_up(&mut self) -> (val: u8)
        ensures
            (val, final(self)@) == old(self)@.fetch(),
    {
        let ram_ptr = self.regs.pc.get_addr();
        self.regs.pc.add_unsigned(1);
        self.mmu.ld8(ram_ptr)
    }

    /// Loads the word at the program counter and moves past it.
    fn ld16_pc_up(&mut self) -> (val: u16)
        ensures
            (val, final(self)@) == old(self)@.fetch_word(),
    {
        let ram_ptr = self.regs.pc.get_addr();
        self.regs.pc.add_unsigned(2);
        self.mmu.ld16(ram_ptr)
    }

    fn and(&mut self, mode: Mode)
        ensures
            final(self)@ == old(self)@.exec(Instr::And(mode)),
    {
        reveal(Machine::exec);
        reveal(Machine::and);
        let val = self.read_op(mode);
        let tmp = self.regs.acc & val;
        self.set_zero_neg(tmp);
        self.regs.acc = tmp;
    }

    fn ora(&mut self, mode: Mode)
        ensures
            final(self)@ == old(self)@.exec(Instr::Ora(mode)),
    {
        reveal(Machine::exec);
        reveal(Machine::ora);
        let val = self.read_op(mode);
        let tmp = self.regs.acc | val;
        self.set_zero_neg(tmp);
        self.regs.acc = tmp;
    }

    fn eor(&mut self, mode: Mode)
        ensures
            final(self)@ == old(self)@.exec(Instr::Eor(mode)),
    {
        reveal(Machine::exec);
        reveal(Machine::eor);
        let val = self.read_op(mode);
        let tmp = self.regs.acc ^ val;
        self.set_zero_neg(tmp);
        self.regs.acc = tmp;
    }

    /// Adds `val` and the carry to the accumulator.
    ///
    /// The accumulator becomes the sum modulo 256. Carry is set exactly when
    /// the unsigned sum exceeds 0xFF, overflow exactly when the signed sum
    /// leaves -128..=127, zero and negative follow the new accumulator. The
    /// decimal flag is neither read nor changed.
    pub fn adc_val(&mut self, val: u8)
        ensures
            final(self)@ == old(self)@.arith(
                add_with_carry(old(self).regs.acc, val, old(self).regs.flags),
            ),
            ({
                let sum = old(self).regs.acc + val + carry_in(old(self).regs.flags.carry);
                let signed_sum = signed(old(self).regs.acc) + signed(val) + carry_in(
                    old(self).regs.flags.carry,
                );
                &&& final(self).regs.acc == sum % 256
                &&& final(self).regs.flags.carry == (sum > 0xFF)
                &&& final(self).regs.flags.zero == (sum % 256 == 0)
                &&& final(self).regs.flags.neg == (sum % 256 >= 0x80)
                &&& final(self).regs.flags.overflow == (signed_sum < -128 || signed_sum > 127)
                &&& final(self).regs.flags == (Flags {
                    carry: final(self).regs.flags.carry,
                    zero: final(self).regs.flags.zero,
                    overflow: final(self).regs.flags.overflow,
                    neg: final(self).regs.flags.neg,
                    ..old(self).regs.flags
                })
                &&& final(self).regs == (Registers {
                    acc: final(self).regs.acc,
                    flags: final(self).regs.flags,
                    ..old(self).regs
                })
            }),
    {
        proof {
            law_add_with_carry_flags(self.regs.acc, val, self.regs.flags);
        }
        let acc = self.regs.acc;
        let carry: u16 = if self.regs.flags.carry {
            1
        } else {
            0
        };
        let tmp = acc as u16 + val as u16 + carry;
        proof {
            lemma_overflow_test(acc, val, tmp);
        }
        self.regs.flags.carry = tmp > 0xFF;
        self.regs.flags.overflow = ((acc as u16 ^ tmp) & (val as u16 ^ tmp) & 0x80) != 0;
        let tmp = tmp as u8;
        self.set_zero_neg(tmp);
        self.regs.acc = tmp;
    }

    fn adc(&mut self, mode: Mode)
        ensures
            final(self)@ == old(self)@.exec(Instr::Adc(mode)),
    {
        reveal(Machine::exec);
        reveal(Machine::adc);
        let val = self.read_op(mode);
        self.adc_val(val);
    }

    /// Subtracts the operand in `mode` and the borrow from the accumulator:
    /// the addition of the operand's complement.
    pub fn sbc(&mut self, mode: Mode)
        ensures
            final(self)@ == old(self)@.exec(Instr::Sbc(mode)),
            ({
                let (operand, read) = old(self)@.read(mode);
                let acc = old(self).regs.acc;
                let carry = carry_in(old(self).regs.flags.carry);
                &&& (final(self).regs.acc, final(self).regs.flags) == add_with_carry(
                    acc,
                    operand ^ 0xFF,
                    old(self).regs.flags,
                )
                &&& final(self).regs.acc == (acc + (operand ^ 0xFF) + carry) % 256
                &&& final(self).regs.flags.carry == (acc >= operand + (1 - carry))
                &&& final(self).mmu.state() == read.bus
                &&& final(self).cycle_count == read.cycles
            }),
    {
        reveal(Machine::exec);
        reveal(Machine::sbc);
        let val = self.read_op(mode);
        proof {
            law_subtract_is_add_complement(self.regs.acc, val, self.regs.flags);
            lemma_complement(val);
        }
        self.adc_val(val ^ 0xFF);
    }

    fn lda(&mut self, mode: Mode)
        ensures
            final(self)@ == old(self)@.exec(Instr::Lda(mode)),
    {
        reveal(Machine::exec);
        reveal(Machine::load_acc);
        let val = self.read_op(mode);
        self.regs.acc = val;
        self.set_zero_neg(val);
    }

    fn ldx(&mut self, mode: Mode)
        ensures
            final(self)@ == old(self)@.exec(Instr::Ldx(mode)),
    {
        reveal(Machine::exec);
        reveal(Machine::load_x);
        let val = self.read_op(mode);
        self.regs.x = val;
        self.set_zero_neg(val);
    }

    fn ldy(&mut self, mode: Mode)
        ensures
            final(self)@ == old(self)@.exec(Instr::Ldy(mode)),
    {
        reveal(Machine::exec);
        reveal(Machine::load_y);
        let val = self.read_op(mode);
        self.regs.y = val;
        self.set_zero_neg(val);
    }

    fn ror_acc(&mut self)
        ensures
            final(self)@ == old(self)@.exec(Instr::RorAcc),
    {
        reveal(Machine::exec);
        let (tmp, n_flag) = Self::get_ror(self.regs.flags.carry, self.regs.acc);
        self.regs.flags.carry = n_flag;
        self.set_zero_neg(tmp);
        self.regs.acc = tmp;
    }

    fn ror_addr(&mut self, mode: Mode)
        ensures
            final(self)@ == old(self)@.exec(Instr::Ror(mode)),
    {
        reveal(Machine::exec);
        reveal(Machine::ror);
        let addr = self.address_mem(mode);
        let val = self.mmu.ld8(addr);
        let (tmp, n_flag) = Self::get_ror(self.regs.flags.carry, val);
        self.regs.flags.carry = n_flag;
        self.set_zero_neg(tmp);
        self.store(addr, tmp);
    }

    /// `val` rotated right through the carry, and the bit rotated out.
    fn get_ror(carry_flag: bool, val: u8) -> (out: (u8, bool))
        ensures
            out == rotate_right(carry_flag, val),
    {
        proof {
            lemma_shifts(val);
            lemma_end_bits(val);
        }
        let carry: u8 = if carry_flag {
            1
        } else {
            0
        };
        ((val >> 1) | (carry << 7), (val & 0b01) != 0)
    }

    fn rol_acc(&mut self)
        ensures
            final(self)@ == old(self)@.exec(Instr::RolAcc),
    {
        reveal(Machine::exec);
        let (tmp, n_flag) = Self::get_rol(self.regs.flags.carry, self.regs.acc);
        self.regs.flags.carry = n_flag;
        self.set_zero_neg(tmp);
        self.regs.acc = tmp;
    }

    fn rol_addr(&mut self, mode: Mode)
        ensures
            final(self)@ == old(self)@.exec(Instr::Rol(mode)),
    {
        reveal(Machine::exec);
        reveal(Machine::rol);
        let addr = self.address_mem(mode);
        let val = self.mmu.ld8(addr);
        let (tmp, n_flag) = Self::get_rol(self.regs.flags.carry, val);
        self.regs.flags.carry = n_flag;
        self.set_zero_neg(tmp);
        self.store(addr, tmp);
    }

    /// `val` rotated left through the carry, and the bit rotated out.
    fn get_rol(carry_flag: bool, val: u8) -> (out: (u8, bool))
        ensures
            out == rotate_left(carry_flag, val),
    {
        proof {
            lemma_shifts(val);
            lemma_end_bits(val);
        }
        let carry: u8 = if carry_flag {
            1
        } else {
            0
        };
        ((val << 1) | carry, (val & 0x80) != 0)
    }

    fn asl_acc(&mut self)
        ensures
            final(self)@ == old(self)@.exec(Instr::AslAcc),
    {
        reveal(Machine::exec);
        let acc = self.regs.acc;
        proof {
            lemma_shifts(acc);
            lemma_end_bits(acc);
        }
        self.regs.flags.carry = (acc >> 7) != 0;
        let tmp = acc << 1;
        self.set_zero_neg(tmp);
        self.regs.acc = tmp;
    }

    fn asl_addr(&mut self, mode: Mode)
        ensures
            final(self)@ == old(self)@.exec(Instr::Asl(mode)),
    {
        reveal(Machine::exec);
        reveal(Machine::asl);
        let addr = self.address_mem(mode);
        let val = self.mmu.ld8(addr);
        proof {
            lemma_shifts(val);
            lemma_end_bits(val);
        }
        self.regs.flags.carry = (val >> 7) != 0;
        let tmp = val << 1;
        self.set_zero_neg(tmp);
        self.store(addr, tmp);
    }

    fn lsr_acc(&mut self)
        ensures
            final(self)@ == old(self)@.exec(Instr::LsrAcc),
    {
        reveal(Machine::exec);
        let acc = self.regs.acc;
        proof {
            lemma_shifts(acc);
            lemma_end_bits(acc);
        }
        self.regs.flags.carry = (acc & 0b01) != 0;
        let tmp = acc >> 1;
        self.set_zero_neg(tmp);
        self.regs.acc = tmp;
    }

    fn lsr_addr(&mut self, mode: Mode)
        ensures
            final(self)@ == old(self)@.exec(Instr::Lsr(mode)),
    {
        reveal(Machine::exec);
        reveal(Machine::lsr);
        let addr = self.address_mem(mode);
        let val = self.mmu.ld8(addr);
        proof {
            lemma_shifts(val);
            lemma_end_bits(val);
        }
        self.regs.flags.carry = (val & 0b01) != 0;
        let tmp = val >> 1;
        self.set_zero_neg(tmp);
        self.store(addr, tmp);
    }

    /// Compares X with the operand in `mode`: carry exactly when it is at
    /// least the operand, zero exactly when they are equal, negative from the
    /// difference modulo 256. No other flag changes, and no register but the
    /// program counter, which moves past the operand.
    pub fn cpx(&mut self, mode: Mode)
        ensures
            final(self)@ == old(self)@.exec(Instr::Cpx(mode)),
            ({
                let (operand, read) = old(self)@.read(mode);
                let reg = old(self).regs.x;
                &&& final(self).regs.flags.carry == (reg >= operand)
                &&& final(self).regs.flags.zero == (reg == operand)
                &&& final(self).regs.flags.neg == ((reg + 256 - operand) % 256 >= 0x80)
                &&& final(self).regs.flags == (Flags {
                    carry: final(self).regs.flags.carry,
                    zero: final(self).regs.flags.zero,
                    neg: final(self).regs.flags.neg,
                    ..old(self).regs.flags
                })
                &&& final(self).regs == (Registers {
                    pc: read.regs.pc,
                    flags: final(self).regs.flags,
                    ..old(self).regs
                })
                &&& final(self).mmu.state() == read.bus
                &&& final(self).cycle_count == read.cycles
            }),
    {
        reveal(Machine::exec);
        reveal(Machine::compare_with);
        let val = self.read_op(mode);
        let reg = self.regs.x;
        proof {
            lemma_wrapping_byte(reg, val);
        }
        self.regs.flags.carry = reg >= val;
        self.set_zero_neg(reg.wrapping_sub(val));
    }

    /// Compares Y with the operand in `mode`: carry exactly when it is at
    /// least the operand, zero exactly when they are equal, negative from the
    /// difference modulo 256. No other flag changes, and no register but the
    /// program counter, which moves past the operand.
    pub fn cpy(&mut self, mode: Mode)
        ensures
            final(self)@ == old(self)@.exec(Instr::Cpy(mode)),
            ({
                let (operand, read) = old(self)@.read(mode);
                let reg = old(self).regs.y;
                &&& final(self).regs.flags.carry == (reg >= operand)
                &&& final(self).regs.flags.zero == (reg == operand)
                &&& final(self).regs.flags.neg == ((reg + 256 - operand) % 256 >= 0x80)
                &&& final(self).regs.flags == (Flags {
                    carry: final(self).regs.flags.carry,
                    zero: final(self).regs.flags.zero,
                    neg: final(self).regs.flags.neg,
                    ..old(self).regs.flags
                })
                &&& final(self).regs == (Registers {
                    pc: read.regs.pc,
                    flags: final(self).regs.flags,
                    ..old(self).regs
                })
                &&& final(self).mmu.state() == read.bus
                &&& final(self).cycle_count == read.cycles
            }),
    {
        reveal(Machine::exec);
        reveal(Machine::compare_with);
        let val = self.read_op(mode);
        let reg = self.regs.y;
        proof {
            lemma_wrapping_byte(reg, val);
        }
        self.regs.flags.carry = reg >= val;
        self.set_zero_neg(reg.wrapping_sub(val));
    }

    /// Compares the accumulator with the operand in `mode`: carry exactly
    /// when it is at least the operand, zero exactly when they are equal,
    /// negative from the difference modulo 256. No other flag changes, and no
    /// register but the program counter, which moves past the operand.
    pub fn cmp(&mut self, mode: Mode)
        ensures
            final(self)@ == old(self)@.exec(Instr::Cmp(mode)),
            ({
                let (operand, read) = old(self)@.read(mode);
                let reg = old(self).regs.acc;
                &&& final(self).regs.flags.carry == (reg >= operand)
                &&& final(self).regs.flags.zero == (reg == operand)
                &&& final(self).regs.flags.neg == ((reg + 256 - operand) % 256 >= 0x80)
                &&& final(self).regs.flags == (Flags {
                    carry: final(self).regs.flags.carry,
                    zero: final(self).regs.flags.zero,
                    neg: final(self).regs.flags.neg,
                    ..old(self).regs.flags
                })
                &&& final(self).regs == (Registers {
                    pc: read.regs.pc,
                    flags: final(self).regs.flags,
                    ..old(self).regs
                })
                &&& final(self).mmu.state() == read.bus
                &&& final(self).cycle_count == read.cycles
            }),
    {
        reveal(Machine::exec);
        reveal(Machine::compare_with);
        let val = self.read_op(mode);
        let reg = self.regs.acc;
        proof {
            lemma_wrapping_byte(reg, val);
        }
        self.regs.flags.carry = reg >= val;
        self.set_zero_neg(reg.wrapping_sub(val));
    }

    /// Fetches the displacement of a branch and takes the branch if `flag`.
    /// The opcode is already fetched: the program counter stands at the
    /// displacement.
    ///
    /// A branch not taken costs nothing here. A branch taken costs one cycle,
    /// and two if its target lies in another page than its opcode.
    pub fn generic_branch(&mut self, flag: bool)
        ensures
            final(self)@ == old(self)@.branch(flag),
            ({
                let (operand, fetched) = old(self)@.fetch();
                let own = offset_addr(old(self).regs.pc.0, -1);
                let next = offset_addr(old(self).regs.pc.0, 1);
                let target = offset_addr(next, signed(operand));
                &&& final(self).regs.pc.0 == if flag {
                    target
                } else {
                    next
                }
                &&& final(self).cycle_count == offset_addr(
                    old(self).cycle_count,
                    if !flag {
                        0int
                    } else if page_of(target) == page_of(own) {
                        1int
                    } else {
                        2int
                    },
                )
                &&& moved_pc_only(old(self).regs, final(self).regs)
                &&& final(self).mmu.state() == fetched.bus
            }),
    {
        proof {
            law_branch_cost(self@, flag);
            lemma_wrapping_addr(self.cycle_count, 0);
        }
        reveal(Machine::branch);
        let own = self.regs.pc.get_addr().wrapping_sub(1);
        proof {
            lemma_wrapping_addr(self.regs.pc.0, 1);
        }
        let val = as_signed(self.ld8_pc_up());
        if flag {
            self.regs.pc.add_signed(val);
            self.incr_cc();
            let new_addr = self.regs.pc.get_addr();
            self.check_pb(own, new_addr)
        }
    }

    fn bit(&mut self, mode: Mode)
        ensures
            final(self)@ == old(self)@.exec(Instr::Bit(mode)),
    {
        reveal(Machine::exec);
        reveal(Machine::bit);
        let val = self.read_op(mode);
        let acc = self.regs.acc;
        proof {
            lemma_end_bits(val);
        }
        self.regs.flags.zero = (val & acc) == 0;
        self.regs.flags.overflow = (val & 0x40) != 0;
        self.regs.flags.neg = (val & 0x80) != 0;
    }

    fn dec(&mut self, mode: Mode)
        ensures
            final(self)@ == old(self)@.exec(Instr::Dec(mode)),
    {
        reveal(Machine::exec);
        reveal(Machine::step_memory);
        let addr = self.address_mem(mode);
        let old_val = self.mmu.ld8(addr);
        proof {
            lemma_wrapping_byte(old_val, 1);
        }
        let val: u8 = old_val.wrapping_sub(1);
        self.set_zero_neg(val);
        self.store(addr, val);
    }

    fn inc(&mut self, mode: Mode)
        ensures
            final(self)@ == old(self)@.exec(Instr::Inc(mode)),
    {
        reveal(Machine::exec);
        reveal(Machine::step_memory);
        let addr = self.address_mem(mode);
        let old_val = self.mmu.ld8(addr);
        proof {
            lemma_wrapping_byte(old_val, 1);
        }
        let val: u8 = old_val.wrapping_add(1);
        self.set_zero_neg(val);
        self.store(addr, val);
    }

    fn sta(&mut self, mode: Mode)
        ensures
            final(self)@ == old(self)@.exec(Instr::Sta(mode)),
    {
        reveal(Machine::exec);
        reveal(Machine::store_to);
        let addr = self.address_mem(mode);
        let tmp = self.regs.acc;
        self.store(addr, tmp);
    }

    fn stx(&mut self, mode: Mode)
        ensures
            final(self)@ == old(self)@.exec(Instr::Stx(mode)),
    {
        reveal(Machine::exec);
        reveal(Machine::store_to);
        let addr = self.address_mem(mode);
        let tmp = self.regs.x;
        self.store(addr, tmp);
    }

    fn sty(&mut self, mode: Mode)
        ensures
            final(self)@ == old(self)@.exec(Instr::Sty(mode)),
    {
        reveal(Machine::exec);
        reveal(Machine::store_to);
        let addr = self.address_mem(mode);
        let tmp = self.regs.y;
        self.store(addr, tmp);
    }

    fn jmp(&mut self, mode: Mode)
        ensures
            final(self)@ == old(self)@.exec(Instr::Jmp(mode)),
    {
        reveal(Machine::exec);
        reveal(Machine::jmp);
        let addr = self.address_mem(mode);
        self.regs.pc.set_addr(addr);
    }

    fn aac(&mut self, mode: Mode)
        ensures
            final(self)@ == old(self)@.exec(Instr::Aac(mode)),
    {
        reveal(Machine::exec);
        reveal(Machine::aac);
        let val = self.read_op(mode);
        let acc = self.regs.acc;
        self.regs.acc = acc & val;
        self.set_zero_neg(self.regs.acc);
        self.regs.flags.carry = self.regs.flags.neg;
    }

    fn aax(&mut self, mode: Mode)
        ensures
            final(self)@ == old(self)@.exec(Instr::Aax(mode)),
    {
        reveal(Machine::exec);
        reveal(Machine::store_to);
        let addr = self.address_mem(mode);
        let tmp = self.regs.acc & self.regs.x;
        self.store(addr, tmp);
    }

    fn arr(&mut self, mode: Mode)
        ensures
            final(self)@ == old(self)@.exec(Instr::Arr(mode)),
    {
        reveal(Machine::exec);
        reveal(Machine::arr);
        let val = self.read_op(mode);
        let (new_acc, _) = Self::get_ror(self.regs.flags.carry, self.regs.acc & val);
        proof {
            lemma_middle_bits(new_acc);
        }
        let b6 = (new_acc >> 6) & 1;
        let b5 = (new_acc >> 5) & 1;
        self.regs.flags.carry = b6 == 1;
        self.regs.flags.overflow = b6 ^ b5 == 1;
        self.set_zero_neg(new_acc);
        self.regs.acc = new_acc;
    }

    fn lax(&mut self, mode: Mode)
        ensures
            final(self)@ == old(self)@.exec(Instr::Lax(mode)),
    {
        reveal(Machine::exec);
        reveal(Machine::load_acc_x);
        let val = self.read_op(mode);
        self.regs.acc = val;
        self.regs.x = val;
        self.set_zero_neg(val);
    }

    fn axs(&mut self)
        ensures
            final(self)@ == old(self)@.exec(Instr::Axs),
    {
        reveal(Machine::exec);
        reveal(Machine::axs);
        let val = self.read_op(Mode::Imm);
        let tmp = self.regs.x & self.regs.acc;
        proof {
            lemma_wrapping_byte(tmp, val);
        }
        let res = tmp.wrapping_sub(val);
        self.regs.flags.carry = tmp >= val;
        self.set_zero_neg(res);
        self.regs.x = res;
    }

    fn dcp(&mut self, mode: Mode)
        ensures
            final(self)@ == old(self)@.exec(Instr::Dcp(mode)),
    {
        reveal(Machine::exec);
        reveal(Machine::dcp);
        reveal(Machine::step_memory);
        let addr = self.address_mem(mode);
        let old_val = self.mmu.ld8(addr);
        let val: u8 = old_val.wrapping_sub(1);
        self.set_zero_neg(val);
        self.store(addr, val);
        let reg = self.regs.acc;
        proof {
            lemma_wrapping_byte(old_val, 1);
            lemma_wrapping_byte(reg, val);
        }
        self.regs.flags.carry = reg >= val;
        self.set_zero_neg(reg.wrapping_sub(val));
    }

    fn isc(&mut self, mode: Mode)
        ensures
            final(self)@ == old(self)@.exec(Instr::Isc(mode)),
    {
        reveal(Machine::exec);
        reveal(Machine::isc);
        reveal(Machine::step_memory);
        let addr = self.address_mem(mode);
        let old_val = self.mmu.ld8(addr);
        let val: u8 = old_val.wrapping_add(1);
        self.set_zero_neg(val);
        self.store(addr, val);
        proof {
            lemma_wrapping_byte(old_val, 1);
            law_subtract_is_add_complement(self.regs.acc, val, self.regs.flags);
        }
        self.adc_val(val ^ 0xFF);
    }

    fn slo(&mut self, mode: Mode)
        ensures
            final(self)@ == old(self)@.exec(Instr::Slo(mode)),
    {
        reveal(Machine::exec);
        reveal(Machine::slo);
        let addr = self.address_mem(mode);
        let val = self.mmu.ld8(addr);
        proof {
            lemma_shifts(val);
            lemma_end_bits(val);
        }
        self.regs.flags.carry = (val >> 7) != 0;
        let tmp = val << 1;
        self.store(addr, tmp);

        let tmp = self.regs.acc | tmp;
        self.set_zero_neg(tmp);
        self.regs.acc = tmp;
    }

    fn rla(&mut self, mode: Mode)
        ensures
            final(self)@ == old(self)@.exec(Instr::Rla(mode)),
    {
        reveal(Machine::exec);
        reveal(Machine::rla);
        let addr = self.address_mem(mode);
        let val = self.mmu.ld8(addr);
        let (tmp, n_flag) = Self::get_rol(self.regs.flags.carry, val);
        self.regs.flags.carry = n_flag;
        self.store(addr, tmp);

        let tmp = self.regs.acc & tmp;
        self.set_zero_neg(tmp);
        self.regs.acc = tmp;
    }

    fn sre(&mut self, mode: Mode)
        ensures
            final(self)@ == old(self)@.exec(Instr::Sre(mode)),
    {
        reveal(Machine::exec);
        reveal(Machine::sre);
        let addr = self.address_mem(mode);
        let val = self.mmu.ld8(addr);
        proof {
            lemma_shifts(val);
            lemma_end_bits(val);
        }
        self.regs.flags.carry = (val & 0b01) != 0;
        let tmp = val >> 1;
        self.store(addr, tmp);

        let tmp = self.regs.acc ^ tmp;
        self.set_zero_neg(tmp);
        self.regs.acc = tmp;
    }

    fn rra(&mut self, mode: Mode)
        ensures
            final(self)@ == old(self)@.exec(Instr::Rra(mode)),
    {
        reveal(Machine::exec);
        reveal(Machine::rra);
        let addr = self.address_mem(mode);
        let val = self.mmu.ld8(addr);
        let (tmp, n_flag) = Self::get_ror(self.regs.flags.carry, val);
        self.regs.flags.carry = n_flag;
        self.set_zero_neg(tmp);
        self.store(addr, tmp);
        self.adc_val(tmp);
    }

    fn alr(&mut self, mode: Mode)
        ensures
            final(self)@ == old(self)@.exec(Instr::Alr(mode)),
    {
        reveal(Machine::exec);
        reveal(Machine::alr);
        let val = self.read_op(mode);
        let acc = self.regs.acc & val;
        proof {
            lemma_shifts(acc);
            lemma_end_bits(acc);
        }
        self.regs.flags.carry = (acc & 0b01) != 0;
        let tmp = acc >> 1;
        self.set_zero_neg(tmp);
        self.regs.acc = tmp;
    }

    fn atx(&mut self)
        ensures
            final(self)@ == old(self)@.exec(Instr::Atx),
    {
        reveal(Machine::exec);
        reveal(Machine::load_acc_x);
        reveal(Machine::load_acc);
        self.lda(Mode::Imm);
        self.tax();
    }

    fn tax(&mut self)
        ensures
            final(self)@ == old(self)@.exec(Instr::Tax),
    {
        reveal(Machine::exec);
        let acc = self.regs.acc;
        self.regs.x = acc;
        self.set_zero_neg(acc);
    }

    fn sya(&mut self, mode: Mode)
        ensures
            final(self)@ == old(self)@.exec(Instr::Sya(mode)),
    {
        reveal(Machine::exec);
        reveal(Machine::store_high_and);
        let mut addr = self.address_mem(mode);
        let before = addr.wrapping_sub(self.regs.x as u16);
        proof {
            lemma_addr_bytes(addr);
            lemma_addr_bytes(before);
            lemma_wrapping_addr(addr, self.regs.x as u16);
            lemma_word_bits(0, self.regs.y);
        }
        if (addr & 0xFF00) != before & 0xFF00 {
            addr &= (self.regs.y as u16) << 8;
        }
        proof {
            lemma_addr_bytes(addr);
            lemma_wrapping_byte((addr >> 8) as u8, 1);
        }
        let tmp = self.regs.y & ((addr >> 8) as u8).wrapping_add(1);
        self.store(addr, tmp);
    }

    fn sxa(&mut self, mode: Mode)
        ensures
            final(self)@ == old(self)@.exec(Instr::Sxa(mode)),
    {
        reveal(Machine::exec);
        reveal(Machine::store_high_and);
        let mut addr = self.address_mem(mode);
        let before = addr.wrapping_sub(self.regs.y as u16);
        proof {
            lemma_addr_bytes(addr);
            lemma_addr_bytes(before);
            lemma_wrapping_addr(addr, self.regs.y as u16);
            lemma_word_bits(0, self.regs.x);
        }
        if (addr & 0xFF00) != before & 0xFF00 {
            addr &= (self.regs.x as u16) << 8;
        }
        proof {
            lemma_addr_bytes(addr);
            lemma_wrapping_byte((addr >> 8) as u8, 1);
        }
        let tmp = self.regs.x & ((addr >> 8) as u8).wrapping_add(1);
        self.store(addr, tmp);
    }

    /// Return from a call.
    fn rts(&mut self)
        ensures
            final(self)@ == old(self)@.exec(Instr::Rts),
    {
        reveal(Machine::exec);
        reveal(Machine::rts);
        self.pull_pc();
        self.regs.pc.add_unsigned(1);
    }

    /// Return from an interrupt.
    fn rti(&mut self)
        ensures
            final(self)@ == old(self)@.exec(Instr::Rti),
    {
        reveal(Machine::exec);
        reveal(Machine::rti);
        self.pull_status();
        self.pull_pc();
    }

    /// The software interrupt.
    fn brk(&mut self)
        ensures
            final(self)@ == old(self)@.exec(Instr::Brk),
    {
        reveal(Machine::exec);
        reveal(Machine::brk);
        self.regs.pc.add_signed(1);
        self.push_pc();
        proof {
            lemma_force_break(self.regs.flags);
        }
        self.push(self.regs.flags.as_byte() | 0b10000);
        self.regs.flags.itr = true;
        let addr = self.mmu.ld16(IRQ_VEC);
        self.regs.pc.set_addr(addr);
    }

    /// Call of a subroutine.
    fn jsr(&mut self)
        ensures
            final(self)@ == old(self)@.exec(Instr::Jsr),
    {
        reveal(Machine::exec);
        reveal(Machine::jsr);
        let addr = self.address_mem(Mode::Abs);
        self.regs.pc.add_signed(-1);
        self.push_pc();
        self.regs.pc.set_addr(addr);
    }

    fn txa(&mut self)
        ensures
            final(self)@ == old(self)@.exec(Instr::Txa),
    {
        reveal(Machine::exec);
        let x = self.regs.x;
        self.regs.acc = x;
        self.set_zero_neg(x);
    }

    fn tay(&mut self)
        ensures
            final(self)@ == old(self)@.exec(Instr::Tay),
    {
        reveal(Machine::exec);
        let acc = self.regs.acc;
        self.regs.y = acc;
        self.set_zero_neg(acc);
    }

    fn tya(&mut self)
        ensures
            final(self)@ == old(self)@.exec(Instr::Tya),
    {
        reveal(Machine::exec);
        let y = self.regs.y;
        self.regs.acc = y;
        self.set_zero_neg(y);
    }

    fn dex(&mut self)
        ensures
            final(self)@ == old(self)@.exec(Instr::Dex),
    {
        reveal(Machine::exec);
        proof {
            lemma_wrapping_byte(self.regs.x, 1);
        }
        let x = self.regs.x.wrapping_sub(1);
        self.regs.x = x;
        self.set_zero_neg(x);
    }

    fn inx(&mut self)
        ensures
            final(self)@ == old(self)@.exec(Instr::Inx),
    {
        reveal(Machine::exec);
        proof {
            lemma_wrapping_byte(self.regs.x, 1);
        }
        let x = self.regs.x.wrapping_add(1);
        self.regs.x = x;
        self.set_zero_neg(x);
    }

    fn dey(&mut self)
        ensures
            final(self)@ == old(self)@.exec(Instr::Dey),
    {
        reveal(Machine::exec);
        proof {
            lemma_wrapping_byte(self.regs.y, 1);
        }
        let y = self.regs.y.wrapping_sub(1);
        self.regs.y = y;
        self.set_zero_neg(y);
    }

    fn iny(&mut self)
        ensures
            final(self)@ == old(self)@.exec(Instr::Iny),
    {
        reveal(Machine::exec);
        proof {
            lemma_wrapping_byte(self.regs.y, 1);
        }
        let y = self.regs.y.wrapping_add(1);
        self.regs.y = y;
        self.set_zero_neg(y);
    }

    fn tsx(&mut self)
        ensures
            final(self)@ == old(self)@.exec(Instr::Tsx),
    {
        reveal(Machine::exec);
        let sp = self.regs.sp;
        self.regs.x = sp;
        self.set_zero_neg(sp);
    }

    /// The one transfer that sets no flag.
    fn txs(&mut self)
        ensures
            final(self)@ == old(self)@.exec(Instr::Txs),
    {
        reveal(Machine::exec);
        let x = self.regs.x;
        self.regs.sp = x;
    }

    fn pha(&mut self)
        ensures
            final(self)@ == old(self)@.exec(Instr::Pha),
    {
        reveal(Machine::exec);
        let acc = self.regs.acc;
        self.push(acc);
    }

    fn pla(&mut self)
        ensures
            final(self)@ == old(self)@.exec(Instr::Pla),
    {
        reveal(Machine::exec);
        let acc = self.pop();
        self.regs.acc = acc;
        self.set_zero_neg(acc);
    }

    /// Pushes the flags, with break set in the pushed byte.
    fn php(&mut self)
        ensures
            final(self)@ == old(self)@.exec(Instr::Php),
    {
        reveal(Machine::exec);
        proof {
            lemma_force_break(self.regs.flags);
        }
        self.push(self.regs.flags.as_byte() | 0b10000);
    }

    fn plp(&mut self)
        ensures
            final(self)@ == old(self)@.exec(Instr::Plp),
    {
        reveal(Machine::exec);
        self.pull_status();
    }

    /// Runs one instruction and returns what it cost in cycles, or the opcode
    /// that is no instruction.
    pub fn step(&mut self) -> (r: Result<u16, UnsupportedOp>)
        ensures
            (r, final(self)@) == old(self)@.step(),
    {
        self.cycle_count = 0;
        let byte = self.ld8_pc_up();
        proof {
            if decode(byte) is Some {
                lemma_cycles_table(byte);
            }
            lemma_wrapping_addr(0, CYCLES[byte as int] as u16);
        }
        self.cycle_count = self.cycle_count.wrapping_add(CYCLES[byte as usize] as u16);
        match self.execute_op(byte) {
            Ok(()) => {
                let tmp = self.cycle_count;
                self.cycle_count = 0;
                Ok(tmp)
            },
            Err(e) => {
                self.cycle_count = 0;
                Err(e)
            },
        }
    }

    /// Runs the instruction that the opcode `op`, already fetched, selects. A
    /// byte that is no instruction is handed back with the registers and
    /// changes nothing.
    pub fn execute_op(&mut self, op: u8) -> (r: Result<(), UnsupportedOp>)
        ensures
            final(self)@ == old(self)@.execute(op),
            match r {
                Ok(_) => decode(op) is Some,
                Err(e) => decode(op) is None && e == (UnsupportedOp {
                    opcode: op,
                    regs: old(self).regs,
                }),
            },
    {
        match decode_op(op) {
            Some(instr) => {
                self.execute(instr);
                Ok(())
            },
            None => Err(UnsupportedOp { opcode: op, regs: self.regs }),
        }
    }

    /// Runs `instr`, the opcode already fetched.
    fn execute(&mut self, instr: Instr)
        ensures
            final(self)@ == old(self)@.exec(instr),
    {
        proof {
            lemma_run_in_place(self@, instr);
        }
        match instr {
            Instr::Lda(mode) => self.lda(mode),
            Instr::Ldx(mode) => self.ldx(mode),
            Instr::Ldy(mode) => self.ldy(mode),
            Instr::Sta(mode) => self.sta(mode),
            Instr::Stx(mode) => self.stx(mode),
            Instr::Sty(mode) => self.sty(mode),
            Instr::Adc(mode) => self.adc(mode),
            Instr::Sbc(mode) => self.sbc(mode),
            Instr::And(mode) => self.and(mode),
            Instr::Ora(mode) => self.ora(mode),
            Instr::Eor(mode) => self.eor(mode),
            Instr::Bit(mode) => self.bit(mode),
            Instr::Cmp(mode) => self.cmp(mode),
            Instr::Cpx(mode) => self.cpx(mode),
            Instr::Cpy(mode) => self.cpy(mode),
            Instr::Inc(mode) => self.inc(mode),
            Instr::Dec(mode) => self.dec(mode),
            Instr::Asl(mode) => self.asl_addr(mode),
            Instr::Lsr(mode) => self.lsr_addr(mode),
            Instr::Rol(mode) => self.rol_addr(mode),
            Instr::Ror(mode) => self.ror_addr(mode),
            Instr::AslAcc => self.asl_acc(),
            Instr::LsrAcc => self.lsr_acc(),
            Instr::RolAcc => self.rol_acc(),
            Instr::RorAcc => self.ror_acc(),
            Instr::Jmp(mode) => self.jmp(mode),
            Instr::Jsr => self.jsr(),
            Instr::Rts => self.rts(),
            Instr::Rti => self.rti(),
            Instr::Brk => self.brk(),
            Instr::Bvs => {
                let flag = self.regs.flags.overflow;
                self.generic_branch(flag);
            },
            Instr::Bvc => {
                let flag = !self.regs.flags.overflow;
                self.generic_branch(flag);
            },
            Instr::Bmi => {
                let flag = self.regs.flags.neg;
                self.generic_branch(flag);
            },
            Instr::Bpl => {
                let flag = !self.regs.flags.neg;
                self.generic_branch(flag);
            },
            Instr::Bne => {
                let flag = !self.regs.flags.zero;
                self.generic_branch(flag);
            },
            Instr::Beq => {
                let flag = self.regs.flags.zero;
                self.generic_branch(flag);
            },
            Instr::Bcs => {
                let flag = self.regs.flags.carry;
                self.generic_branch(flag);
            },
            Instr::Bcc => {
                let flag = !self.regs.flags.carry;
                self.generic_branch(flag);
            },
            Instr::Sed => self.regs.flags.dec = true,
            Instr::Cld => self.regs.flags.dec = false,
            Instr::Sec => self.regs.flags.carry = true,
            Instr::Clc => self.regs.flags.carry = false,
            Instr::Sei => self.regs.flags.itr = true,
            Instr::Cli => self.regs.flags.itr = false,
            Instr::Clv => self.regs.flags.overflow = false,
            Instr::Tax => self.tax(),
            Instr::Txa => self.txa(),
            Instr::Tay => self.tay(),
            Instr::Tya => self.tya(),
            Instr::Tsx => self.tsx(),
            Instr::Txs => self.txs(),
            Instr::Dex => self.dex(),
            Instr::Inx => self.inx(),
            Instr::Dey => self.dey(),
            Instr::Iny => self.iny(),
            Instr::Pha => self.pha(),
            Instr::Pla => self.pla(),
            Instr::Php => self.php(),
            Instr::Plp => self.plp(),
            Instr::Nop => (),
            Instr::Dop(_) => {
                self.regs.pc.add_signed(1);
            },
            Instr::Top => self.regs.pc.add_signed(2),
            Instr::TopX => {
                let _ = self.address_mem(Mode::AbsX);
            },
            Instr::Aac(mode) => self.aac(mode),
            Instr::Aax(mode) => self.aax(mode),
            Instr::Arr(mode) => self.arr(mode),
            Instr::Alr(mode) => self.alr(mode),
            Instr::Atx => self.atx(),
            Instr::Axs => self.axs(),
            Instr::Lax(mode) => self.lax(mode),
            Instr::Dcp(mode) => self.dcp(mode),
            Instr::Isc(mode) => self.isc(mode),
            Instr::Slo(mode) => self.slo(mode),
            Instr::Rla(mode) => self.rla(mode),
            Instr::Sre(mode) => self.sre(mode),
            Instr::Rra(mode) => self.rra(mode),
            Instr::Sya(mode) => self.sya(mode),
            Instr::Sxa(mode) => self.sxa(mode),
        }
    }
}

/// What the instructions that are run in place, without a method of their
/// own, make of the machine.
proof fn lemma_run_in_place<B: Bus>(m: Machine<B>, instr: Instr)
    ensures
        instr == Instr::Bvs ==> m.exec(instr) == m.branch(m.regs.flags.overflow),
        instr == Instr::Bvc ==> m.exec(instr) == m.branch(!m.regs.flags.overflow),
        instr == Instr::Bmi ==> m.exec(instr) == m.branch(m.regs.flags.neg),
        instr == Instr::Bpl ==> m.exec(instr) == m.branch(!m.regs.flags.neg),
        instr == Instr::Bne ==> m.exec(instr) == m.branch(!m.regs.flags.zero),
        instr == Instr::Beq ==> m.exec(instr) == m.branch(m.regs.flags.zero),
        instr == Instr::Bcs ==> m.exec(instr) == m.branch(m.regs.flags.carry),
        instr == Instr::Bcc ==> m.exec(instr) == m.branch(!m.regs.flags.carry),
        instr == Instr::Sed ==> m.exec(instr) == m.set_flags(Flags { dec: true, ..m.regs.flags }),
        instr == Instr::Cld ==> m.exec(instr) == m.set_flags(Flags { dec: false, ..m.regs.flags }),
        instr == Instr::Sec ==> m.exec(instr) == m.set_flags(
            Flags { carry: true, ..m.regs.flags },
        ),
        instr == Instr::Clc ==> m.exec(instr) == m.set_flags(
            Flags { carry: false, ..m.regs.flags },
        ),
        instr == Instr::Sei ==> m.exec(instr) == m.set_flags(Flags { itr: true, ..m.regs.flags }),
        instr == Instr::Cli ==> m.exec(instr) == m.set_flags(Flags { itr: false, ..m.regs.flags }),
        instr == Instr::Clv ==> m.exec(instr) == m.set_flags(
            Flags { overflow: false, ..m.regs.flags },
        ),
        instr == Instr::Nop ==> m.exec(instr) == m,
        instr is Dop ==> m.exec(instr) == m.skip(1),
        instr == Instr::Top ==> m.exec(instr) == m.skip(2),
        instr == Instr::TopX ==> m.exec(instr) == m.resolve(Mode::AbsX).1,
{
    reveal(Machine::exec);
}

} // verus!
