//! The processor as mathematics: the state of the machine and what every
//! operation makes of it.
//!
//! Nothing here runs. The executable processor in [`crate::cpu`] is proved to
//! compute these functions.

use vstd::prelude::*;
use crate::alu::add_with_carry;
use crate::alu::and_rotate_right;
use crate::alu::bit_test;
use crate::alu::compare;
use crate::alu::low_byte;
use crate::alu::rotate_left;
use crate::alu::rotate_right;
use crate::alu::shift_left;
use crate::alu::shift_right;
use crate::alu::subtract_with_carry;
use crate::alu::zero_neg;
use crate::bus::Bus;
use crate::bus::next_in_page;
use crate::bus::offset_of;
use crate::bus::page_of;
use crate::bus::word;
use crate::bus::word_at;
use crate::flags::Flags;
use crate::opcode::decode;
use crate::opcode::DMA_ADDR;
use crate::opcode::Instr;
use crate::opcode::IRQ_VEC;
use crate::opcode::Mode;
use crate::opcode::NMI_VEC;
use crate::opcode::OAM_DATA;
use crate::opcode::RESET_VEC;
use crate::registers::offset_addr;
use crate::registers::ProgramCounter;
use crate::registers::Registers;
use crate::registers::signed;

verus! {

/// An opcode byte that is no instruction, with the registers as they stood
/// when it was met.
#[derive(Clone, Copy, Debug, PartialEq, Eq, Structural)]
pub struct UnsupportedOp {
    pub opcode: u8,
    pub regs: Registers,
}

/// The state of the processor and of the bus it drives.
pub struct Machine<B: Bus> {
    pub regs: Registers,
    /// Cycles charged so far to the instruction under way.
    pub cycles: u16,
    pub bus: B::State,
}

/// The address in the stack page that stack pointer `sp` selects.
pub open spec fn stack_addr(sp: u8) -> u16 {
    (0x100 + sp) as u16
}

/// The stack address, as the processor forms it by setting a bit.
pub proof fn lemma_stack_addr(sp: u8)
    ensures
        sp as u16 | 0x100 == stack_addr(sp),
        stack_addr(sp) != DMA_ADDR,
        page_of(stack_addr(sp)) == 1,
{
    reveal(page_of);
    assert(sp as u16 | 0x100 == 0x100 + sp) by (bit_vector);
}

/// 1 when `base` and `addr` lie in different pages, else 0.
pub open spec fn page_penalty(base: u16, addr: u16) -> int {
    if page_of(base) != page_of(addr) {
        1
    } else {
        0
    }
}

/// The bus after the first `n` bytes of page `page` have been copied, in
/// ascending order of address, to the sprite memory port: each byte is loaded
/// and then stored.
pub open spec fn dma_copy<B: Bus>(s: B::State, page: u8, n: nat) -> B::State
    decreases n,
{
    if n == 0 {
        s
    } else {
        let before = dma_copy::<B>(s, page, (n - 1) as nat);
        let source = (page as int * 256 + n - 1) as u16;
        B::after_store(B::after_load(before, source), OAM_DATA, B::peek(before, source))
    }
}

/// Whether `after` differs from `before` in the program counter at most.
pub open spec fn moved_pc_only(before: Registers, after: Registers) -> bool {
    after == (Registers { pc: after.pc, ..before })
}

/// Whether an operand in `mode` costs a cycle when indexing crosses a page.
pub open spec fn pays_page_cross(mode: Mode) -> bool {
    mode == Mode::AbsX || mode == Mode::AbsY || mode == Mode::IndY
}

impl<B: Bus> Machine<B> {
    pub open spec fn set_regs(self, regs: Registers) -> Self {
        Machine { regs: regs, ..self }
    }

    pub open spec fn set_acc(self, val: u8) -> Self {
        self.set_regs(Registers { acc: val, ..self.regs })
    }

    pub open spec fn set_x(self, val: u8) -> Self {
        self.set_regs(Registers { x: val, ..self.regs })
    }

    pub open spec fn set_y(self, val: u8) -> Self {
        self.set_regs(Registers { y: val, ..self.regs })
    }

    pub open spec fn set_sp(self, val: u8) -> Self {
        self.set_regs(Registers { sp: val, ..self.regs })
    }

    pub open spec fn set_pc(self, addr: u16) -> Self {
        self.set_regs(Registers { pc: ProgramCounter(addr), ..self.regs })
    }

    pub open spec fn set_flags(self, flags: Flags) -> Self {
        self.set_regs(Registers { flags: flags, ..self.regs })
    }

    /// Zero and negative set from `val`.
    pub open spec fn set_zn(self, val: u8) -> Self {
        self.set_flags(zero_neg(self.regs.flags, val))
    }

    pub open spec fn set_bus(self, bus: B::State) -> Self {
        Machine { bus: bus, ..self }
    }

    /// `n` more cycles charged. The count is a 16-bit number and wraps.
    pub open spec fn charge(self, n: int) -> Self {
        Machine { cycles: offset_addr(self.cycles, n), ..self }
    }

    /// The program counter moved by `n`.
    pub open spec fn skip(self, n: int) -> Self {
        self.set_pc(offset_addr(self.regs.pc.0, n))
    }

    /// A load from `addr`: the byte and the machine after.
    pub open spec fn load(self, addr: u16) -> (u8, Self) {
        (B::peek(self.bus, addr), self.set_bus(B::after_load(self.bus, addr)))
    }

    /// A load of the word at `addr`.
    pub open spec fn load_word(self, addr: u16) -> (u16, Self) {
        (word_at::<B>(self.bus, addr).0, self.set_bus(word_at::<B>(self.bus, addr).1))
    }

    /// A plain store, with no regard to the DMA port.
    pub open spec fn put(self, addr: u16, val: u8) -> Self {
        self.set_bus(B::after_store(self.bus, addr, val))
    }

    /// The byte at the program counter, which moves past it.
    pub open spec fn fetch(self) -> (u8, Self) {
        self.skip(1).load(self.regs.pc.0)
    }

    /// The word at the program counter, which moves past it.
    pub open spec fn fetch_word(self) -> (u16, Self) {
        self.skip(2).load_word(self.regs.pc.0)
    }

    /// The word that page zero holds at `ptr`. The pointer does not leave page
    /// zero: at `ptr` 0xFF the high byte comes from address 0x0000, and is
    /// there loaded before the low byte.
    pub open spec fn zero_page_word(self, ptr: u8) -> (u16, Self) {
        if ptr == 0xFF {
            let (hi, m) = self.load(0x0000);
            let (lo, after) = m.load(0x00FF);
            (word(lo, hi), after)
        } else {
            self.load_word(ptr as u16)
        }
    }

    /// The target of an indirect jump through `ptr`. The pointer does not
    /// leave its page: where its low byte is 0xFF the high byte of the target
    /// comes from the start of the same page.
    pub open spec fn jump_target(self, ptr: u16) -> (u16, Self) {
        let (lo, m) = self.load(ptr);
        let (hi, after) = m.load(next_in_page(ptr));
        (word(lo, hi), after)
    }

    /// The index register that `mode` adds.
    pub open spec fn index(self, mode: Mode) -> u8 {
        match mode {
            Mode::ZPX | Mode::AbsX | Mode::NoPBAbsX | Mode::IndX => self.regs.x,
            Mode::ZPY | Mode::AbsY | Mode::NoPBAbsY | Mode::IndY | Mode::NoPBIndY => self.regs.y,
            _ => 0,
        }
    }

    /// For the modes that index a 16-bit address: that address before
    /// indexing, read from the operand bytes or through page zero.
    pub open spec fn pointer(self, mode: Mode) -> (u16, Self) {
        match mode {
            Mode::IndY | Mode::NoPBIndY => {
                let (ptr, m) = self.fetch();
                m.zero_page_word(ptr)
            },
            _ => self.fetch_word(),
        }
    }

    /// `base` plus `index` modulo 65536, with one cycle charged if `penalised`
    /// and the sum lies in another page than `base`.
    pub open spec fn indexed(self, base: u16, index: u8, penalised: bool) -> (u16, Self) {
        let addr = base.wrapping_add(index as u16);
        (
            addr,
            if penalised {
                self.charge(page_penalty(base, addr))
            } else {
                self
            },
        )
    }

    /// The effective address of an operand in `mode`, with the program counter
    /// moved past the operand bytes.
    #[verifier::opaque]
    pub open spec fn resolve(self, mode: Mode) -> (u16, Self) {
        match mode {
            Mode::Imm => (self.regs.pc.0, self.skip(1)),
            Mode::ZP | Mode::ZPX | Mode::ZPY => {
                let (operand, m) = self.fetch();
                (operand.wrapping_add(self.index(mode)) as u16, m)
            },
            Mode::Abs => self.fetch_word(),
            Mode::JmpIndir => {
                let (ptr, m) = self.fetch_word();
                m.jump_target(ptr)
            },
            Mode::IndX => {
                let (operand, m) = self.fetch();
                m.zero_page_word(operand.wrapping_add(self.regs.x))
            },
            _ => {
                let (base, m) = self.pointer(mode);
                m.indexed(base, self.index(mode), pays_page_cross(mode))
            },
        }
    }

    /// The operand in `mode`: its address resolved, then loaded.
    pub open spec fn read(self, mode: Mode) -> (u8, Self) {
        let (addr, m) = self.resolve(mode);
        m.load(addr)
    }

    /// The operand in `mode` with its address, for reading and writing back.
    pub open spec fn read_at(self, mode: Mode) -> (u16, u8, Self) {
        let (addr, m) = self.resolve(mode);
        (addr, m.load(addr).0, m.load(addr).1)
    }

    /// A sprite DMA from page `page`: 513 cycles are charged if the cycle
    /// count stood even and 514 if odd, and 256 bytes are copied.
    #[verifier::opaque]
    pub open spec fn dma(self, page: u8) -> Self {
        self.charge(513 + self.cycles % 2).set_bus(dma_copy::<B>(self.bus, page, 256))
    }

    /// A store by an instruction: a store to the DMA port starts a sprite DMA
    /// instead of reaching the bus.
    pub open spec fn write(self, addr: u16, val: u8) -> Self {
        if addr == DMA_ADDR {
            self.dma(val)
        } else {
            self.put(addr, val)
        }
    }

    /// `val` stored at the stack pointer, which then moves down and wraps from
    /// 0x00 to 0xFF.
    pub open spec fn push(self, val: u8) -> Self {
        self.put(stack_addr(self.regs.sp), val).set_sp(low_byte(self.regs.sp - 1))
    }

    /// The stack pointer moves up, wrapping from 0xFF to 0x00, and the byte it
    /// then selects is loaded.
    pub open spec fn pop(self) -> (u8, Self) {
        let sp = low_byte(self.regs.sp + 1);
        self.set_sp(sp).load(stack_addr(sp))
    }

    /// The program counter pushed, high byte first.
    pub open spec fn push_pc(self) -> Self {
        self.push(page_of(self.regs.pc.0)).push(offset_of(self.regs.pc.0))
    }

    /// The program counter pulled, low byte first.
    pub open spec fn pull_pc(self) -> Self {
        let (lo, m) = self.pop();
        let (hi, after) = m.pop();
        after.set_pc(word(lo, hi))
    }

    /// The flags pulled, with unused forced to 1 and break to 0.
    pub open spec fn pull_status(self) -> Self {
        let (byte, m) = self.pop();
        m.set_flags(Flags::pulled(byte))
    }

    /// The program counter loaded from the vector at `vector`.
    pub open spec fn jump_through(self, vector: u16) -> Self {
        let (addr, m) = self.load_word(vector);
        m.set_pc(addr)
    }

    /// Entry to the non-maskable interrupt: the program counter and the
    /// flags, exactly as they stand, are pushed.
    #[verifier::opaque]
    pub open spec fn nmi(self) -> Self {
        self.push_pc().push(self.regs.flags.spec_as_byte()).jump_through(NMI_VEC)
    }

    /// The software interrupt: the byte after the opcode is skipped, the
    /// program counter and the flags with break set are pushed, and interrupts
    /// are disabled.
    #[verifier::opaque]
    pub open spec fn brk(self) -> Self {
        let m = self.skip(1).push_pc().push(self.regs.flags.pushed());
        m.set_flags(Flags { itr: true, ..m.regs.flags }).jump_through(IRQ_VEC)
    }

    /// A branch on `taken`, its opcode already fetched, so that the program
    /// counter stands at the displacement. The displacement is fetched; if
    /// the branch is taken it moves the program counter and costs one cycle,
    /// and one more if the target lies in another page than the branch
    /// instruction itself, that is, than its opcode.
    #[verifier::opaque]
    pub open spec fn branch(self, taken: bool) -> Self {
        let (operand, m) = self.fetch();
        if taken {
            let own = offset_addr(self.regs.pc.0, -1);
            let target = offset_addr(m.regs.pc.0, signed(operand));
            m.set_pc(target).charge(1).charge(page_penalty(own, target))
        } else {
            m
        }
    }

    #[verifier::opaque]
    pub open spec fn load_acc(self, mode: Mode) -> Self {
        let (val, m) = self.read(mode);
        m.set_acc(val).set_zn(val)
    }

    #[verifier::opaque]
    pub open spec fn load_x(self, mode: Mode) -> Self {
        let (val, m) = self.read(mode);
        m.set_x(val).set_zn(val)
    }

    #[verifier::opaque]
    pub open spec fn load_y(self, mode: Mode) -> Self {
        let (val, m) = self.read(mode);
        m.set_y(val).set_zn(val)
    }

    #[verifier::opaque]
    pub open spec fn load_acc_x(self, mode: Mode) -> Self {
        let (val, m) = self.read(mode);
        m.set_acc(val).set_x(val).set_zn(val)
    }

    /// `val` written to the operand in `mode`.
    #[verifier::opaque]
    pub open spec fn store_to(self, mode: Mode, val: u8) -> Self {
        let (addr, m) = self.resolve(mode);
        m.write(addr, val)
    }

    /// The accumulator replaced by `result`, with zero and negative from it.
    pub open spec fn logic(self, result: u8) -> Self {
        self.set_zn(result).set_acc(result)
    }

    /// The accumulator and flags replaced by the outcome of an addition or
    /// subtraction.
    pub open spec fn arith(self, outcome: (u8, Flags)) -> Self {
        self.set_flags(outcome.1).set_acc(outcome.0)
    }

    #[verifier::opaque]
    pub open spec fn adc(self, mode: Mode) -> Self {
        let (val, m) = self.read(mode);
        m.arith(add_with_carry(m.regs.acc, val, m.regs.flags))
    }

    #[verifier::opaque]
    pub open spec fn sbc(self, mode: Mode) -> Self {
        let (val, m) = self.read(mode);
        m.arith(subtract_with_carry(m.regs.acc, val, m.regs.flags))
    }

    #[verifier::opaque]
    pub open spec fn and(self, mode: Mode) -> Self {
        let (val, m) = self.read(mode);
        m.logic(m.regs.acc & val)
    }

    #[verifier::opaque]
    pub open spec fn ora(self, mode: Mode) -> Self {
        let (val, m) = self.read(mode);
        m.logic(m.regs.acc | val)
    }

    #[verifier::opaque]
    pub open spec fn eor(self, mode: Mode) -> Self {
        let (val, m) = self.read(mode);
        m.logic(m.regs.acc ^ val)
    }

    #[verifier::opaque]
    pub open spec fn bit(self, mode: Mode) -> Self {
        let (val, m) = self.read(mode);
        m.set_flags(bit_test(m.regs.acc, val, m.regs.flags))
    }

    /// The register value `reg` compared with the operand in `mode`.
    #[verifier::opaque]
    pub open spec fn compare_with(self, reg: u8, mode: Mode) -> Self {
        let (val, m) = self.read(mode);
        m.set_flags(compare(reg, val, m.regs.flags))
    }

    /// The operand in `mode` replaced by `change` of it, with zero and
    /// negative from the new value.
    #[verifier::opaque]
    pub open spec fn step_memory(self, mode: Mode, change: int) -> Self {
        let (addr, val, m) = self.read_at(mode);
        let new = low_byte(val + change);
        m.set_zn(new).write(addr, new)
    }

    /// Carry set to `shifted.1`, zero and negative from `shifted.0`.
    pub open spec fn shift_flags(self, shifted: (u8, bool)) -> Self {
        self.set_flags(zero_neg(Flags { carry: shifted.1, ..self.regs.flags }, shifted.0))
    }

    /// The accumulator replaced by the outcome of a shift or rotate.
    pub open spec fn shift_acc(self, shifted: (u8, bool)) -> Self {
        self.shift_flags(shifted).set_acc(shifted.0)
    }

    /// The byte at `addr` replaced by the outcome of a shift or rotate.
    pub open spec fn shift_memory(self, addr: u16, shifted: (u8, bool)) -> Self {
        self.shift_flags(shifted).write(addr, shifted.0)
    }

    #[verifier::opaque]
    pub open spec fn asl(self, mode: Mode) -> Self {
        let (addr, val, m) = self.read_at(mode);
        m.shift_memory(addr, shift_left(val))
    }

    #[verifier::opaque]
    pub open spec fn lsr(self, mode: Mode) -> Self {
        let (addr, val, m) = self.read_at(mode);
        m.shift_memory(addr, shift_right(val))
    }

    #[verifier::opaque]
    pub open spec fn rol(self, mode: Mode) -> Self {
        let (addr, val, m) = self.read_at(mode);
        m.shift_memory(addr, rotate_left(m.regs.flags.carry, val))
    }

    #[verifier::opaque]
    pub open spec fn ror(self, mode: Mode) -> Self {
        let (addr, val, m) = self.read_at(mode);
        m.shift_memory(addr, rotate_right(m.regs.flags.carry, val))
    }

    /// The operand jumped to.
    #[verifier::opaque]
    pub open spec fn jmp(self, mode: Mode) -> Self {
        let (addr, m) = self.resolve(mode);
        m.set_pc(addr)
    }

    /// Call: the address of the last byte of the instruction is pushed, and
    /// the operand jumped to.
    #[verifier::opaque]
    pub open spec fn jsr(self) -> Self {
        let (addr, m) = self.resolve(Mode::Abs);
        m.skip(-1).push_pc().set_pc(addr)
    }

    /// Return: the address pulled, plus one.
    #[verifier::opaque]
    pub open spec fn rts(self) -> Self {
        self.pull_pc().skip(1)
    }

    /// Return from interrupt: the flags pulled, then the program counter.
    #[verifier::opaque]
    pub open spec fn rti(self) -> Self {
        self.pull_status().pull_pc()
    }

    /// AND, with carry then copied from negative.
    #[verifier::opaque]
    pub open spec fn aac(self, mode: Mode) -> Self {
        let (val, m) = self.read(mode);
        let result = m.regs.acc & val;
        m.set_acc(result).set_flags(
            Flags { carry: result >= 128, ..zero_neg(m.regs.flags, result) },
        )
    }

    #[verifier::opaque]
    pub open spec fn arr(self, mode: Mode) -> Self {
        let (val, m) = self.read(mode);
        m.arith(and_rotate_right(m.regs.acc, val, m.regs.flags))
    }

    #[verifier::opaque]
    pub open spec fn alr(self, mode: Mode) -> Self {
        let (val, m) = self.read(mode);
        m.shift_acc(shift_right(m.regs.acc & val))
    }

    /// X becomes accumulator AND X, minus the immediate operand, with the
    /// flags of a compare.
    #[verifier::opaque]
    pub open spec fn axs(self) -> Self {
        let (val, m) = self.read(Mode::Imm);
        let left = m.regs.x & m.regs.acc;
        m.set_flags(compare(left, val, m.regs.flags)).set_x(low_byte(left - val))
    }

    /// The operand decremented in memory as by a decrement, then compared
    /// with the accumulator.
    #[verifier::opaque]
    pub open spec fn dcp(self, mode: Mode) -> Self {
        let new = low_byte(self.read_at(mode).1 - 1);
        let stored = self.step_memory(mode, -1);
        stored.set_flags(compare(stored.regs.acc, new, stored.regs.flags))
    }

    /// The operand incremented in memory as by an increment, then subtracted
    /// from the accumulator.
    #[verifier::opaque]
    pub open spec fn isc(self, mode: Mode) -> Self {
        let new = low_byte(self.read_at(mode).1 + 1);
        let stored = self.step_memory(mode, 1);
        stored.arith(subtract_with_carry(stored.regs.acc, new, stored.regs.flags))
    }

    /// The operand `shifted` in memory, with carry from the shift, then
    /// combined into the accumulator as `combined`.
    pub open spec fn shift_then(self, addr: u16, shifted: (u8, bool), combined: u8) -> Self {
        self.set_flags(Flags { carry: shifted.1, ..self.regs.flags }).write(addr, shifted.0).logic(
            combined,
        )
    }

    #[verifier::opaque]
    pub open spec fn slo(self, mode: Mode) -> Self {
        let (addr, val, m) = self.read_at(mode);
        m.shift_then(addr, shift_left(val), m.regs.acc | shift_left(val).0)
    }

    #[verifier::opaque]
    pub open spec fn rla(self, mode: Mode) -> Self {
        let (addr, val, m) = self.read_at(mode);
        let rotated = rotate_left(m.regs.flags.carry, val);
        m.shift_then(addr, rotated, m.regs.acc & rotated.0)
    }

    #[verifier::opaque]
    pub open spec fn sre(self, mode: Mode) -> Self {
        let (addr, val, m) = self.read_at(mode);
        m.shift_then(addr, shift_right(val), m.regs.acc ^ shift_right(val).0)
    }

    /// The operand rotated right in memory, then added to the accumulator
    /// with the carry that the rotate left.
    #[verifier::opaque]
    pub open spec fn rra(self, mode: Mode) -> Self {
        let (addr, val, m) = self.read_at(mode);
        let rotated = rotate_right(m.regs.flags.carry, val);
        let stored = m.shift_memory(addr, rotated);
        stored.arith(add_with_carry(stored.regs.acc, rotated.0, stored.regs.flags))
    }

    /// Store of `reg` AND the high byte of the address plus one. Where adding
    /// `index` crossed a page, the address itself is first reduced to its
    /// high byte AND `reg`.
    #[verifier::opaque]
    pub open spec fn store_high_and(self, mode: Mode, reg: u8, index: u8) -> Self {
        let (resolved, m) = self.resolve(mode);
        let addr = if page_of(resolved) != page_of(offset_addr(resolved, -(index as int))) {
            resolved & word(0, reg)
        } else {
            resolved
        };
        m.write(addr, reg & page_of(addr).wrapping_add(1))
    }

    /// What `instr` makes of the machine, the opcode already fetched.
    #[verifier::opaque]
    pub open spec fn exec(self, instr: Instr) -> Self {
        match instr {
            Instr::Lda(mode) => self.load_acc(mode),
            Instr::Ldx(mode) => self.load_x(mode),
            Instr::Ldy(mode) => self.load_y(mode),
            Instr::Lax(mode) => self.load_acc_x(mode),
            Instr::Atx => self.load_acc_x(Mode::Imm),
            Instr::Sta(mode) => self.store_to(mode, self.regs.acc),
            Instr::Stx(mode) => self.store_to(mode, self.regs.x),
            Instr::Sty(mode) => self.store_to(mode, self.regs.y),
            Instr::Aax(mode) => self.store_to(mode, self.regs.acc & self.regs.x),
            Instr::Sya(mode) => self.store_high_and(mode, self.regs.y, self.regs.x),
            Instr::Sxa(mode) => self.store_high_and(mode, self.regs.x, self.regs.y),
            Instr::Adc(mode) => self.adc(mode),
            Instr::Sbc(mode) => self.sbc(mode),
            Instr::And(mode) => self.and(mode),
            Instr::Ora(mode) => self.ora(mode),
            Instr::Eor(mode) => self.eor(mode),
            Instr::Bit(mode) => self.bit(mode),
            Instr::Cmp(mode) => self.compare_with(self.regs.acc, mode),
            Instr::Cpx(mode) => self.compare_with(self.regs.x, mode),
            Instr::Cpy(mode) => self.compare_with(self.regs.y, mode),
            Instr::Inc(mode) => self.step_memory(mode, 1),
            Instr::Dec(mode) => self.step_memory(mode, -1),
            Instr::Asl(mode) => self.asl(mode),
            Instr::Lsr(mode) => self.lsr(mode),
            Instr::Rol(mode) => self.rol(mode),
            Instr::Ror(mode) => self.ror(mode),
            Instr::AslAcc => self.shift_acc(shift_left(self.regs.acc)),
            Instr::LsrAcc => self.shift_acc(shift_right(self.regs.acc)),
            Instr::RolAcc => self.shift_acc(rotate_left(self.regs.flags.carry, self.regs.acc)),
            Instr::RorAcc => self.shift_acc(rotate_right(self.regs.flags.carry, self.regs.acc)),
            Instr::Jmp(mode) => self.jmp(mode),
            Instr::Jsr => self.jsr(),
            Instr::Rts => self.rts(),
            Instr::Rti => self.rti(),
            Instr::Brk => self.brk(),
            Instr::Bvs => self.branch(self.regs.flags.overflow),
            Instr::Bvc => self.branch(!self.regs.flags.overflow),
            Instr::Bmi => self.branch(self.regs.flags.neg),
            Instr::Bpl => self.branch(!self.regs.flags.neg),
            Instr::Bne => self.branch(!self.regs.flags.zero),
            Instr::Beq => self.branch(self.regs.flags.zero),
            Instr::Bcs => self.branch(self.regs.flags.carry),
            Instr::Bcc => self.branch(!self.regs.flags.carry),
            Instr::Sed => self.set_flags(Flags { dec: true, ..self.regs.flags }),
            Instr::Cld => self.set_flags(Flags { dec: false, ..self.regs.flags }),
            Instr::Sec => self.set_flags(Flags { carry: true, ..self.regs.flags }),
            Instr::Clc => self.set_flags(Flags { carry: false, ..self.regs.flags }),
            Instr::Sei => self.set_flags(Flags { itr: true, ..self.regs.flags }),
            Instr::Cli => self.set_flags(Flags { itr: false, ..self.regs.flags }),
            Instr::Clv => self.set_flags(Flags { overflow: false, ..self.regs.flags }),
            Instr::Tax => self.set_x(self.regs.acc).set_zn(self.regs.acc),
            Instr::Txa => self.set_acc(self.regs.x).set_zn(self.regs.x),
            Instr::Tay => self.set_y(self.regs.acc).set_zn(self.regs.acc),
            Instr::Tya => self.set_acc(self.regs.y).set_zn(self.regs.y),
            Instr::Tsx => self.set_x(self.regs.sp).set_zn(self.regs.sp),
            Instr::Txs => self.set_sp(self.regs.x),
            Instr::Dex => self.set_x(low_byte(self.regs.x - 1)).set_zn(low_byte(self.regs.x - 1)),
            Instr::Inx => self.set_x(low_byte(self.regs.x + 1)).set_zn(low_byte(self.regs.x + 1)),
            Instr::Dey => self.set_y(low_byte(self.regs.y - 1)).set_zn(low_byte(self.regs.y - 1)),
            Instr::Iny => self.set_y(low_byte(self.regs.y + 1)).set_zn(low_byte(self.regs.y + 1)),
            Instr::Pha => self.push(self.regs.acc),
            Instr::Pla => {
                let (val, m) = self.pop();
                m.set_acc(val).set_zn(val)
            },
            Instr::Php => self.push(self.regs.flags.pushed()),
            Instr::Plp => self.pull_status(),
            Instr::Nop => self,
            Instr::Dop(_) => self.skip(1),
            Instr::Top => self.skip(2),
            Instr::TopX => self.resolve(Mode::AbsX).1,
            Instr::Aac(mode) => self.aac(mode),
            Instr::Arr(mode) => self.arr(mode),
            Instr::Alr(mode) => self.alr(mode),
            Instr::Axs => self.axs(),
            Instr::Dcp(mode) => self.dcp(mode),
            Instr::Isc(mode) => self.isc(mode),
            Instr::Slo(mode) => self.slo(mode),
            Instr::Rla(mode) => self.rla(mode),
            Instr::Sre(mode) => self.sre(mode),
            Instr::Rra(mode) => self.rra(mode),
        }
    }

    /// What running the opcode `op`, already fetched, makes of the machine.
    /// A byte that is no instruction leaves it as it is.
    pub open spec fn execute(self, op: u8) -> Self {
        match decode(op) {
            Some(instr) => self.exec(instr),
            None => self,
        }
    }

    /// One instruction: the cycle count starts from zero, the opcode is
    /// fetched, its base cost charged and the instruction run. The result is
    /// the total cost, and the count stands at zero again; or it is the byte
    /// that is no instruction.
    pub open spec fn step(self) -> (Result<u16, UnsupportedOp>, Self) {
        let (op, m) = (Machine { cycles: 0, ..self }).fetch();
        match decode(op) {
            Some(instr) => {
                let done = m.charge(instr.base_cycles()).exec(instr);
                (Ok(done.cycles), Machine { cycles: 0, ..done })
            },
            None => (Err(UnsupportedOp { opcode: op, regs: m.regs }), m),
        }
    }

    /// The machine after power-up on a bus in state `bus`: the registers at
    /// their power-up values and the program counter from the reset vector.
    pub open spec fn power_on(bus: B::State) -> Self {
        let (addr, after) = word_at::<B>(bus, RESET_VEC);
        Machine { regs: Registers::power_up(addr), cycles: 0, bus: after }
    }
}

} // verus!
