//! What holds of every machine, whatever the registers and the bus hold.

use vstd::prelude::*;
use crate::alu::lemma_wrapping_byte;
use crate::alu::low_byte;
use crate::bus::Bus;
use crate::bus::lemma_next_in_page;
use crate::bus::offset_of;
use crate::bus::page_of;
use crate::bus::word;
use crate::flags::Flags;
use crate::flags::law_flags_round_trip;
use crate::flags::law_pushed_flags;
use crate::machine::dma_copy;
use crate::machine::lemma_stack_addr;
use crate::machine::Machine;
use crate::machine::moved_pc_only;
use crate::machine::page_penalty;
use crate::machine::pays_page_cross;
use crate::machine::stack_addr;
use crate::opcode::decode;
use crate::opcode::DMA_ADDR;
use crate::opcode::Instr;
use crate::opcode::IRQ_VEC;
use crate::opcode::Mode;
use crate::opcode::operand_bytes;
use crate::opcode::NMI_VEC;
use crate::opcode::OAM_DATA;
use crate::registers::offset_addr;
use crate::registers::signed;

verus! {

/// Resolving an operand moves the program counter and changes no other
/// register.
pub proof fn lemma_resolve_keeps_registers<B: Bus>(m: Machine<B>, mode: Mode)
    ensures
        moved_pc_only(m.regs, m.resolve(mode).1.regs),
        moved_pc_only(m.regs, m.read(mode).1.regs),
{
    reveal(Machine::resolve);
}

/// A compare sets the carry exactly when the register is at least the
/// operand, and zero exactly when they are equal.
pub proof fn law_compare_carry<B: Bus>(m: Machine<B>, mode: Mode)
    ensures
        m.exec(Instr::Cmp(mode)).regs.flags.carry == (m.regs.acc >= m.read(mode).0),
        m.exec(Instr::Cpx(mode)).regs.flags.carry == (m.regs.x >= m.read(mode).0),
        m.exec(Instr::Cpy(mode)).regs.flags.carry == (m.regs.y >= m.read(mode).0),
        m.exec(Instr::Cmp(mode)).regs.flags.zero == (m.regs.acc == m.read(mode).0),
        m.exec(Instr::Cpx(mode)).regs.flags.zero == (m.regs.x == m.read(mode).0),
        m.exec(Instr::Cpy(mode)).regs.flags.zero == (m.regs.y == m.read(mode).0),
{
    reveal(Machine::exec);
    reveal(Machine::compare_with);
    reveal(low_byte);
}

/// An indexed operand that is read costs exactly one cycle more when the
/// indexed address lies in another page than the address before indexing,
/// and nothing more otherwise. The modes for writing never charge it.
pub proof fn law_page_cross_penalty<B: Bus>(m: Machine<B>, mode: Mode)
    requires
        mode == Mode::AbsX || mode == Mode::AbsY || mode == Mode::IndY || mode == Mode::NoPBAbsX
            || mode == Mode::NoPBAbsY || mode == Mode::NoPBIndY,
    ensures
        ({
            let (base, fetched) = m.pointer(mode);
            let (addr, after) = m.resolve(mode);
            &&& addr == offset_addr(base, m.index(mode) as int)
            &&& fetched.cycles == m.cycles
            &&& after.bus == fetched.bus
            &&& after.regs == fetched.regs
            &&& pays_page_cross(mode) && page_of(addr) != page_of(base) ==> after.cycles
                == offset_addr(m.cycles, 1)
            &&& pays_page_cross(mode) && page_of(addr) == page_of(base) ==> after.cycles
                == m.cycles
            &&& !pays_page_cross(mode) ==> after.cycles == m.cycles
        }),
{
    reveal(Machine::resolve);
    let (base, fetched) = m.pointer(mode);
    crate::registers::lemma_wrapping_addr(base, m.index(mode) as u16);
    crate::registers::lemma_wrapping_addr(m.cycles, 0);
}

/// Resolving an operand moves the program counter past the operand bytes:
/// by two for the modes with a 16-bit operand, by one for the others.
pub proof fn law_resolve_moves_counter<B: Bus>(m: Machine<B>, mode: Mode)
    ensures
        m.resolve(mode).1.regs.pc.0 == offset_addr(m.regs.pc.0, operand_bytes(mode)),
{
    reveal(Machine::resolve);
}

/// No other mode charges anything for resolving the operand.
pub proof fn law_unindexed_modes_cost_nothing<B: Bus>(m: Machine<B>, mode: Mode)
    requires
        mode == Mode::Imm || mode == Mode::ZP || mode == Mode::ZPX || mode == Mode::ZPY || mode
            == Mode::Abs || mode == Mode::JmpIndir || mode == Mode::IndX,
    ensures
        m.resolve(mode).1.cycles == m.cycles,
{
    reveal(Machine::resolve);
}

/// A branch that is not taken costs nothing beyond its base cost. A branch
/// that is taken costs one cycle more, and two where its target lies in
/// another page than the branch instruction's own, the page of its opcode.
/// The machine is taken with the opcode fetched: the program counter stands
/// at the displacement, one past the opcode.
pub proof fn law_branch_cost<B: Bus>(m: Machine<B>, taken: bool)
    ensures
        ({
            let (operand, fetched) = m.fetch();
            let own = offset_addr(m.regs.pc.0, -1);
            let next = offset_addr(m.regs.pc.0, 1);
            let target = offset_addr(next, signed(operand));
            let after = m.branch(taken);
            &&& after.bus == fetched.bus
            &&& !taken ==> after.cycles == m.cycles && after.regs.pc.0 == next
            &&& taken ==> after.regs.pc.0 == target
            &&& taken && page_of(target) == page_of(own) ==> after.cycles == offset_addr(
                m.cycles,
                1,
            )
            &&& taken && page_of(target) != page_of(own) ==> after.cycles == offset_addr(
                m.cycles,
                2,
            )
        }),
{
    reveal(Machine::branch);
    reveal(offset_addr);
}

/// Every branch instruction has a base cost of two cycles, so that within a
/// step a branch costs two, three or four cycles.
pub proof fn law_branch_base_cost(instr: Instr)
    requires
        instr == Instr::Bvs || instr == Instr::Bvc || instr == Instr::Bmi || instr == Instr::Bpl
            || instr == Instr::Bne || instr == Instr::Beq || instr == Instr::Bcs || instr
            == Instr::Bcc,
    ensures
        instr.base_cycles() == 2,
        offset_addr(0, 2) == 2,
        offset_addr(2, 1) == 3,
        offset_addr(2, 2) == 4,
{
    reveal(offset_addr);
}

/// A pointer in the last byte of page zero has its high byte in the first:
/// the fetch wraps to address 0x0000 and never reaches 0x0100. Everywhere
/// else in page zero the high byte follows the low byte.
pub proof fn law_zero_page_pointer_wraps<B: Bus>(m: Machine<B>, ptr: u8)
    ensures
        m.zero_page_word(0xFF).0 == word(
            B::peek(B::after_load(m.bus, 0x0000), 0x00FF),
            B::peek(m.bus, 0x0000),
        ),
        m.zero_page_word(0xFF).1.bus == B::after_load(B::after_load(m.bus, 0x0000), 0x00FF),
        ptr != 0xFF ==> m.zero_page_word(ptr).0 == word(
            B::peek(m.bus, ptr as u16),
            B::peek(B::after_load(m.bus, ptr as u16), (ptr + 1) as u16),
        ),
{
}

/// Both modes that go through page zero fetch their pointer in this way.
pub proof fn law_indirect_modes_use_zero_page<B: Bus>(m: Machine<B>)
    ensures
        m.resolve(Mode::IndX) == m.fetch().1.zero_page_word(
            m.fetch().0.wrapping_add(m.regs.x),
        ),
        m.pointer(Mode::IndY) == m.fetch().1.zero_page_word(m.fetch().0),
        m.pointer(Mode::NoPBIndY) == m.fetch().1.zero_page_word(m.fetch().0),
{
    reveal(Machine::resolve);
}

/// An indirect jump through a pointer whose low byte is 0xFF reads the high
/// byte of its target from the start of the pointer's own page.
pub proof fn law_indirect_jump_wraps<B: Bus>(m: Machine<B>, ptr: u16)
    requires
        offset_of(ptr) == 0xFF,
    ensures
        m.jump_target(ptr).0 == word(
            B::peek(m.bus, ptr),
            B::peek(B::after_load(m.bus, ptr), (ptr - 0xFF) as u16),
        ),
        ptr - 0xFF == page_of(ptr) * 256,
        m.resolve(Mode::JmpIndir) == m.fetch_word().1.jump_target(m.fetch_word().0),
{
    reveal(Machine::resolve);
    lemma_next_in_page(ptr);
    crate::bus::lemma_addr_bytes(ptr);
}

/// A push stores within the stack page and moves the stack pointer down,
/// from 0x00 to 0xFF; a pop moves it up, from 0xFF to 0x00, and loads within
/// the stack page.
pub proof fn law_stack_pointer_wraps<B: Bus>(m: Machine<B>, val: u8)
    ensures
        m.push(val).bus == B::after_store(m.bus, (0x0100 + m.regs.sp) as u16, val),
        m.push(val).regs.sp == if m.regs.sp == 0x00 {
            0xFFu8
        } else {
            (m.regs.sp - 1) as u8
        },
        m.pop().1.regs.sp == if m.regs.sp == 0xFF {
            0x00u8
        } else {
            (m.regs.sp + 1) as u8
        },
        m.pop().0 == B::peek(m.bus, (0x0100 + m.pop().1.regs.sp) as u16),
        page_of(stack_addr(m.regs.sp)) == 1,
        page_of(stack_addr(m.pop().1.regs.sp)) == 1,
{
    reveal(low_byte);
    lemma_stack_addr(m.regs.sp);
    lemma_stack_addr(m.pop().1.regs.sp);
}

/// The status byte that BRK pushes has the break bit set and is the live
/// flags in every other bit; the live flags change in interrupt disable only.
pub proof fn law_brk_pushes_break<B: Bus>(m: Machine<B>)
    ensures
        ({
            let pushed = m.regs.flags.pushed();
            &&& m.exec(Instr::Brk) == m.skip(1).push_pc().push(pushed).set_flags(
                Flags { itr: true, ..m.regs.flags },
            ).jump_through(IRQ_VEC)
            &&& Flags::spec_from_byte(pushed) == (Flags { brk: true, ..m.regs.flags })
        }),
{
    reveal(Machine::exec);
    reveal(Machine::brk);
    law_pushed_flags(m.regs.flags);
}

/// The status byte that a non-maskable interrupt pushes is the live flags,
/// bit for bit, and the live flags stay as they are.
pub proof fn law_nmi_pushes_flags<B: Bus>(m: Machine<B>)
    ensures
        ({
            let pushed = m.regs.flags.spec_as_byte();
            &&& m.nmi() == m.push_pc().push(pushed).jump_through(NMI_VEC)
            &&& Flags::spec_from_byte(pushed) == m.regs.flags
            &&& m.nmi().regs.flags == m.regs.flags
        }),
{
    reveal(Machine::nmi);
    law_flags_round_trip(m.regs.flags);
}

/// Whatever byte RTI pops for the status, the restored flags have unused set
/// and break clear, and take the other six bits from the byte. The same holds
/// of PLP.
pub proof fn law_rti_status<B: Bus>(m: Machine<B>)
    ensures
        m.exec(Instr::Rti).regs.flags == Flags::pulled(m.pop().0),
        m.exec(Instr::Plp).regs.flags == Flags::pulled(m.pop().0),
        Flags::pulled(m.pop().0).unused,
        !Flags::pulled(m.pop().0).brk,
{
    reveal(Machine::exec);
    reveal(Machine::rti);
}

/// A store to the DMA port copies 256 bytes and costs 513 cycles if the cycle
/// count stood even and 514 if it stood odd. It changes no register.
pub proof fn law_dma_cost<B: Bus>(m: Machine<B>, page: u8)
    ensures
        ({
            let after = m.write(DMA_ADDR, page);
            &&& after.bus == dma_copy::<B>(m.bus, page, 256)
            &&& after.regs == m.regs
            &&& m.cycles % 2 == 0 ==> after.cycles == offset_addr(m.cycles, 513)
            &&& m.cycles % 2 == 1 ==> after.cycles == offset_addr(m.cycles, 514)
        }),
{
    reveal(Machine::dma);
}

/// The copy goes byte by byte in ascending order of address: byte `n` of the
/// page is loaded and stored to the sprite memory port after the `n` bytes
/// before it.
pub proof fn law_dma_order<B: Bus>(s: B::State, page: u8, n: nat)
    requires
        n < 256,
    ensures
        ({
            let before = dma_copy::<B>(s, page, n);
            let source = word(n as u8, page);
            dma_copy::<B>(s, page, n + 1) == B::after_store(
                B::after_load(before, source),
                OAM_DATA,
                B::peek(before, source),
            )
        }),
        dma_copy::<B>(s, page, 0) == s,
{
    reveal(word);
}

/// A store to any other address is a store on the bus and costs nothing.
pub proof fn law_plain_store<B: Bus>(m: Machine<B>, addr: u16, val: u8)
    requires
        addr != DMA_ADDR,
    ensures
        m.write(addr, val) == m.set_bus(B::after_store(m.bus, addr, val)),
{
}

/// An instruction that only reads its operand costs, beyond its base cost,
/// what resolving the operand costs, and nothing else.
pub proof fn law_read_cost<B: Bus>(m: Machine<B>, mode: Mode)
    ensures
        m.exec(Instr::Lda(mode)).cycles == m.resolve(mode).1.cycles,
        m.exec(Instr::Ldx(mode)).cycles == m.resolve(mode).1.cycles,
        m.exec(Instr::Ldy(mode)).cycles == m.resolve(mode).1.cycles,
        m.exec(Instr::Lax(mode)).cycles == m.resolve(mode).1.cycles,
        m.exec(Instr::Adc(mode)).cycles == m.resolve(mode).1.cycles,
        m.exec(Instr::Sbc(mode)).cycles == m.resolve(mode).1.cycles,
        m.exec(Instr::And(mode)).cycles == m.resolve(mode).1.cycles,
        m.exec(Instr::Ora(mode)).cycles == m.resolve(mode).1.cycles,
        m.exec(Instr::Eor(mode)).cycles == m.resolve(mode).1.cycles,
        m.exec(Instr::Bit(mode)).cycles == m.resolve(mode).1.cycles,
        m.exec(Instr::Cmp(mode)).cycles == m.resolve(mode).1.cycles,
        m.exec(Instr::Cpx(mode)).cycles == m.resolve(mode).1.cycles,
        m.exec(Instr::Cpy(mode)).cycles == m.resolve(mode).1.cycles,
{
    reveal(Machine::exec);
    reveal(Machine::load_acc);
    reveal(Machine::load_x);
    reveal(Machine::load_y);
    reveal(Machine::load_acc_x);
    reveal(Machine::adc);
    reveal(Machine::sbc);
    reveal(Machine::and);
    reveal(Machine::ora);
    reveal(Machine::eor);
    reveal(Machine::bit);
    reveal(Machine::compare_with);
}

/// A store costs, beyond its base cost, what resolving the operand costs,
/// unless it goes to the DMA port. The stores are decoded with the modes
/// that never charge for a page, so that they cost their base cost exactly.
pub proof fn law_store_cost<B: Bus>(m: Machine<B>, mode: Mode)
    requires
        m.resolve(mode).0 != DMA_ADDR,
    ensures
        m.exec(Instr::Sta(mode)).cycles == m.resolve(mode).1.cycles,
        m.exec(Instr::Stx(mode)).cycles == m.resolve(mode).1.cycles,
        m.exec(Instr::Sty(mode)).cycles == m.resolve(mode).1.cycles,
        m.exec(Instr::Aax(mode)).cycles == m.resolve(mode).1.cycles,
        !pays_page_cross(mode) ==> m.exec(Instr::Sta(mode)).cycles == m.cycles,
{
    reveal(Machine::exec);
    reveal(Machine::store_to);
    reveal(Machine::resolve);
}

/// No store instruction is decoded with a mode that charges for a page.
pub proof fn law_stores_never_pay(op: u8)
    ensures
        decode(op) matches Some(Instr::Sta(mode)) ==> !pays_page_cross(mode),
        decode(op) matches Some(Instr::Stx(mode)) ==> !pays_page_cross(mode),
        decode(op) matches Some(Instr::Sty(mode)) ==> !pays_page_cross(mode),
        decode(op) matches Some(Instr::Aax(mode)) ==> !pays_page_cross(mode),
        decode(op) matches Some(Instr::Sya(mode)) ==> !pays_page_cross(mode),
        decode(op) matches Some(Instr::Sxa(mode)) ==> !pays_page_cross(mode),
{
    reveal(decode);
}

/// Between instructions the cycle count is zero: a step leaves it so whatever
/// it met, and what a step returns is what the instruction charged from zero.
pub proof fn law_step_counts_from_zero<B: Bus>(m: Machine<B>)
    ensures
        m.step().1.cycles == 0,
        m.step() == (Machine { cycles: 0, ..m }).step(),
        ({
            let (op, fetched) = (Machine { cycles: 0, ..m }).fetch();
            match m.step().0 {
                Ok(cost) => decode(op) matches Some(instr) && cost == fetched.charge(
                    instr.base_cycles(),
                ).exec(instr).cycles,
                Err(e) => decode(op) is None && e.opcode == op && e.regs == fetched.regs,
            }
        }),
{
}

/// A store by an instruction changes no register, whether or not it starts a
/// DMA.
pub proof fn lemma_write_keeps_registers<B: Bus>(m: Machine<B>, addr: u16, val: u8)
    ensures
        m.write(addr, val).regs == m.regs,
{
    reveal(Machine::dma);
}

/// Whether the two flags that no instruction drives stand as they should:
/// unused set and break clear.
pub open spec fn flags_in_order(flags: Flags) -> bool {
    flags.unused && !flags.brk
}

/// Unused set and break clear is an invariant of the processor: the flags are
/// so after power-up, and no instruction and no interrupt changes either.
pub proof fn law_unused_and_break_stand<B: Bus>(m: Machine<B>, instr: Instr)
    requires
        flags_in_order(m.regs.flags),
    ensures
        flags_in_order(m.exec(instr).regs.flags),
        flags_in_order(m.nmi().regs.flags),
        flags_in_order(Flags::power_up()),
{
    reveal(Machine::nmi);
    match instr {
        Instr::Lda(mode) | Instr::Ldx(mode) | Instr::Ldy(mode) | Instr::Lax(mode) => {
            lemma_loads_keep_order(m, mode);
        },
        Instr::Sta(mode) | Instr::Stx(mode) | Instr::Sty(mode) | Instr::Aax(mode)
        | Instr::Sya(mode) | Instr::Sxa(mode) => {
            lemma_stores_keep_order(m, mode);
        },
        Instr::Adc(mode) | Instr::Sbc(mode) | Instr::And(mode) | Instr::Ora(mode)
        | Instr::Eor(mode) | Instr::Bit(mode) | Instr::Cmp(mode) | Instr::Cpx(mode)
        | Instr::Cpy(mode) | Instr::Aac(mode) | Instr::Arr(mode) | Instr::Alr(mode) => {
            lemma_arithmetic_keeps_order(m, mode);
        },
        Instr::Inc(mode) | Instr::Dec(mode) | Instr::Asl(mode) | Instr::Lsr(mode)
        | Instr::Rol(mode) | Instr::Ror(mode) => {
            lemma_modify_keeps_order(m, mode);
        },
        Instr::Dcp(mode) | Instr::Isc(mode) | Instr::Slo(mode) | Instr::Rla(mode)
        | Instr::Sre(mode) | Instr::Rra(mode) => {
            lemma_combined_keep_order(m, mode);
        },
        Instr::Jmp(mode) => {
            lemma_flow_keeps_order(m, mode);
        },
        Instr::Jsr | Instr::Rts | Instr::Rti | Instr::Brk | Instr::Bvs | Instr::Bvc | Instr::Bmi
        | Instr::Bpl | Instr::Bne | Instr::Beq | Instr::Bcs | Instr::Bcc | Instr::TopX
        | Instr::Atx | Instr::Axs => {
            lemma_flow_keeps_order(m, Mode::Abs);
        },
        _ => {
            reveal(Machine::exec);
        },
    }
}

/// Incrementing and decrementing, in memory or in a register, wraps modulo
/// 256 and never touches the carry.
pub proof fn law_steps_keep_carry<B: Bus>(m: Machine<B>, mode: Mode)
    ensures
        m.exec(Instr::Inc(mode)).regs.flags.carry == m.regs.flags.carry,
        m.exec(Instr::Dec(mode)).regs.flags.carry == m.regs.flags.carry,
        m.exec(Instr::Inx).regs.flags.carry == m.regs.flags.carry,
        m.exec(Instr::Dex).regs.flags.carry == m.regs.flags.carry,
        m.exec(Instr::Iny).regs.flags.carry == m.regs.flags.carry,
        m.exec(Instr::Dey).regs.flags.carry == m.regs.flags.carry,
        m.exec(Instr::Inx).regs.x == if m.regs.x == 0xFF {
            0u8
        } else {
            (m.regs.x + 1) as u8
        },
        m.exec(Instr::Dey).regs.y == if m.regs.y == 0x00 {
            0xFFu8
        } else {
            (m.regs.y - 1) as u8
        },
{
    reveal(Machine::exec);
    reveal(Machine::step_memory);
    lemma_resolve_keeps_registers(m, mode);
    lemma_wrapping_byte(m.regs.x, 1);
    lemma_wrapping_byte(m.regs.y, 1);
    assert forall|after: Machine<B>, addr: u16, val: u8| #[trigger]
        after.write(addr, val).regs == after.regs by {
        lemma_write_keeps_registers(after, addr, val);
    }
}

/// Jumps, calls and returns from calls have no effect on any flag, and
/// neither has a branch.
pub proof fn law_jumps_keep_flags<B: Bus>(m: Machine<B>, mode: Mode, taken: bool)
    ensures
        m.exec(Instr::Jmp(mode)).regs.flags == m.regs.flags,
        m.exec(Instr::Jsr).regs.flags == m.regs.flags,
        m.exec(Instr::Rts).regs.flags == m.regs.flags,
        m.branch(taken).regs.flags == m.regs.flags,
{
    reveal(Machine::exec);
    reveal(Machine::jmp);
    reveal(Machine::jsr);
    reveal(Machine::rts);
    reveal(Machine::branch);
    lemma_resolve_keeps_registers(m, mode);
    lemma_resolve_keeps_registers(m, Mode::Abs);
}

proof fn lemma_loads_keep_order<B: Bus>(m: Machine<B>, mode: Mode)
    requires
        flags_in_order(m.regs.flags),
    ensures
        flags_in_order(m.exec(Instr::Lda(mode)).regs.flags),
        flags_in_order(m.exec(Instr::Ldx(mode)).regs.flags),
        flags_in_order(m.exec(Instr::Ldy(mode)).regs.flags),
        flags_in_order(m.exec(Instr::Lax(mode)).regs.flags),
{
    reveal(Machine::exec);
    reveal(Machine::load_acc);
    reveal(Machine::load_x);
    reveal(Machine::load_y);
    reveal(Machine::load_acc_x);
    lemma_resolve_keeps_registers(m, mode);
}

proof fn lemma_stores_keep_order<B: Bus>(m: Machine<B>, mode: Mode)
    requires
        flags_in_order(m.regs.flags),
    ensures
        flags_in_order(m.exec(Instr::Sta(mode)).regs.flags),
        flags_in_order(m.exec(Instr::Stx(mode)).regs.flags),
        flags_in_order(m.exec(Instr::Sty(mode)).regs.flags),
        flags_in_order(m.exec(Instr::Aax(mode)).regs.flags),
        flags_in_order(m.exec(Instr::Sya(mode)).regs.flags),
        flags_in_order(m.exec(Instr::Sxa(mode)).regs.flags),
{
    reveal(Machine::exec);
    reveal(Machine::store_to);
    reveal(Machine::store_high_and);
    reveal(Machine::dma);
    lemma_resolve_keeps_registers(m, mode);
}

proof fn lemma_arithmetic_keeps_order<B: Bus>(m: Machine<B>, mode: Mode)
    requires
        flags_in_order(m.regs.flags),
    ensures
        flags_in_order(m.exec(Instr::Adc(mode)).regs.flags),
        flags_in_order(m.exec(Instr::Sbc(mode)).regs.flags),
        flags_in_order(m.exec(Instr::And(mode)).regs.flags),
        flags_in_order(m.exec(Instr::Ora(mode)).regs.flags),
        flags_in_order(m.exec(Instr::Eor(mode)).regs.flags),
        flags_in_order(m.exec(Instr::Bit(mode)).regs.flags),
        flags_in_order(m.exec(Instr::Cmp(mode)).regs.flags),
        flags_in_order(m.exec(Instr::Cpx(mode)).regs.flags),
        flags_in_order(m.exec(Instr::Cpy(mode)).regs.flags),
        flags_in_order(m.exec(Instr::Aac(mode)).regs.flags),
        flags_in_order(m.exec(Instr::Arr(mode)).regs.flags),
        flags_in_order(m.exec(Instr::Alr(mode)).regs.flags),
{
    reveal(Machine::exec);
    reveal(Machine::adc);
    reveal(Machine::sbc);
    reveal(Machine::and);
    reveal(Machine::ora);
    reveal(Machine::eor);
    reveal(Machine::bit);
    reveal(Machine::compare_with);
    reveal(Machine::aac);
    reveal(Machine::arr);
    reveal(Machine::alr);
    lemma_resolve_keeps_registers(m, mode);
}

proof fn lemma_modify_keeps_order<B: Bus>(m: Machine<B>, mode: Mode)
    requires
        flags_in_order(m.regs.flags),
    ensures
        flags_in_order(m.exec(Instr::Inc(mode)).regs.flags),
        flags_in_order(m.exec(Instr::Dec(mode)).regs.flags),
        flags_in_order(m.exec(Instr::Asl(mode)).regs.flags),
        flags_in_order(m.exec(Instr::Lsr(mode)).regs.flags),
        flags_in_order(m.exec(Instr::Rol(mode)).regs.flags),
        flags_in_order(m.exec(Instr::Ror(mode)).regs.flags),
{
    reveal(Machine::exec);
    reveal(Machine::step_memory);
    reveal(Machine::asl);
    reveal(Machine::lsr);
    reveal(Machine::rol);
    reveal(Machine::ror);
    reveal(Machine::dma);
    lemma_resolve_keeps_registers(m, mode);
}

proof fn lemma_combined_keep_order<B: Bus>(m: Machine<B>, mode: Mode)
    requires
        flags_in_order(m.regs.flags),
    ensures
        flags_in_order(m.exec(Instr::Dcp(mode)).regs.flags),
        flags_in_order(m.exec(Instr::Isc(mode)).regs.flags),
        flags_in_order(m.exec(Instr::Slo(mode)).regs.flags),
        flags_in_order(m.exec(Instr::Rla(mode)).regs.flags),
        flags_in_order(m.exec(Instr::Sre(mode)).regs.flags),
        flags_in_order(m.exec(Instr::Rra(mode)).regs.flags),
{
    reveal(Machine::exec);
    reveal(Machine::step_memory);
    reveal(Machine::dcp);
    reveal(Machine::isc);
    reveal(Machine::slo);
    reveal(Machine::rla);
    reveal(Machine::sre);
    reveal(Machine::rra);
    reveal(Machine::dma);
    lemma_resolve_keeps_registers(m, mode);
}

proof fn lemma_flow_keeps_order<B: Bus>(m: Machine<B>, mode: Mode)
    requires
        flags_in_order(m.regs.flags),
    ensures
        flags_in_order(m.exec(Instr::Jmp(mode)).regs.flags),
        flags_in_order(m.exec(Instr::Jsr).regs.flags),
        flags_in_order(m.exec(Instr::Rts).regs.flags),
        flags_in_order(m.exec(Instr::Rti).regs.flags),
        flags_in_order(m.exec(Instr::Brk).regs.flags),
        flags_in_order(m.exec(Instr::Bvs).regs.flags),
        flags_in_order(m.exec(Instr::Bvc).regs.flags),
        flags_in_order(m.exec(Instr::Bmi).regs.flags),
        flags_in_order(m.exec(Instr::Bpl).regs.flags),
        flags_in_order(m.exec(Instr::Bne).regs.flags),
        flags_in_order(m.exec(Instr::Beq).regs.flags),
        flags_in_order(m.exec(Instr::Bcs).regs.flags),
        flags_in_order(m.exec(Instr::Bcc).regs.flags),
        flags_in_order(m.exec(Instr::TopX).regs.flags),
        flags_in_order(m.exec(Instr::Atx).regs.flags),
        flags_in_order(m.exec(Instr::Axs).regs.flags),
{
    reveal(Machine::exec);
    reveal(Machine::jmp);
    reveal(Machine::jsr);
    reveal(Machine::rts);
    reveal(Machine::rti);
    reveal(Machine::brk);
    reveal(Machine::branch);
    reveal(Machine::load_acc_x);
    reveal(Machine::axs);
    lemma_resolve_keeps_registers(m, mode);
    lemma_resolve_keeps_registers(m, Mode::Abs);
    lemma_resolve_keeps_registers(m, Mode::AbsX);
    lemma_resolve_keeps_registers(m, Mode::Imm);
}

} // verus!
