use nust::bus::Bus;
use nust::cpu::Cpu;
use nust::machine::UnsupportedOp;
use nust::mmu::Ram;
use nust::registers::Registers;

/// A processor on a bare RAM, with `program` at 0x0200 and the reset vector
/// pointing there.
fn on_ram(program: &[u8]) -> Cpu<Ram> {
    let mut ram = Ram::new();
    for (i, byte) in program.iter().enumerate() {
        ram.store(0x0200 + i as u16, *byte);
    }
    ram.store(0x07FC, 0x00);
    ram.store(0x07FD, 0x02);
    Cpu::new(ram)
}

#[test]
fn power_up_state() {
    let cpu = on_ram(&[]);
    assert_eq!(cpu.regs, Registers::new(0x0200));
    assert_eq!(cpu.regs.acc, 0);
    assert_eq!(cpu.regs.x, 0);
    assert_eq!(cpu.regs.y, 0);
    assert_eq!(cpu.regs.sp, 0xFD);
    assert_eq!(cpu.regs.flags.as_byte(), 0b0010_0100);
    assert_eq!(cpu.regs.pc.get_addr(), 0x0200);
    assert_eq!(cpu.cycle_count, 0);
}

#[test]
fn load_immediate_sets_accumulator() {
    let mut cpu = on_ram(&[0xA9, 0x05]);
    assert_eq!(cpu.step(), Ok(2));
    assert_eq!(cpu.regs.acc, 5);
    assert!(!cpu.regs.flags.zero);
    assert!(!cpu.regs.flags.neg);
    assert_eq!(cpu.regs.pc.get_addr(), 0x0202);
    assert_eq!(cpu.cycle_count, 0);
}

#[test]
fn load_immediate_sets_zero_and_negative() {
    let mut cpu = on_ram(&[0xA9, 0x00, 0xA9, 0x80]);
    assert_eq!(cpu.step(), Ok(2));
    assert!(cpu.regs.flags.zero);
    assert!(!cpu.regs.flags.neg);
    assert_eq!(cpu.step(), Ok(2));
    assert_eq!(cpu.regs.acc, 0x80);
    assert!(!cpu.regs.flags.zero);
    assert!(cpu.regs.flags.neg);
}

#[test]
fn add_immediate_wraps_and_carries() {
    let mut cpu = on_ram(&[0x69, 0xFF]);
    cpu.regs.acc = 0x01;
    cpu.regs.flags.carry = false;
    assert_eq!(cpu.step(), Ok(2));
    assert_eq!(cpu.regs.acc, 0x00);
    assert!(cpu.regs.flags.carry);
    assert!(cpu.regs.flags.zero);
    assert!(!cpu.regs.flags.overflow);
    assert!(!cpu.regs.flags.neg);
}

#[test]
fn jump_absolute_sets_program_counter() {
    let mut cpu = on_ram(&[0x4C, 0x34, 0x12]);
    let flags = cpu.regs.flags;
    assert_eq!(cpu.step(), Ok(3));
    assert_eq!(cpu.regs.pc.get_addr(), 0x1234);
    assert_eq!(cpu.regs.flags, flags);
}

#[test]
fn decrement_then_compare_in_zero_page() {
    let mut cpu = on_ram(&[0xC7, 0x10]);
    cpu.mmu.store(0x0010, 0x43);
    cpu.regs.acc = 0x42;
    assert_eq!(cpu.step(), Ok(5));
    assert_eq!(cpu.mmu.ld8(0x0010), 0x42);
    assert!(cpu.regs.flags.carry);
    assert!(cpu.regs.flags.zero);
    assert!(!cpu.regs.flags.neg);
    assert_eq!(cpu.regs.acc, 0x42);
}

#[test]
fn decrement_then_compare_below_the_operand() {
    let mut cpu = on_ram(&[0xC7, 0x10]);
    cpu.mmu.store(0x0010, 0x00);
    cpu.regs.acc = 0x10;
    assert_eq!(cpu.step(), Ok(5));
    assert_eq!(cpu.mmu.ld8(0x0010), 0xFF);
    // 0x10 - 0xFF borrows: the difference is 0x11.
    assert!(!cpu.regs.flags.carry);
    assert!(!cpu.regs.flags.zero);
    assert!(!cpu.regs.flags.neg);
}

#[test]
fn unsupported_opcode_is_reported_with_registers() {
    let mut cpu = on_ram(&[0x02]);
    cpu.regs.acc = 0x77;
    let before = cpu.regs;
    let r = cpu.step();
    let mut expected = before;
    expected.pc.set_addr(0x0201);
    assert_eq!(r, Err(UnsupportedOp { opcode: 0x02, regs: expected }));
    assert_eq!(cpu.regs, expected);
    assert_eq!(cpu.cycle_count, 0);
}

#[test]
fn execute_op_on_unsupported_opcode_changes_nothing() {
    for op in [0x02u8, 0x12, 0x22, 0x32, 0x42, 0x52, 0x62, 0x72, 0x92, 0xB2, 0xD2, 0xF2, 0x8B,
        0x93, 0x9B, 0x9F, 0xBB]
    {
        let mut cpu = on_ram(&[0xEA]);
        cpu.cycle_count = 3;
        let before = cpu.regs;
        assert_eq!(cpu.execute_op(op), Err(UnsupportedOp { opcode: op, regs: before }));
        assert_eq!(cpu.regs, before);
        assert_eq!(cpu.cycle_count, 3);
    }
}

#[test]
fn execute_op_runs_without_fetching_or_base_cost() {
    let mut cpu = on_ram(&[0x05]);
    // LDA immediate, the opcode handed over: the operand is at the counter.
    assert_eq!(cpu.execute_op(0xA9), Ok(()));
    assert_eq!(cpu.regs.acc, 0x05);
    assert_eq!(cpu.regs.pc.get_addr(), 0x0201);
    assert_eq!(cpu.cycle_count, 0);
}

#[test]
fn step_starts_counting_from_zero() {
    let mut cpu = on_ram(&[0xEA, 0xEA]);
    cpu.cycle_count = 100;
    assert_eq!(cpu.step(), Ok(2));
    assert_eq!(cpu.cycle_count, 0);
    assert_eq!(cpu.step(), Ok(2));
}

#[test]
fn reset_restores_power_up_state() {
    let mut cpu = on_ram(&[0xA9, 0x05, 0x48]);
    assert_eq!(cpu.step(), Ok(2));
    assert_eq!(cpu.step(), Ok(3));
    cpu.cycle_count = 9;
    cpu.reset();
    assert_eq!(cpu.regs, Registers::new(0x0200));
    assert_eq!(cpu.cycle_count, 0);
    // Memory is not touched by a reset.
    assert_eq!(cpu.mmu.ld8(0x01FD), 0x05);
}

#[test]
fn a_short_program_runs_to_its_result() {
    // LDX #3; loop: DEX; BNE loop; STX $10
    let mut cpu = on_ram(&[0xA2, 0x03, 0xCA, 0xD0, 0xFD, 0x86, 0x10]);
    cpu.mmu.store(0x0010, 0xAA);
    let mut total: u32 = 0;
    for _ in 0..8 {
        total += cpu.step().unwrap() as u32;
    }
    assert_eq!(cpu.regs.x, 0);
    assert_eq!(cpu.mmu.ld8(0x0010), 0x00);
    assert_eq!(cpu.regs.pc.get_addr(), 0x0207);
    // 2 + 3 * 2 (DEX) + 3 + 3 + 2 (BNE) + 3 (STX)
    assert_eq!(total, 2 + 6 + 8 + 3);
}
