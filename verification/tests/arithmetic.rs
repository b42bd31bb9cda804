use nust::bus::Bus;
use nust::cpu::Cpu;
use nust::flags::Flags;
use nust::mmu::Ram;

/// A processor on a bare RAM whose reset vector points to 0x0200.
fn blank() -> Cpu<Ram> {
    let mut ram = Ram::new();
    ram.store(0x07FC, 0x00);
    ram.store(0x07FD, 0x02);
    Cpu::new(ram)
}

/// Runs the two-byte instruction `op operand` with the given accumulator and
/// carry, and returns the processor after it.
fn run_immediate(cpu: &mut Cpu<Ram>, op: u8, operand: u8, acc: u8, carry: bool) -> u16 {
    cpu.mmu.store(0x0200, op);
    cpu.mmu.store(0x0201, operand);
    cpu.regs.pc.set_addr(0x0200);
    cpu.regs.acc = acc;
    cpu.regs.flags = Flags::from_byte(0x24);
    cpu.regs.flags.carry = carry;
    cpu.step().unwrap()
}

fn as_number(byte: u8) -> i32 {
    byte as i8 as i32
}

#[test]
fn add_with_carry_matches_its_definition_everywhere() {
    let mut cpu = blank();
    for acc in 0..=255u8 {
        for val in 0..=255u8 {
            for carry in [false, true] {
                assert_eq!(run_immediate(&mut cpu, 0x69, val, acc, carry), 2);
                let sum = acc as u32 + val as u32 + carry as u32;
                let signed = as_number(acc) + as_number(val) + carry as i32;
                assert_eq!(cpu.regs.acc, (sum % 256) as u8);
                assert_eq!(cpu.regs.flags.carry, sum > 0xFF);
                assert_eq!(cpu.regs.flags.zero, sum % 256 == 0);
                assert_eq!(cpu.regs.flags.neg, sum % 256 >= 0x80);
                assert_eq!(cpu.regs.flags.overflow, signed < -128 || signed > 127);
                assert!(cpu.regs.flags.itr);
                assert!(cpu.regs.flags.unused);
                assert!(!cpu.regs.flags.dec);
                assert!(!cpu.regs.flags.brk);
            }
        }
    }
}

#[test]
fn subtract_is_add_of_the_complement_everywhere() {
    let mut sub = blank();
    let mut add = blank();
    for acc in 0..=255u8 {
        for val in 0..=255u8 {
            for carry in [false, true] {
                assert_eq!(run_immediate(&mut sub, 0xE9, val, acc, carry), 2);
                assert_eq!(run_immediate(&mut add, 0x69, val ^ 0xFF, acc, carry), 2);
                assert_eq!(sub.regs, add.regs);
                let diff = acc as i32 - val as i32 - (1 - carry as i32);
                assert_eq!(sub.regs.acc, diff.rem_euclid(256) as u8);
                assert_eq!(sub.regs.flags.carry, diff >= 0);
            }
        }
    }
}

#[test]
fn add_examples() {
    let mut cpu = blank();
    // 0x50 + 0x50 = 0xA0: two positives give a negative.
    run_immediate(&mut cpu, 0x69, 0x50, 0x50, false);
    assert_eq!(cpu.regs.acc, 0xA0);
    assert!(cpu.regs.flags.overflow);
    assert!(!cpu.regs.flags.carry);
    assert!(cpu.regs.flags.neg);
    // 0xD0 + 0x90 = 0x160: two negatives give a positive.
    run_immediate(&mut cpu, 0x69, 0x90, 0xD0, false);
    assert_eq!(cpu.regs.acc, 0x60);
    assert!(cpu.regs.flags.overflow);
    assert!(cpu.regs.flags.carry);
    // 0x7F + 0x00 + carry = 0x80.
    run_immediate(&mut cpu, 0x69, 0x00, 0x7F, true);
    assert_eq!(cpu.regs.acc, 0x80);
    assert!(cpu.regs.flags.overflow);
    assert!(!cpu.regs.flags.carry);
}

#[test]
fn subtract_examples() {
    let mut cpu = blank();
    // 0x50 - 0xF0 with carry set: 0x60, borrow, no overflow.
    run_immediate(&mut cpu, 0xE9, 0xF0, 0x50, true);
    assert_eq!(cpu.regs.acc, 0x60);
    assert!(!cpu.regs.flags.carry);
    assert!(!cpu.regs.flags.overflow);
    // 0x50 - 0xB0 with carry set: 0xA0, borrow, overflow.
    run_immediate(&mut cpu, 0xE9, 0xB0, 0x50, true);
    assert_eq!(cpu.regs.acc, 0xA0);
    assert!(!cpu.regs.flags.carry);
    assert!(cpu.regs.flags.overflow);
    // 0x05 - 0x05 with carry clear: 0xFF.
    run_immediate(&mut cpu, 0xE9, 0x05, 0x05, false);
    assert_eq!(cpu.regs.acc, 0xFF);
    assert!(!cpu.regs.flags.carry);
    assert!(cpu.regs.flags.neg);
    // The undocumented opcode 0xEB subtracts as 0xE9 does.
    run_immediate(&mut cpu, 0xEB, 0x01, 0x03, true);
    assert_eq!(cpu.regs.acc, 0x02);
    assert!(cpu.regs.flags.carry);
}

#[test]
fn compare_sets_carry_iff_register_at_least_operand() {
    let mut cpu = blank();
    for reg in 0..=255u8 {
        for val in 0..=255u8 {
            for (op, which) in [(0xC9u8, 0), (0xE0, 1), (0xC0, 2)] {
                cpu.mmu.store(0x0200, op);
                cpu.mmu.store(0x0201, val);
                cpu.regs.pc.set_addr(0x0200);
                cpu.regs.acc = if which == 0 { reg } else { !reg };
                cpu.regs.x = if which == 1 { reg } else { !reg };
                cpu.regs.y = if which == 2 { reg } else { !reg };
                cpu.regs.flags = Flags::from_byte(0x64);
                assert_eq!(cpu.step(), Ok(2));
                assert_eq!(cpu.regs.flags.carry, reg >= val);
                assert_eq!(cpu.regs.flags.zero, reg == val);
                assert_eq!(cpu.regs.flags.neg, reg.wrapping_sub(val) >= 0x80);
                assert!(cpu.regs.flags.overflow);
                assert_eq!(cpu.regs.acc, if which == 0 { reg } else { !reg });
            }
        }
    }
}

#[test]
fn logic_sets_accumulator_zero_and_negative() {
    let mut cpu = blank();
    run_immediate(&mut cpu, 0x29, 0x0F, 0xF0, true);
    assert_eq!(cpu.regs.acc, 0x00);
    assert!(cpu.regs.flags.zero);
    assert!(!cpu.regs.flags.neg);
    assert!(cpu.regs.flags.carry);
    run_immediate(&mut cpu, 0x09, 0x0F, 0xF0, false);
    assert_eq!(cpu.regs.acc, 0xFF);
    assert!(!cpu.regs.flags.zero);
    assert!(cpu.regs.flags.neg);
    run_immediate(&mut cpu, 0x49, 0xFF, 0xF0, false);
    assert_eq!(cpu.regs.acc, 0x0F);
    assert!(!cpu.regs.flags.zero);
    assert!(!cpu.regs.flags.neg);
}

#[test]
fn bit_tests_without_changing_the_accumulator() {
    let mut cpu = blank();
    cpu.mmu.store(0x0200, 0x24);
    cpu.mmu.store(0x0201, 0x10);
    cpu.mmu.store(0x0010, 0xC0);
    cpu.regs.acc = 0x3F;
    assert_eq!(cpu.step(), Ok(3));
    assert_eq!(cpu.regs.acc, 0x3F);
    assert!(cpu.regs.flags.zero);
    assert!(cpu.regs.flags.overflow);
    assert!(cpu.regs.flags.neg);
    cpu.mmu.store(0x0010, 0x01);
    cpu.regs.pc.set_addr(0x0200);
    cpu.regs.acc = 0x01;
    assert_eq!(cpu.step(), Ok(3));
    assert!(!cpu.regs.flags.zero);
    assert!(!cpu.regs.flags.overflow);
    assert!(!cpu.regs.flags.neg);
}

#[test]
fn shifts_and_rotates_of_the_accumulator() {
    let mut cpu = blank();
    for val in 0..=255u8 {
        for carry in [false, true] {
            let c = carry as u8;
            for (op, result, out) in [
                (0x0Au8, val << 1, val & 0x80 != 0),
                (0x4A, val >> 1, val & 1 != 0),
                (0x2A, (val << 1) | c, val & 0x80 != 0),
                (0x6A, (val >> 1) | (c << 7), val & 1 != 0),
            ] {
                cpu.mmu.store(0x0200, op);
                cpu.regs.pc.set_addr(0x0200);
                cpu.regs.acc = val;
                cpu.regs.flags = Flags::from_byte(0x24);
                cpu.regs.flags.carry = carry;
                assert_eq!(cpu.step(), Ok(2));
                assert_eq!(cpu.regs.acc, result);
                assert_eq!(cpu.regs.flags.carry, out);
                assert_eq!(cpu.regs.flags.zero, result == 0);
                assert_eq!(cpu.regs.flags.neg, result >= 0x80);
                assert_eq!(cpu.regs.pc.get_addr(), 0x0201);
            }
        }
    }
}

#[test]
fn shifts_and_rotates_of_memory() {
    let mut cpu = blank();
    for (op, carry, before, after, out) in [
        (0x06u8, false, 0x81u8, 0x02u8, true),
        (0x46, false, 0x81, 0x40, true),
        (0x26, true, 0x81, 0x03, true),
        (0x66, true, 0x81, 0xC0, true),
        (0x66, false, 0x02, 0x01, false),
    ] {
        cpu.mmu.store(0x0200, op);
        cpu.mmu.store(0x0201, 0x10);
        cpu.mmu.store(0x0010, before);
        cpu.regs.pc.set_addr(0x0200);
        cpu.regs.acc = 0x55;
        cpu.regs.flags = Flags::from_byte(0x24);
        cpu.regs.flags.carry = carry;
        assert_eq!(cpu.step(), Ok(5));
        assert_eq!(cpu.mmu.ld8(0x0010), after);
        assert_eq!(cpu.regs.flags.carry, out);
        assert_eq!(cpu.regs.flags.zero, after == 0);
        assert_eq!(cpu.regs.flags.neg, after >= 0x80);
        assert_eq!(cpu.regs.acc, 0x55);
    }
}

#[test]
fn increments_and_decrements_wrap_and_keep_carry() {
    let mut cpu = blank();
    // INC $10 from 0xFF, DEC $10 from 0x00.
    for (op, before, after) in [(0xE6u8, 0xFFu8, 0x00u8), (0xC6, 0x00, 0xFF), (0xE6, 0x7F, 0x80)] {
        for carry in [false, true] {
            cpu.mmu.store(0x0200, op);
            cpu.mmu.store(0x0201, 0x10);
            cpu.mmu.store(0x0010, before);
            cpu.regs.pc.set_addr(0x0200);
            cpu.regs.flags.carry = carry;
            assert_eq!(cpu.step(), Ok(5));
            assert_eq!(cpu.mmu.ld8(0x0010), after);
            assert_eq!(cpu.regs.flags.carry, carry);
            assert_eq!(cpu.regs.flags.zero, after == 0);
            assert_eq!(cpu.regs.flags.neg, after >= 0x80);
        }
    }
    // INX, DEX, INY, DEY.
    for (op, x, y, new_x, new_y) in [
        (0xE8u8, 0xFFu8, 5u8, 0x00u8, 5u8),
        (0xCA, 0x00, 5, 0xFF, 5),
        (0xC8, 5, 0xFF, 5, 0x00),
        (0x88, 5, 0x00, 5, 0xFF),
    ] {
        cpu.mmu.store(0x0200, op);
        cpu.regs.pc.set_addr(0x0200);
        cpu.regs.x = x;
        cpu.regs.y = y;
        cpu.regs.flags.carry = true;
        assert_eq!(cpu.step(), Ok(2));
        assert_eq!(cpu.regs.x, new_x);
        assert_eq!(cpu.regs.y, new_y);
        assert!(cpu.regs.flags.carry);
        let changed = if new_x != x { new_x } else { new_y };
        assert_eq!(cpu.regs.flags.zero, changed == 0);
        assert_eq!(cpu.regs.flags.neg, changed >= 0x80);
    }
}

#[test]
fn transfers_set_flags_except_into_the_stack_pointer() {
    let mut cpu = blank();
    // TAX
    cpu.mmu.store(0x0200, 0xAA);
    cpu.regs.acc = 0x80;
    assert_eq!(cpu.step(), Ok(2));
    assert_eq!(cpu.regs.x, 0x80);
    assert!(cpu.regs.flags.neg);
    // TXS with X = 0 sets no flag.
    cpu.mmu.store(0x0201, 0x9A);
    cpu.regs.x = 0x00;
    assert_eq!(cpu.step(), Ok(2));
    assert_eq!(cpu.regs.sp, 0x00);
    assert!(cpu.regs.flags.neg);
    assert!(!cpu.regs.flags.zero);
    // TSX does.
    cpu.mmu.store(0x0202, 0xBA);
    cpu.regs.x = 0x55;
    assert_eq!(cpu.step(), Ok(2));
    assert_eq!(cpu.regs.x, 0x00);
    assert!(cpu.regs.flags.zero);
    assert!(!cpu.regs.flags.neg);
    // TAY, TYA, TXA.
    cpu.mmu.store(0x0203, 0xA8);
    cpu.mmu.store(0x0204, 0x98);
    cpu.mmu.store(0x0205, 0x8A);
    cpu.regs.acc = 0x12;
    assert_eq!(cpu.step(), Ok(2));
    assert_eq!(cpu.regs.y, 0x12);
    cpu.regs.y = 0x90;
    assert_eq!(cpu.step(), Ok(2));
    assert_eq!(cpu.regs.acc, 0x90);
    assert!(cpu.regs.flags.neg);
    cpu.regs.x = 0x34;
    assert_eq!(cpu.step(), Ok(2));
    assert_eq!(cpu.regs.acc, 0x34);
    assert!(!cpu.regs.flags.neg);
}

#[test]
fn flag_instructions_change_one_flag() {
    let mut cpu = blank();
    for (op, before, after) in [
        (0x38u8, 0x24u8, 0x25u8),
        (0x18, 0x25, 0x24),
        (0xF8, 0x24, 0x2C),
        (0xD8, 0x2C, 0x24),
        (0x78, 0x20, 0x24),
        (0x58, 0x24, 0x20),
        (0xB8, 0x64, 0x24),
        (0xB8, 0xFF, 0xBF),
    ] {
        cpu.mmu.store(0x0200, op);
        cpu.regs.pc.set_addr(0x0200);
        cpu.regs.flags = Flags::from_byte(before);
        assert_eq!(cpu.step(), Ok(2));
        assert_eq!(cpu.regs.flags.as_byte(), after);
    }
}
