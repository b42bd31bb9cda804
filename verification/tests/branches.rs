use nust::bus::Bus;
use nust::cpu::Cpu;
use nust::flags::Flags;

/// 64 KiB of plain memory.
struct Plain {
    cells: Vec<u8>,
}

impl Bus for Plain {
    type State = ();

    fn ld8(&mut self, addr: u16) -> u8 {
        self.cells[addr as usize]
    }

    fn store(&mut self, addr: u16, val: u8) {
        self.cells[addr as usize] = val;
    }
}

/// A processor about to run `program`, which lies at `origin`.
fn boot_at(origin: u16, program: &[u8]) -> Cpu<Plain> {
    let mut cells = vec![0u8; 0x10000];
    for (i, byte) in program.iter().enumerate() {
        cells[(origin as usize + i) % 0x10000] = *byte;
    }
    cells[0xFFFC] = origin as u8;
    cells[0xFFFD] = (origin >> 8) as u8;
    Cpu::new(Plain { cells })
}

#[test]
fn branch_not_taken_costs_two_cycles() {
    // BNE with zero set.
    let mut cpu = boot_at(0x8000, &[0xD0, 0x10]);
    cpu.regs.flags.zero = true;
    assert_eq!(cpu.step(), Ok(2));
    assert_eq!(cpu.regs.pc.get_addr(), 0x8002);
}

#[test]
fn branch_taken_costs_three_cycles() {
    let mut cpu = boot_at(0x8000, &[0xD0, 0x10]);
    cpu.regs.flags.zero = false;
    assert_eq!(cpu.step(), Ok(3));
    assert_eq!(cpu.regs.pc.get_addr(), 0x8012);
}

#[test]
fn branch_taken_backwards_within_the_page() {
    let mut cpu = boot_at(0x8010, &[0xD0, 0xF0]);
    assert_eq!(cpu.step(), Ok(3));
    assert_eq!(cpu.regs.pc.get_addr(), 0x8002);
}

#[test]
fn branch_taken_across_a_page_costs_four_cycles() {
    // Forwards: the branch is at 0x80F0, the target at 0x8102.
    let mut cpu = boot_at(0x80F0, &[0xD0, 0x10]);
    assert_eq!(cpu.step(), Ok(4));
    assert_eq!(cpu.regs.pc.get_addr(), 0x8102);
    // Backwards: the branch is at 0x8000, the target at 0x7FF2.
    let mut cpu = boot_at(0x8000, &[0xD0, 0xF0]);
    assert_eq!(cpu.step(), Ok(4));
    assert_eq!(cpu.regs.pc.get_addr(), 0x7FF2);
}

#[test]
fn page_of_a_branch_is_that_of_its_opcode() {
    // The branch lies at 0x02FE and 0x02FF, in page 0x02: a target in page
    // 0x03 is in another page.
    let mut cpu = boot_at(0x02FE, &[0xD0, 0x05]);
    assert_eq!(cpu.step(), Ok(4));
    assert_eq!(cpu.regs.pc.get_addr(), 0x0305);
    // And a target in page 0x02 is in its own.
    let mut cpu = boot_at(0x02FE, &[0xD0, 0xFD]);
    assert_eq!(cpu.step(), Ok(3));
    assert_eq!(cpu.regs.pc.get_addr(), 0x02FD);
    // The opcode in the last byte of a page, the displacement in the next.
    let mut cpu = boot_at(0x80FF, &[0xD0, 0x05]);
    assert_eq!(cpu.step(), Ok(4));
    assert_eq!(cpu.regs.pc.get_addr(), 0x8106);
    let mut cpu = boot_at(0x80FF, &[0xD0, 0xF0]);
    assert_eq!(cpu.step(), Ok(3));
    assert_eq!(cpu.regs.pc.get_addr(), 0x80F1);
    // Not taken, the place makes no difference.
    let mut cpu = boot_at(0x02FE, &[0xD0, 0x05]);
    cpu.regs.flags.zero = true;
    assert_eq!(cpu.step(), Ok(2));
    assert_eq!(cpu.regs.pc.get_addr(), 0x0300);
}

#[test]
fn branch_wraps_around_the_address_space() {
    let mut cpu = boot_at(0xFFF0, &[0xD0, 0x7F]);
    assert_eq!(cpu.step(), Ok(4));
    assert_eq!(cpu.regs.pc.get_addr(), 0x0071);
    let mut cpu = boot_at(0x0000, &[0xD0, 0x80]);
    assert_eq!(cpu.step(), Ok(4));
    assert_eq!(cpu.regs.pc.get_addr(), 0xFF82);
}

#[test]
fn each_branch_tests_its_flag() {
    // (opcode, flags byte with which it is taken, flags byte with which not)
    for (op, taken, not_taken) in [
        (0x10u8, 0x00u8, 0x80u8), // BPL
        (0x30, 0x80, 0x00),       // BMI
        (0x50, 0x00, 0x40),       // BVC
        (0x70, 0x40, 0x00),       // BVS
        (0x90, 0x00, 0x01),       // BCC
        (0xB0, 0x01, 0x00),       // BCS
        (0xD0, 0x00, 0x02),       // BNE
        (0xF0, 0x02, 0x00),       // BEQ
    ] {
        let mut cpu = boot_at(0x8000, &[op, 0x20]);
        cpu.regs.flags = Flags::from_byte(taken);
        assert_eq!(cpu.step(), Ok(3));
        assert_eq!(cpu.regs.pc.get_addr(), 0x8022);
        assert_eq!(cpu.regs.flags.as_byte(), taken);
        let mut cpu = boot_at(0x8000, &[op, 0x20]);
        cpu.regs.flags = Flags::from_byte(not_taken);
        assert_eq!(cpu.step(), Ok(2));
        assert_eq!(cpu.regs.pc.get_addr(), 0x8002);
        // Every other flag set or clear makes no difference.
        let mut cpu = boot_at(0x8000, &[op, 0x20]);
        cpu.regs.flags = Flags::from_byte(!not_taken);
        assert_eq!(cpu.step(), Ok(3));
        let mut cpu = boot_at(0x8000, &[op, 0x20]);
        cpu.regs.flags = Flags::from_byte(!taken);
        assert_eq!(cpu.step(), Ok(2));
    }
}

#[test]
fn no_operation_family() {
    // One byte.
    for op in [0xEAu8, 0x1A, 0x3A, 0x5A, 0x7A, 0xDA, 0xFA] {
        let mut cpu = boot_at(0x8000, &[op]);
        let before = cpu.regs;
        assert_eq!(cpu.step(), Ok(2));
        assert_eq!(cpu.regs.pc.get_addr(), 0x8001);
        assert_eq!(cpu.regs.to_record().flags, before.to_record().flags);
    }
    // Two bytes.
    for (op, cycles) in [
        (0x04u8, 3u16),
        (0x44, 3),
        (0x64, 3),
        (0x14, 4),
        (0x34, 4),
        (0x54, 4),
        (0x74, 4),
        (0xD4, 4),
        (0xF4, 4),
        (0x80, 2),
        (0x82, 2),
        (0x89, 2),
        (0xC2, 2),
        (0xE2, 2),
    ] {
        let mut cpu = boot_at(0x8000, &[op, 0xFF]);
        assert_eq!(cpu.step(), Ok(cycles));
        assert_eq!(cpu.regs.pc.get_addr(), 0x8002);
    }
    // Three bytes.
    let mut cpu = boot_at(0x8000, &[0x0C, 0xFF, 0x12]);
    assert_eq!(cpu.step(), Ok(4));
    assert_eq!(cpu.regs.pc.get_addr(), 0x8003);
    for op in [0x1Cu8, 0x3C, 0x5C, 0x7C, 0xDC, 0xFC] {
        // Indexed by X within the page, and across it.
        let mut cpu = boot_at(0x8000, &[op, 0x00, 0x12, op, 0xFF, 0x12]);
        cpu.regs.x = 0x01;
        let before = cpu.regs;
        assert_eq!(cpu.step(), Ok(4));
        assert_eq!(cpu.regs.pc.get_addr(), 0x8003);
        assert_eq!(cpu.step(), Ok(5));
        assert_eq!(cpu.regs.pc.get_addr(), 0x8006);
        assert_eq!(cpu.regs.acc, before.acc);
        assert_eq!(cpu.regs.flags, before.flags);
    }
}
