use nust::bus::Bus;
use nust::cpu::Cpu;

/// 64 KiB of memory that records every access.
struct Memory {
    cells: Vec<u8>,
    loads: Vec<u16>,
    stores: Vec<(u16, u8)>,
}

impl Bus for Memory {
    type State = ();

    fn ld8(&mut self, addr: u16) -> u8 {
        self.loads.push(addr);
        self.cells[addr as usize]
    }

    fn store(&mut self, addr: u16, val: u8) {
        self.stores.push((addr, val));
        self.cells[addr as usize] = val;
    }
}

/// A processor with `program` at 0x8000, about to run it. `data` is put into
/// memory first.
fn boot(program: &[u8], data: &[(u16, u8)]) -> Cpu<Memory> {
    let mut cells = vec![0u8; 0x10000];
    for (addr, val) in data {
        cells[*addr as usize] = *val;
    }
    for (i, byte) in program.iter().enumerate() {
        cells[0x8000 + i] = *byte;
    }
    cells[0xFFFC] = 0x00;
    cells[0xFFFD] = 0x80;
    let mut cpu = Cpu::new(Memory { cells, loads: Vec::new(), stores: Vec::new() });
    cpu.mmu.loads.clear();
    cpu
}

#[test]
fn reset_vector_is_read_low_byte_first() {
    let mut cells = vec![0u8; 0x10000];
    cells[0xFFFC] = 0x34;
    cells[0xFFFD] = 0x12;
    let cpu = Cpu::new(Memory { cells, loads: Vec::new(), stores: Vec::new() });
    assert_eq!(cpu.regs.pc.get_addr(), 0x1234);
    assert_eq!(cpu.mmu.loads, vec![0xFFFC, 0xFFFD]);
}

#[test]
fn immediate_reads_the_byte_after_the_opcode() {
    let mut cpu = boot(&[0xA9, 0x42], &[]);
    assert_eq!(cpu.step(), Ok(2));
    assert_eq!(cpu.regs.acc, 0x42);
    assert_eq!(cpu.mmu.loads, vec![0x8000, 0x8001]);
    assert_eq!(cpu.regs.pc.get_addr(), 0x8002);
}

#[test]
fn zero_page_modes() {
    // LDA $10
    let mut cpu = boot(&[0xA5, 0x10], &[(0x0010, 0x11)]);
    assert_eq!(cpu.step(), Ok(3));
    assert_eq!(cpu.regs.acc, 0x11);
    // LDA $F0,X wraps within page zero.
    let mut cpu = boot(&[0xB5, 0xF0], &[(0x0010, 0x22), (0x0110, 0x99)]);
    cpu.regs.x = 0x20;
    assert_eq!(cpu.step(), Ok(4));
    assert_eq!(cpu.regs.acc, 0x22);
    assert_eq!(cpu.mmu.loads, vec![0x8000, 0x8001, 0x0010]);
    // LDX $F0,Y wraps within page zero.
    let mut cpu = boot(&[0xB6, 0xF0], &[(0x0000, 0x33), (0x0100, 0x99)]);
    cpu.regs.y = 0x10;
    assert_eq!(cpu.step(), Ok(4));
    assert_eq!(cpu.regs.x, 0x33);
}

#[test]
fn absolute_reads_a_little_endian_address() {
    let mut cpu = boot(&[0xAD, 0x34, 0x12], &[(0x1234, 0x44)]);
    assert_eq!(cpu.step(), Ok(4));
    assert_eq!(cpu.regs.acc, 0x44);
    assert_eq!(cpu.mmu.loads, vec![0x8000, 0x8001, 0x8002, 0x1234]);
    assert_eq!(cpu.regs.pc.get_addr(), 0x8003);
}

#[test]
fn indexed_read_within_a_page_costs_nothing_extra() {
    // LDA $1200,X
    let mut cpu = boot(&[0xBD, 0x00, 0x12], &[(0x12FF, 0x55)]);
    cpu.regs.x = 0xFF;
    assert_eq!(cpu.step(), Ok(4));
    assert_eq!(cpu.regs.acc, 0x55);
    // LDA $1200,Y
    let mut cpu = boot(&[0xB9, 0x00, 0x12], &[(0x1201, 0x56)]);
    cpu.regs.y = 0x01;
    assert_eq!(cpu.step(), Ok(4));
    assert_eq!(cpu.regs.acc, 0x56);
}

#[test]
fn indexed_read_across_a_page_costs_one_cycle() {
    // LDA $12FF,X
    let mut cpu = boot(&[0xBD, 0xFF, 0x12], &[(0x1300, 0x57)]);
    cpu.regs.x = 0x01;
    assert_eq!(cpu.step(), Ok(5));
    assert_eq!(cpu.regs.acc, 0x57);
    // LDA $1280,Y
    let mut cpu = boot(&[0xB9, 0x80, 0x12], &[(0x1300, 0x58)]);
    cpu.regs.y = 0x80;
    assert_eq!(cpu.step(), Ok(5));
    assert_eq!(cpu.regs.acc, 0x58);
    // LDX $12FF,Y and LDY $12FF,X
    let mut cpu = boot(&[0xBE, 0xFF, 0x12, 0xBC, 0xFF, 0x12], &[(0x1301, 0x59)]);
    cpu.regs.y = 0x02;
    assert_eq!(cpu.step(), Ok(5));
    assert_eq!(cpu.regs.x, 0x59);
    cpu.regs.x = 0x02;
    assert_eq!(cpu.step(), Ok(5));
    assert_eq!(cpu.regs.y, 0x59);
}

#[test]
fn indexed_address_wraps_past_the_top_of_memory() {
    // LDA $FFFF,X with X = 2 reads 0x0001 and pays for the page.
    let mut cpu = boot(&[0xBD, 0xFF, 0xFF], &[(0x0001, 0x5A)]);
    cpu.regs.x = 0x02;
    assert_eq!(cpu.step(), Ok(5));
    assert_eq!(cpu.regs.acc, 0x5A);
}

#[test]
fn indexed_store_never_pays_for_a_page() {
    // STA $12FF,X; STA $12FF,Y; STA $1200,X
    let mut cpu = boot(&[0x9D, 0xFF, 0x12, 0x99, 0xFF, 0x12, 0x9D, 0x00, 0x12], &[]);
    cpu.regs.acc = 0x77;
    cpu.regs.x = 0x01;
    cpu.regs.y = 0x02;
    assert_eq!(cpu.step(), Ok(5));
    assert_eq!(cpu.step(), Ok(5));
    assert_eq!(cpu.step(), Ok(5));
    assert_eq!(cpu.mmu.stores, vec![(0x1300, 0x77), (0x1301, 0x77), (0x1201, 0x77)]);
}

#[test]
fn indexed_indirect_reads_its_pointer_in_page_zero() {
    // LDA ($20,X) with X = 4: pointer at 0x24.
    let mut cpu = boot(&[0xA1, 0x20], &[(0x0024, 0x34), (0x0025, 0x12), (0x1234, 0x61)]);
    cpu.regs.x = 0x04;
    assert_eq!(cpu.step(), Ok(6));
    assert_eq!(cpu.regs.acc, 0x61);
    assert_eq!(cpu.mmu.loads, vec![0x8000, 0x8001, 0x0024, 0x0025, 0x1234]);
}

#[test]
fn indexed_indirect_pointer_wraps_at_the_end_of_page_zero() {
    // LDA ($FF,X) with X = 0: low byte at 0x00FF, high byte at 0x0000.
    let mut cpu =
        boot(&[0xA1, 0xFF], &[(0x00FF, 0x34), (0x0000, 0x12), (0x0100, 0x99), (0x1234, 0x62)]);
    assert_eq!(cpu.step(), Ok(6));
    assert_eq!(cpu.regs.acc, 0x62);
    // At the wrap the high byte is loaded first.
    assert_eq!(cpu.mmu.loads, vec![0x8000, 0x8001, 0x0000, 0x00FF, 0x1234]);
    // The sum of operand and X wraps too: ($F0,X) with X = 0x0F.
    let mut cpu =
        boot(&[0xA1, 0xF0], &[(0x00FF, 0x34), (0x0000, 0x12), (0x0100, 0x99), (0x1234, 0x63)]);
    cpu.regs.x = 0x0F;
    assert_eq!(cpu.step(), Ok(6));
    assert_eq!(cpu.regs.acc, 0x63);
    // ($F8,X) with X = 0x10 wraps to the pointer at 0x08.
    let mut cpu = boot(&[0xA1, 0xF8], &[(0x0008, 0x00), (0x0009, 0x20), (0x2000, 0x64)]);
    cpu.regs.x = 0x10;
    assert_eq!(cpu.step(), Ok(6));
    assert_eq!(cpu.regs.acc, 0x64);
}

#[test]
fn indirect_indexed_adds_y_to_the_pointer() {
    // LDA ($20),Y
    let mut cpu = boot(&[0xB1, 0x20], &[(0x0020, 0x00), (0x0021, 0x12), (0x1210, 0x65)]);
    cpu.regs.y = 0x10;
    assert_eq!(cpu.step(), Ok(5));
    assert_eq!(cpu.regs.acc, 0x65);
    assert_eq!(cpu.mmu.loads, vec![0x8000, 0x8001, 0x0020, 0x0021, 0x1210]);
}

#[test]
fn indirect_indexed_across_a_page_costs_one_cycle() {
    let mut cpu = boot(&[0xB1, 0x20], &[(0x0020, 0xF0), (0x0021, 0x12), (0x1300, 0x66)]);
    cpu.regs.y = 0x10;
    assert_eq!(cpu.step(), Ok(6));
    assert_eq!(cpu.regs.acc, 0x66);
}

#[test]
fn indirect_indexed_pointer_wraps_at_the_end_of_page_zero() {
    // LDA ($FF),Y: low byte at 0x00FF, high byte at 0x0000.
    let mut cpu =
        boot(&[0xB1, 0xFF], &[(0x00FF, 0x30), (0x0000, 0x12), (0x0100, 0x99), (0x1234, 0x67)]);
    cpu.regs.y = 0x04;
    assert_eq!(cpu.step(), Ok(5));
    assert_eq!(cpu.regs.acc, 0x67);
    assert_eq!(cpu.mmu.loads, vec![0x8000, 0x8001, 0x0000, 0x00FF, 0x1234]);
}

#[test]
fn indirect_indexed_store_never_pays_for_a_page() {
    // STA ($20),Y across a page and within one.
    let mut cpu = boot(&[0x91, 0x20, 0x91, 0x20], &[(0x0020, 0xF0), (0x0021, 0x12)]);
    cpu.regs.acc = 0x78;
    cpu.regs.y = 0x10;
    assert_eq!(cpu.step(), Ok(6));
    cpu.regs.y = 0x01;
    assert_eq!(cpu.step(), Ok(6));
    assert_eq!(cpu.mmu.stores, vec![(0x1300, 0x78), (0x12F1, 0x78)]);
}

#[test]
fn indirect_jump_reads_its_target_through_the_pointer() {
    // JMP ($1280)
    let mut cpu = boot(&[0x6C, 0x80, 0x12], &[(0x1280, 0x78), (0x1281, 0x56)]);
    assert_eq!(cpu.step(), Ok(5));
    assert_eq!(cpu.regs.pc.get_addr(), 0x5678);
    assert_eq!(cpu.mmu.loads, vec![0x8000, 0x8001, 0x8002, 0x1280, 0x1281]);
}

#[test]
fn indirect_jump_pointer_wraps_within_its_page() {
    // JMP ($12FF): high byte from 0x1200, not 0x1300.
    let mut cpu =
        boot(&[0x6C, 0xFF, 0x12], &[(0x12FF, 0x78), (0x1200, 0x56), (0x1300, 0x99)]);
    assert_eq!(cpu.step(), Ok(5));
    assert_eq!(cpu.regs.pc.get_addr(), 0x5678);
    assert_eq!(cpu.mmu.loads, vec![0x8000, 0x8001, 0x8002, 0x12FF, 0x1200]);
    // At the top of memory the pointer wraps to the start of the last page.
    let mut cpu = boot(&[0x6C, 0xFF, 0xFF], &[(0xFFFF, 0x34), (0xFF00, 0x12)]);
    assert_eq!(cpu.step(), Ok(5));
    assert_eq!(cpu.regs.pc.get_addr(), 0x1234);
}

#[test]
fn read_modify_write_indexed_by_x() {
    // INC $12FF,X; DEC $12FF,X; LSR $12FF,X charge for the page.
    for op in [0xFEu8, 0xDE, 0x5E] {
        let mut cpu = boot(&[op, 0xFF, 0x12, op, 0x00, 0x12], &[(0x1300, 0x10), (0x1201, 0x10)]);
        cpu.regs.x = 0x01;
        assert_eq!(cpu.step(), Ok(8));
        assert_eq!(cpu.step(), Ok(7));
        assert_eq!(cpu.mmu.stores.len(), 2);
        assert_eq!(cpu.mmu.stores[0].0, 0x1300);
        assert_eq!(cpu.mmu.stores[1].0, 0x1201);
    }
    // ASL, ROL, ROR $12FF,X do not.
    for op in [0x1Eu8, 0x3E, 0x7E] {
        let mut cpu = boot(&[op, 0xFF, 0x12], &[(0x1300, 0x10)]);
        cpu.regs.x = 0x01;
        assert_eq!(cpu.step(), Ok(7));
        assert_eq!(cpu.mmu.stores.len(), 1);
        assert_eq!(cpu.mmu.stores[0].0, 0x1300);
    }
}

#[test]
fn read_modify_write_loads_once_and_stores_once() {
    // INC $1234
    let mut cpu = boot(&[0xEE, 0x34, 0x12], &[(0x1234, 0x41)]);
    assert_eq!(cpu.step(), Ok(6));
    assert_eq!(cpu.mmu.loads, vec![0x8000, 0x8001, 0x8002, 0x1234]);
    assert_eq!(cpu.mmu.stores, vec![(0x1234, 0x42)]);
}

#[test]
fn word_after_the_last_address_wraps_to_zero() {
    let mut cells = vec![0u8; 0x10000];
    cells[0xFFFF] = 0xCD;
    cells[0x0000] = 0xAB;
    let mut memory = Memory { cells, loads: Vec::new(), stores: Vec::new() };
    assert_eq!(memory.ld16(0xFFFF), 0xABCD);
    assert_eq!(memory.loads, vec![0xFFFF, 0x0000]);
}
