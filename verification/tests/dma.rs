use nust::bus::Bus;
use nust::cpu::Cpu;

/// What was done on the bus.
#[derive(Debug, PartialEq, Clone, Copy)]
enum Access {
    Load(u16),
    Store(u16, u8),
}

/// 64 KiB of memory that records every access in order.
struct Traced {
    cells: Vec<u8>,
    trace: Vec<Access>,
}

impl Bus for Traced {
    type State = ();

    fn ld8(&mut self, addr: u16) -> u8 {
        self.trace.push(Access::Load(addr));
        self.cells[addr as usize]
    }

    fn store(&mut self, addr: u16, val: u8) {
        self.trace.push(Access::Store(addr, val));
        self.cells[addr as usize] = val;
    }
}

/// A processor about to run `program` at 0x8000, with page 3 holding the
/// bytes 0, 3, 6, ... modulo 256.
fn with_sprites(program: &[u8]) -> Cpu<Traced> {
    let mut cells = vec![0u8; 0x10000];
    for i in 0..256usize {
        cells[0x0300 + i] = (i * 3) as u8;
    }
    for (i, byte) in program.iter().enumerate() {
        cells[0x8000 + i] = *byte;
    }
    cells[0xFFFC] = 0x00;
    cells[0xFFFD] = 0x80;
    let mut cpu = Cpu::new(Traced { cells, trace: Vec::new() });
    cpu.mmu.trace.clear();
    cpu
}

fn expected_copy(page: u16) -> Vec<Access> {
    let mut trace = Vec::new();
    for i in 0..256u16 {
        trace.push(Access::Load(page * 256 + i));
        trace.push(Access::Store(0x2004, if page == 3 { (i * 3) as u8 } else { 0 }));
    }
    trace
}

#[test]
fn dma_on_an_even_count_costs_513_cycles() {
    // STA $4014 with the accumulator 3: base cost 4, even.
    let mut cpu = with_sprites(&[0x8D, 0x14, 0x40]);
    cpu.regs.acc = 0x03;
    let before = cpu.regs;
    assert_eq!(cpu.step(), Ok(4 + 513));
    assert_eq!(cpu.mmu.trace[..3], [Access::Load(0x8000), Access::Load(0x8001), Access::Load(0x8002)]);
    assert_eq!(cpu.mmu.trace[3..], expected_copy(3)[..]);
    assert_eq!(cpu.mmu.trace.len(), 3 + 512);
    // The port itself is not written.
    assert_eq!(cpu.mmu.cells[0x4014], 0);
    assert_eq!(cpu.regs.acc, before.acc);
    assert_eq!(cpu.regs.flags, before.flags);
    assert_eq!(cpu.regs.pc.get_addr(), 0x8003);
    assert_eq!(cpu.cycle_count, 0);
}

#[test]
fn dma_on_an_odd_count_costs_514_cycles() {
    // STA $4000,X with X = 0x14: base cost 5, odd.
    let mut cpu = with_sprites(&[0x9D, 0x00, 0x40]);
    cpu.regs.acc = 0x03;
    cpu.regs.x = 0x14;
    assert_eq!(cpu.step(), Ok(5 + 514));
    assert_eq!(cpu.mmu.trace[3..], expected_copy(3)[..]);
    // STX $14,Y cannot reach the port; STX $4014 costs 4 + 513.
    let mut cpu = with_sprites(&[0x8E, 0x14, 0x40]);
    cpu.regs.x = 0x03;
    assert_eq!(cpu.step(), Ok(4 + 513));
    assert_eq!(cpu.mmu.trace[3..], expected_copy(3)[..]);
}

#[test]
fn dma_parity_is_that_of_the_count_when_the_store_happens() {
    // Through execute_op the count is the caller's.
    for (count, cost) in [(0u16, 513u16), (1, 514), (2, 513), (7, 514)] {
        let mut cpu = with_sprites(&[0x14, 0x40]);
        cpu.regs.acc = 0x03;
        cpu.cycle_count = count;
        assert_eq!(cpu.execute_op(0x8D), Ok(()));
        assert_eq!(cpu.cycle_count, count + cost);
        assert_eq!(cpu.mmu.trace[2..], expected_copy(3)[..]);
    }
}

#[test]
fn dma_copies_the_page_that_the_stored_byte_names() {
    for page in [0x00u8, 0x03, 0x80, 0xFF] {
        let mut cpu = with_sprites(&[0x8D, 0x14, 0x40]);
        cpu.regs.acc = page;
        assert_eq!(cpu.step(), Ok(517));
        let trace = &cpu.mmu.trace[3..];
        assert_eq!(trace.len(), 512);
        for i in 0..256usize {
            let source = (page as u16) * 256 + i as u16;
            assert_eq!(trace[2 * i], Access::Load(source));
            match trace[2 * i + 1] {
                Access::Store(addr, _) => assert_eq!(addr, 0x2004),
                Access::Load(_) => panic!("a load where a store belongs"),
            }
        }
    }
}

#[test]
fn read_modify_write_on_the_port_starts_a_dma() {
    // INC $4014 loads the port, which reads 2 here, and copies page 3.
    let mut cpu = with_sprites(&[0xEE, 0x14, 0x40]);
    cpu.mmu.cells[0x4014] = 0x02;
    assert_eq!(cpu.step(), Ok(6 + 513));
    assert_eq!(cpu.mmu.trace[3], Access::Load(0x4014));
    assert_eq!(cpu.mmu.trace[4..], expected_copy(3)[..]);
    assert!(!cpu.regs.flags.zero);
}

#[test]
fn store_elsewhere_is_a_plain_store() {
    let mut cpu = with_sprites(&[0x8D, 0x15, 0x40, 0x8D, 0x13, 0x40]);
    cpu.regs.acc = 0x03;
    assert_eq!(cpu.step(), Ok(4));
    assert_eq!(cpu.step(), Ok(4));
    assert_eq!(
        cpu.mmu.trace[3..],
        [
            Access::Store(0x4015, 0x03),
            Access::Load(0x8003),
            Access::Load(0x8004),
            Access::Load(0x8005),
            Access::Store(0x4013, 0x03)
        ]
    );
}
