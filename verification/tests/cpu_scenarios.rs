use mos6502::bus::{BusDevice, GenericRouter, ReadResult};
use mos6502::cpu::{BusAccess, Cpu6502, CpuError};
use mos6502::mem::{AnyDevice, RAMDevice, ROMDevice};
use mos6502::tracer::Tracer;

/// A little machine: 8 KiB of RAM at 0x0000 and a 32 KiB ROM at 0x8000.
fn machine(rom: Vec<u8>) -> (Cpu6502, GenericRouter<AnyDevice>) {
    assert_eq!(rom.len(), 0x8000);
    let tracer = Tracer::new(&Vec::new());
    let cpu = Cpu6502::new(tracer);
    let mut bus: GenericRouter<AnyDevice> = GenericRouter::new();
    bus.add_device(0x0000, 0x0000, 0x2000, AnyDevice::Ram(RAMDevice::new(0x2000)));
    bus.add_device(0x8000, 0x0000, 0x8000, AnyDevice::Rom(ROMDevice::new(rom)));
    (cpu, bus)
}

/// A 32 KiB ROM with `program` at CPU address 0x8000 and the given reset
/// vector.
fn rom_with(program: &[u8], reset_vector: u16) -> Vec<u8> {
    let mut rom = vec![0u8; 0x8000];
    rom[..program.len()].copy_from_slice(program);
    rom[0x7FFC] = (reset_vector & 0xFF) as u8;
    rom[0x7FFD] = (reset_vector >> 8) as u8;
    rom
}

/// Run one cycle, routing the returned access through the bus like a host.
fn step(
    cpu: &mut Cpu6502,
    bus: &mut GenericRouter<AnyDevice>,
    data: &mut u8,
) -> Result<BusAccess, CpuError> {
    let acc = cpu.tick(*data)?;
    match acc {
        BusAccess::Read(addr) => match bus.bus_read(addr as u32).unwrap() {
            ReadResult::Data(value) => *data = value,
            ReadResult::OpenBus => {}
        },
        BusAccess::Write(addr, value) => {
            *data = value;
            bus.bus_write(addr as u32, value).unwrap();
        }
    }
    Ok(acc)
}

fn run(
    cpu: &mut Cpu6502,
    bus: &mut GenericRouter<AnyDevice>,
    data: &mut u8,
    n: usize,
) -> Vec<BusAccess> {
    let mut accesses = Vec::new();
    for _ in 0..n {
        accesses.push(step(cpu, bus, data).unwrap());
    }
    accesses
}

fn read_byte(bus: &mut GenericRouter<AnyDevice>, addr: u32) -> u8 {
    match bus.bus_read(addr).unwrap() {
        ReadResult::Data(v) => v,
        ReadResult::OpenBus => panic!("open bus at 0x{:04X}", addr),
    }
}

#[test]
fn reset_vector_fetch() {
    let rom = rom_with(&[0xA9, 0x42], 0x8000);
    let (mut cpu, mut bus) = machine(rom);
    cpu.reset();
    let mut data = 0u8;
    let accesses = run(&mut cpu, &mut bus, &mut data, 7);
    // Three dummy stack reads while S decrements, the two vector bytes,
    // the first instruction fetch, and the cycle after it.
    assert_eq!(
        accesses,
        vec![
            BusAccess::Read(0x01FF),
            BusAccess::Read(0x01FE),
            BusAccess::Read(0x01FD),
            BusAccess::Read(0xFFFC),
            BusAccess::Read(0xFFFD),
            BusAccess::Read(0x8000),
            BusAccess::Read(0x8001),
        ]
    );
    assert_eq!(cpu.regs().s(), 0xFD);
    assert!(cpu.regs().p().i);
}

#[test]
fn lda_immediate() {
    let rom = rom_with(&[0xA9, 0x42], 0x8000);
    let (mut cpu, mut bus) = machine(rom);
    cpu.reset();
    let mut data = 0u8;
    // 6 reset cycles, the dispatch cycle, and the LDA execute cycle
    run(&mut cpu, &mut bus, &mut data, 8);
    assert_eq!(cpu.regs().a(), 0x42);
    assert!(!cpu.regs().p().n);
    assert!(!cpu.regs().p().z);
}

#[test]
fn zero_page_inc() {
    let rom = rom_with(&[0xE6, 0x10], 0x8000);
    let (mut cpu, mut bus) = machine(rom);
    bus.bus_write(0x0010, 0x7F).unwrap();
    cpu.reset();
    let mut data = 0u8;
    run(&mut cpu, &mut bus, &mut data, 6);
    // dispatch, then the four cycles of the zero-page read-modify-write
    let accesses = run(&mut cpu, &mut bus, &mut data, 5);
    assert_eq!(
        accesses,
        vec![
            BusAccess::Read(0x8001),
            BusAccess::Read(0x0010),
            BusAccess::Write(0x0010, 0x7F),
            BusAccess::Write(0x0010, 0x80),
            BusAccess::Read(0x8002),
        ]
    );
    assert_eq!(read_byte(&mut bus, 0x0010), 0x80);
    assert!(cpu.regs().p().n);
    assert!(!cpu.regs().p().z);
}

#[test]
fn jsr_rts_round_trip() {
    let rom = rom_with(&[0x20, 0x34, 0x12], 0x8000);
    let (mut cpu, mut bus) = machine(rom);
    // RTS at the subroutine target, which lies in RAM
    bus.bus_write(0x1234, 0x60).unwrap();
    cpu.reset();
    let mut data = 0u8;
    run(&mut cpu, &mut bus, &mut data, 6);
    assert_eq!(cpu.regs().s(), 0xFD);
    // dispatch + 5 cycles of JSR
    run(&mut cpu, &mut bus, &mut data, 6);
    assert_eq!(cpu.regs().s(), 0xFB);
    assert_eq!(cpu.get_pc(), 0x1234);
    // return address minus one, high byte then low byte
    assert_eq!(read_byte(&mut bus, 0x01FD), 0x80);
    assert_eq!(read_byte(&mut bus, 0x01FC), 0x02);
    // dispatch + 5 cycles of RTS
    run(&mut cpu, &mut bus, &mut data, 6);
    assert_eq!(cpu.regs().s(), 0xFD);
    assert_eq!(cpu.get_pc(), 0x8003);
}

#[test]
fn branch_taken_and_not_taken() {
    // BNE +16 at 0x80FE with Z clear: taken without a page cross relative
    // to the incremented PC, landing at 0x8110 after 3 cycles
    let mut rom = vec![0u8; 0x8000];
    rom[0x00FE] = 0xD0;
    rom[0x00FF] = 0x10;
    rom[0x7FFC] = 0xFE;
    rom[0x7FFD] = 0x80;
    let (mut cpu, mut bus) = machine(rom);
    cpu.reset();
    let mut data = 0u8;
    run(&mut cpu, &mut bus, &mut data, 6);
    let accesses = run(&mut cpu, &mut bus, &mut data, 3);
    assert_eq!(
        accesses,
        vec![
            BusAccess::Read(0x80FF),
            BusAccess::Read(0x8100),
            BusAccess::Read(0x8110),
        ]
    );
    assert_eq!(cpu.get_pc(), 0x8110);

    // The same program with Z set: not taken, 2 cycles, PC lands at 0x8100
    let mut rom = vec![0u8; 0x8000];
    rom[0x00FE] = 0xD0;
    rom[0x00FF] = 0x10;
    rom[0x7FFC] = 0xFE;
    rom[0x7FFD] = 0x80;
    // Put LDA #$00 at the fall-through to set Z first: instead, drive Z by
    // running INC on a zero-page byte holding 0xFF before the branch.
    rom[0x00FE] = 0xE6;
    rom[0x00FF] = 0x10;
    rom[0x0100] = 0xD0;
    rom[0x0101] = 0x10;
    let (mut cpu, mut bus) = machine(rom);
    bus.bus_write(0x0010, 0xFF).unwrap();
    cpu.reset();
    let mut data = 0u8;
    run(&mut cpu, &mut bus, &mut data, 6);
    // INC wraps 0xFF to 0x00 and sets Z
    run(&mut cpu, &mut bus, &mut data, 5);
    assert!(cpu.regs().p().z);
    // dispatch + the single not-taken cycle
    let accesses = run(&mut cpu, &mut bus, &mut data, 2);
    assert_eq!(accesses, vec![BusAccess::Read(0x8101), BusAccess::Read(0x8102)]);
    assert_eq!(cpu.get_pc(), 0x8102);
}

#[test]
fn branch_taken_with_page_cross() {
    // BNE +0x20 at 0x80F0: the incremented PC is 0x80F2, the target 0x8112
    // crosses into the next page: 4 cycles
    let mut rom = vec![0u8; 0x8000];
    rom[0x00F0] = 0xD0;
    rom[0x00F1] = 0x20;
    rom[0x7FFC] = 0xF0;
    rom[0x7FFD] = 0x80;
    let (mut cpu, mut bus) = machine(rom);
    cpu.reset();
    let mut data = 0u8;
    run(&mut cpu, &mut bus, &mut data, 6);
    let accesses = run(&mut cpu, &mut bus, &mut data, 4);
    assert_eq!(
        accesses,
        vec![
            BusAccess::Read(0x80F1),
            BusAccess::Read(0x80F2),
            // the spurious read at the still-uncorrected address
            BusAccess::Read(0x8012),
            BusAccess::Read(0x8112),
        ]
    );
    assert_eq!(cpu.get_pc(), 0x8112);
}

#[test]
fn absolute_x_read_page_cross_penalty() {
    // LDX #$01; LDA $80FF,X reads 0x8100: page cross costs the fixup cycle
    let rom = rom_with(&[0xA2, 0x01, 0xBD, 0xFF, 0x80], 0x8000);
    let (mut cpu, mut bus) = machine(rom);
    cpu.reset();
    let mut data = 0u8;
    run(&mut cpu, &mut bus, &mut data, 6);
    run(&mut cpu, &mut bus, &mut data, 2); // LDX #$01
    // dispatch + 4 cycles: the read lands on 0x8000 | 0x00 first, then the
    // corrected 0x8100
    let accesses = run(&mut cpu, &mut bus, &mut data, 5);
    assert_eq!(
        accesses,
        vec![
            BusAccess::Read(0x8003),
            BusAccess::Read(0x8004),
            BusAccess::Read(0x8000),
            BusAccess::Read(0x8100),
            BusAccess::Read(0x8005),
        ]
    );

    // LDX #$01; LDA $8000,X: same page, the fixup cycle is skipped
    let rom = rom_with(&[0xA2, 0x01, 0xBD, 0x00, 0x80], 0x8000);
    let (mut cpu, mut bus) = machine(rom);
    cpu.reset();
    let mut data = 0u8;
    run(&mut cpu, &mut bus, &mut data, 6);
    run(&mut cpu, &mut bus, &mut data, 2);
    let accesses = run(&mut cpu, &mut bus, &mut data, 4);
    assert_eq!(
        accesses,
        vec![
            BusAccess::Read(0x8003),
            BusAccess::Read(0x8004),
            BusAccess::Read(0x8001),
            BusAccess::Read(0x8005),
        ]
    );
}

#[test]
fn absolute_x_write_always_pays_fixup() {
    // LDX #$01; STA $00FF,X: writes never skip the correction cycle
    let rom = rom_with(&[0xA2, 0x01, 0x9D, 0xFF, 0x00], 0x8000);
    let (mut cpu, mut bus) = machine(rom);
    cpu.reset();
    let mut data = 0u8;
    run(&mut cpu, &mut bus, &mut data, 6);
    run(&mut cpu, &mut bus, &mut data, 2);
    // dispatch + 4 cycles of the absolute,X write form: 5 in all
    let accesses = run(&mut cpu, &mut bus, &mut data, 5);
    assert_eq!(accesses.len(), 5);
    assert!(matches!(accesses[3], BusAccess::Write(0x0100, _)));
}

#[test]
fn nmi_taken_at_instruction_boundary() {
    // A long instruction (zero-page INC) is in flight when NMI is raised;
    // the NMI vector sequence must begin only after its final cycle.
    let mut rom = rom_with(&[0xE6, 0x10], 0x8000);
    rom[0x7FFA] = 0x00;
    rom[0x7FFB] = 0x90;
    let (mut cpu, mut bus) = machine(rom);
    cpu.reset();
    let mut data = 0u8;
    run(&mut cpu, &mut bus, &mut data, 6);
    // dispatch + first cycle of INC $10
    run(&mut cpu, &mut bus, &mut data, 2);
    cpu.trigger_nmi();
    // the remaining three cycles of INC run undisturbed: no stack pushes
    let accesses = run(&mut cpu, &mut bus, &mut data, 3);
    assert_eq!(
        accesses,
        vec![
            BusAccess::Write(0x0010, 0x00),
            BusAccess::Write(0x0010, 0x01),
            BusAccess::Read(0x8002),
        ]
    );
    // the next tick dispatches, consuming the NMI latch instead of the
    // fetched opcode, and the entry sequence follows: PC and P pushed,
    // then the vector read
    let accesses = run(&mut cpu, &mut bus, &mut data, 7);
    assert_eq!(accesses[0], BusAccess::Read(0x8003));
    assert!(matches!(accesses[1], BusAccess::Write(0x01FD, _)));
    assert!(matches!(accesses[2], BusAccess::Write(0x01FC, _)));
    assert!(matches!(accesses[3], BusAccess::Write(0x01FB, _)));
    assert_eq!(accesses[4], BusAccess::Read(0xFFFA));
    assert_eq!(accesses[5], BusAccess::Read(0xFFFB));
    assert_eq!(accesses[6], BusAccess::Read(0x9000));
    assert_eq!(cpu.get_pc(), 0x9000);
}

#[test]
fn irq_respects_interrupt_disable() {
    // After reset I is set, so an asserted IRQ is ignored at dispatch
    let rom = rom_with(&[0xEA, 0xEA], 0x8000);
    let (mut cpu, mut bus) = machine(rom);
    cpu.reset();
    let mut data = 0u8;
    run(&mut cpu, &mut bus, &mut data, 6);
    cpu.set_irq_signaled(true);
    let accesses = run(&mut cpu, &mut bus, &mut data, 2);
    // NOP dispatch and execute, no interrupt entry
    assert_eq!(accesses, vec![BusAccess::Read(0x8001), BusAccess::Read(0x8001)]);
}

#[test]
fn irq_taken_once_interrupts_enabled() {
    // CLI clears I; with IRQ asserted the next dispatch enters the IRQ
    // vector sequence instead of fetching an opcode
    let mut rom = rom_with(&[0x58, 0xEA], 0x8000);
    rom[0x7FFE] = 0x00;
    rom[0x7FFF] = 0x95;
    let (mut cpu, mut bus) = machine(rom);
    cpu.reset();
    let mut data = 0u8;
    run(&mut cpu, &mut bus, &mut data, 6);
    cpu.set_irq_signaled(true);
    // dispatch + execute CLI
    run(&mut cpu, &mut bus, &mut data, 2);
    assert!(!cpu.regs().p().i);
    // the next dispatch takes the interrupt: pushes, then the vector
    let accesses = run(&mut cpu, &mut bus, &mut data, 7);
    assert!(matches!(accesses[1], BusAccess::Write(0x01FD, _)));
    assert!(matches!(accesses[3], BusAccess::Write(0x01FB, _)));
    assert_eq!(accesses[4], BusAccess::Read(0xFFFE));
    assert_eq!(accesses[5], BusAccess::Read(0xFFFF));
    assert_eq!(accesses[6], BusAccess::Read(0x9500));
    assert_eq!(cpu.get_pc(), 0x9500);
    // entering the handler sets I again
    assert!(cpu.regs().p().i);
}

#[test]
fn illegal_opcode_surfaces() {
    // 0x02 is not a documented opcode
    let rom = rom_with(&[0x02], 0x8000);
    let (mut cpu, mut bus) = machine(rom);
    cpu.reset();
    let mut data = 0u8;
    run(&mut cpu, &mut bus, &mut data, 6);
    let r = cpu.tick(data);
    assert_eq!(r, Err(CpuError::IllegalOpcode(0x02)));
}
