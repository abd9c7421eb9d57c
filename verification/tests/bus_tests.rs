use mos6502::bus::{AddrMapping, BusDevice, EmuError, GenericRouter, MirroringWrapper, ReadResult};
use mos6502::debug::TestROMMonitor;
use mos6502::mem::{AnyDevice, RAMDevice, ROMDevice};

#[test]
fn addr_mapping_matches_and_translates() {
    let m = AddrMapping { init_start: 0x8000, trg_start: 0x0000, len: 0x8000 };
    assert!(m.matches(0x8000));
    assert!(m.matches(0xFFFF));
    assert!(!m.matches(0x7FFF));
    assert_eq!(m.translate(0x8000), 0x0000);
    assert_eq!(m.translate(0x9234), 0x1234);
}

#[test]
fn router_dispatches_to_disjoint_devices() {
    let mut router: GenericRouter<AnyDevice> = GenericRouter::new();
    router.add_device(0x0000, 0x0000, 0x100, AnyDevice::Ram(RAMDevice::new(0x100)));
    router.add_device(0x1000, 0x0000, 0x100, AnyDevice::Ram(RAMDevice::new(0x100)));
    router.bus_write(0x0010, 0xAA).unwrap();
    router.bus_write(0x1010, 0xBB).unwrap();
    assert_eq!(router.bus_read(0x0010).unwrap(), ReadResult::Data(0xAA));
    assert_eq!(router.bus_read(0x1010).unwrap(), ReadResult::Data(0xBB));
    // an unmapped address reads as open bus and swallows writes
    assert_eq!(router.bus_read(0x2000).unwrap(), ReadResult::OpenBus);
    router.bus_write(0x2000, 0xCC).unwrap();
    assert_eq!(router.bus_read(0x2000).unwrap(), ReadResult::OpenBus);
}

#[test]
fn router_translates_addresses() {
    let mut rom = vec![0u8; 0x100];
    rom[0x34] = 0x99;
    let mut router: GenericRouter<AnyDevice> = GenericRouter::new();
    router.add_device(0x8000, 0x0000, 0x100, AnyDevice::Rom(ROMDevice::new(rom)));
    assert_eq!(router.bus_read(0x8034).unwrap(), ReadResult::Data(0x99));
}

#[test]
fn mirroring_wrapper_masks_address_bits() {
    // an 0x100-byte RAM mirrored over 8 address bits
    let mut mirrored = MirroringWrapper::new(RAMDevice::new(0x100), 8);
    mirrored.bus_write(0x0005, 0x42).unwrap();
    // every mirror of the address sees the same byte
    assert_eq!(mirrored.bus_read(0x0005).unwrap(), ReadResult::Data(0x42));
    assert_eq!(mirrored.bus_read(0x0105).unwrap(), ReadResult::Data(0x42));
    assert_eq!(mirrored.bus_read(0xFF05).unwrap(), ReadResult::Data(0x42));
    mirrored.bus_write(0x0905, 0x43).unwrap();
    assert_eq!(mirrored.bus_read(0x0005).unwrap(), ReadResult::Data(0x43));
}

#[test]
fn any_device_mirrored_variant() {
    let inner = AnyDevice::Ram(RAMDevice::new(0x100));
    let mut dev = AnyDevice::Mirrored(0x00FF, Box::new(inner));
    dev.bus_write(0x1234, 0x77).unwrap();
    assert_eq!(dev.bus_read(0x0034).unwrap(), ReadResult::Data(0x77));
}

#[test]
fn rom_ignores_writes() {
    let mut rom = ROMDevice::new(vec![0x01, 0x02]);
    rom.bus_write(0, 0xFF).unwrap();
    assert_eq!(rom.bus_read(0).unwrap(), ReadResult::Data(0x01));
    assert_eq!(rom.bus_read(2).unwrap(), ReadResult::OpenBus);
}

#[test]
fn monitor_arms_on_signature_and_reports() {
    let mut monitor = TestROMMonitor::new(RAMDevice::new(0x100), 0x10);
    assert!(!monitor.test_mode_active());
    // status writes before the signature are plain writes
    monitor.bus_write(0x10, 0x00).unwrap();
    monitor.bus_write(0x11, 0xDE).unwrap();
    monitor.bus_write(0x12, 0xB0).unwrap();
    monitor.bus_write(0x13, 0x61).unwrap();
    assert!(monitor.test_mode_active());
    // progress marker passes through
    assert_eq!(monitor.bus_write(0x10, 0x80), Ok(()));
    // failure code surfaces
    assert_eq!(monitor.bus_write(0x10, 0x05), Err(EmuError::TestROMFailure(0x05)));
    // success stops the emulation
    assert_eq!(monitor.bus_write(0x10, 0x00), Err(EmuError::StopEmulation));
}

#[test]
fn monitor_collects_message_at_end_of_simulation() {
    let mut monitor = TestROMMonitor::new(RAMDevice::new(0x100), 0x10);
    monitor.bus_write(0x11, 0xDE).unwrap();
    monitor.bus_write(0x12, 0xB0).unwrap();
    monitor.bus_write(0x13, 0x61).unwrap();
    // the message window starts 4 bytes into the test window
    for (i, b) in b"PASSED".iter().enumerate() {
        monitor.bus_write(0x14 + i as u32, *b).unwrap();
    }
    monitor.bus_write(0x14 + 6, 0x00).unwrap();
    monitor.end_of_simulation();
    let msg = monitor.take_message().expect("message collected");
    assert_eq!(msg, b"PASSED".to_vec());
    // a second take finds nothing
    assert!(monitor.take_message().is_none());
}

#[test]
fn monitor_unarmed_collects_nothing() {
    let mut monitor = TestROMMonitor::new(RAMDevice::new(0x100), 0x10);
    monitor.end_of_simulation();
    assert!(monitor.take_message().is_none());
}

#[test]
fn router_lifecycle_reaches_devices() {
    let mut router: GenericRouter<AnyDevice> = GenericRouter::new();
    router.add_device(0x0000, 0x0000, 0x100, AnyDevice::Ram(RAMDevice::new(0x100)));
    assert_eq!(router.start_of_simulation(), Ok(()));
    router.end_of_simulation();
}
