use mos6502::bus::{BusDevice, GenericRouter, ReadResult};
use mos6502::cpu::{BusAccess, Cpu6502};
use mos6502::mem::{AnyDevice, RAMDevice, ROMDevice};
use mos6502::tracer::Tracer;

#[test]
fn register_element_under_enabled_parent() {
    let mut tracer = Tracer::new(&vec!["cpu.regs".to_string()]);
    let cpu = tracer.register_element("cpu", None);
    assert!(cpu.enabled());
    let regs = tracer.register_element("regs", Some(cpu));
    assert!(regs.enabled());
    // the enabled subtree accepts and enables new children
    let a = tracer.register_element("A", Some(regs));
    assert!(a.enabled());
    assert_eq!(tracer.path_of(a), "cpu.regs.A");
}

#[test]
fn register_element_under_disabled_parent_is_disabled() {
    let mut tracer = Tracer::new(&vec!["cpu.regs".to_string()]);
    let cpu = tracer.register_element("cpu", None);
    // "mem" is not in the filter and "cpu" does not enable all children
    let mem = tracer.register_element("mem", Some(cpu));
    assert!(!mem.enabled());
    // a child of a disabled element is the disabled sentinel too
    let child = tracer.register_element("inner", Some(mem));
    assert!(!child.enabled());
    // disabled elements swallow events
    tracer.trace_event(mem, "nothing");
    assert!(tracer.take_output().is_empty());
}

#[test]
fn trace_event_formats_line() {
    let mut tracer = Tracer::new(&vec!["cpu".to_string()]);
    let cpu = tracer.register_element("cpu", None);
    let seq = tracer.register_element("seq", Some(cpu));
    tracer.trace_event(seq, "    DISPATCH");
    let lines = tracer.take_output();
    assert_eq!(lines, vec!["[TRACE][cpu.seq     ]     DISPATCH".to_string()]);
    // draining leaves the buffer empty
    assert!(tracer.take_output().is_empty());
}

#[test]
fn empty_filter_emits_no_events() {
    let tracer = Tracer::new(&Vec::new());
    let mut cpu = Cpu6502::new(tracer);
    cpu.reset();
    let mut bus: GenericRouter<AnyDevice> = GenericRouter::new();
    bus.add_device(0x0000, 0x0000, 0x2000, AnyDevice::Ram(RAMDevice::new(0x2000)));
    let mut data = 0u8;
    for _ in 0..16 {
        let access = match cpu.tick(data) {
            Ok(access) => access,
            Err(_) => break,
        };
        match access {
            BusAccess::Read(addr) => {
                if let ReadResult::Data(v) = bus.bus_read(addr as u32).unwrap() {
                    data = v;
                }
            }
            BusAccess::Write(addr, v) => {
                data = v;
                bus.bus_write(addr as u32, v).unwrap();
            }
        }
    }
    assert!(cpu.take_trace_output().is_empty());
}

#[test]
fn cpu_regs_filter_traces_register_writes() {
    let tracer = Tracer::new(&vec!["cpu.regs".to_string()]);
    let mut cpu = Cpu6502::new(tracer);
    cpu.reset();
    let mut rom = vec![0u8; 0x8000];
    rom[0x0000] = 0xA9; // LDA #$42
    rom[0x0001] = 0x42;
    rom[0x7FFC] = 0x00;
    rom[0x7FFD] = 0x80;
    let mut bus: GenericRouter<AnyDevice> = GenericRouter::new();
    bus.add_device(0x0000, 0x0000, 0x2000, AnyDevice::Ram(RAMDevice::new(0x2000)));
    bus.add_device(0x8000, 0x0000, 0x8000, AnyDevice::Rom(ROMDevice::new(rom)));
    let mut data = 0u8;
    for _ in 0..8 {
        match cpu.tick(data).unwrap() {
            BusAccess::Read(addr) => {
                if let ReadResult::Data(v) = bus.bus_read(addr as u32).unwrap() {
                    data = v;
                }
            }
            BusAccess::Write(addr, v) => {
                data = v;
                bus.bus_write(addr as u32, v).unwrap();
            }
        }
    }
    let lines = cpu.take_trace_output();
    // only register-write events are enabled by the filter
    assert!(!lines.is_empty());
    assert!(lines.iter().all(|l| l.starts_with("[TRACE][cpu.regs.")));
    // the LDA writes A then P, one event per mutation
    assert!(lines.contains(&"[TRACE][cpu.regs.A  ]       A = 0x42".to_string()));
    assert!(lines.iter().any(|l| l.starts_with("[TRACE][cpu.regs.P  ]       P = ")));
}

#[test]
fn status_register_renders_as_flag_letters() {
    let tracer = Tracer::new(&vec!["cpu".to_string()]);
    let mut cpu = Cpu6502::new(tracer);
    cpu.reset();
    let mut data = 0u8;
    // run the reset sequence; SET_RESET_VEC sets P.I, tracing the write
    for _ in 0..6 {
        let _ = cpu.tick(data).unwrap();
        data = 0;
    }
    let lines = cpu.take_trace_output();
    assert!(lines.contains(&"[TRACE][cpu.regs.P  ]       P = ..1..I..".to_string()));
}

#[test]
fn mem_trace_element_is_enabled_by_cpu_filter() {
    let tracer = Tracer::new(&vec!["cpu".to_string()]);
    let mut cpu = Cpu6502::new(tracer);
    let mem = cpu.mem_trace_element();
    assert!(mem.enabled());
    cpu.trace_event(mem, "      RD 0x8000 => 0xA9");
    let lines = cpu.take_trace_output();
    assert_eq!(lines, vec!["[TRACE][cpu.mem     ]       RD 0x8000 => 0xA9".to_string()]);
}

#[test]
fn hex_formatting() {
    assert_eq!(mos6502::hexfmt::hex_u8(0x0F), "0x0F");
    assert_eq!(mos6502::hexfmt::hex_u8(0xA5), "0xA5");
    assert_eq!(mos6502::hexfmt::hex_u16(0x1234), "0x1234");
    assert_eq!(mos6502::hexfmt::hex_u16(0x00FF), "0x00FF");
    assert_eq!(mos6502::hexfmt::pad12("cpu.regs"), "cpu.regs    ");
    assert_eq!(mos6502::hexfmt::pad12("cpu.regs.ALONG"), "cpu.regs.ALONG");
}
