use mos6502::cpu::ops;
use mos6502::cpu::regs::ArchRegs;
use mos6502::psr::ArchPSR;
use mos6502::tracer::Tracer;

fn fresh_regs() -> ArchRegs {
    let mut tracer = Tracer::new(&Vec::new());
    ArchRegs::new(&mut tracer, None)
}

fn regs_with(a: u8, x: u8, y: u8, s: u8, p: ArchPSR) -> ArchRegs {
    let mut regs = fresh_regs();
    regs.set_a(a);
    regs.set_x(x);
    regs.set_y(y);
    regs.set_s(s);
    regs.set_p(p);
    regs
}

fn p(n: bool, z: bool, c: bool, v: bool) -> ArchPSR {
    ArchPSR { n, z, c, v, i: false, d: false }
}

#[test]
fn test_lda_sets_a_and_nz() {
    let mut regs = regs_with(0x00, 0, 0, 0, p(false, true, true, false));
    let mut val = 0x42;
    ops::lda(&mut regs, &mut val);
    assert_eq!(regs.a(), 0x42);
    assert_eq!(val, 0x42);
    // N and Z written, C preserved
    assert_eq!(regs.p(), p(false, false, true, false));

    let mut val = 0x80;
    ops::lda(&mut regs, &mut val);
    assert_eq!(regs.a(), 0x80);
    assert_eq!(regs.p(), p(true, false, true, false));
}

#[test]
fn test_sta_copies_a() {
    let mut regs = regs_with(0x5A, 0, 0, 0, p(true, false, false, true));
    let mut val = 0x00;
    ops::sta(&mut regs, &mut val);
    assert_eq!(val, 0x5A);
    // no register or flag changes
    assert_eq!(regs.a(), 0x5A);
    assert_eq!(regs.p(), p(true, false, false, true));
}

#[test]
fn test_ldx_stx_ldy_sty() {
    let mut regs = fresh_regs();
    let mut val = 0x00;
    ops::ldx(&mut regs, &mut val);
    assert_eq!(regs.x(), 0x00);
    assert!(regs.p().z);
    let mut val = 0x99;
    ops::ldy(&mut regs, &mut val);
    assert_eq!(regs.y(), 0x99);
    assert!(regs.p().n);
    let mut out = 0u8;
    ops::stx(&mut regs, &mut out);
    assert_eq!(out, 0x00);
    ops::sty(&mut regs, &mut out);
    assert_eq!(out, 0x99);
}

#[test]
fn test_transfers() {
    let mut regs = regs_with(0xAB, 0x01, 0x02, 0x33, p(false, false, false, false));
    let mut val = 0u8;
    ops::tax(&mut regs, &mut val);
    assert_eq!(regs.x(), 0xAB);
    assert!(regs.p().n);
    ops::tay(&mut regs, &mut val);
    assert_eq!(regs.y(), 0xAB);
    ops::txs(&mut regs, &mut val);
    assert_eq!(regs.s(), 0xAB);
    // TXS writes no flags
    let before = regs.p();
    ops::txs(&mut regs, &mut val);
    assert_eq!(regs.p(), before);
    ops::tsx(&mut regs, &mut val);
    assert_eq!(regs.x(), 0xAB);
    let mut regs = regs_with(0x00, 0x7E, 0x00, 0x00, p(true, true, false, false));
    ops::txa(&mut regs, &mut val);
    assert_eq!(regs.a(), 0x7E);
    assert!(!regs.p().n && !regs.p().z);
    let mut regs = regs_with(0x00, 0x00, 0x00, 0x00, p(true, false, false, false));
    ops::tya(&mut regs, &mut val);
    assert_eq!(regs.a(), 0x00);
    assert!(!regs.p().n && regs.p().z);
}

#[test]
fn test_adc_carry_and_overflow() {
    // 0x50 + 0x50 = 0xA0: signed overflow, no carry out
    let mut regs = regs_with(0x50, 0, 0, 0, p(false, false, false, false));
    let mut val = 0x50;
    ops::adc(&mut regs, &mut val);
    assert_eq!(regs.a(), 0xA0);
    assert_eq!(regs.p(), p(true, false, false, true));

    // 0xFF + 0x01 = 0x00 with carry out, no signed overflow
    let mut regs = regs_with(0xFF, 0, 0, 0, p(false, false, false, false));
    let mut val = 0x01;
    ops::adc(&mut regs, &mut val);
    assert_eq!(regs.a(), 0x00);
    assert_eq!(regs.p(), p(false, true, true, false));

    // carry in participates in the 9-bit sum
    let mut regs = regs_with(0x10, 0, 0, 0, p(false, false, true, false));
    let mut val = 0x05;
    ops::adc(&mut regs, &mut val);
    assert_eq!(regs.a(), 0x16);
}

#[test]
fn test_sbc_is_add_of_complement() {
    // 0x50 - 0x30 with borrow clear (C set): 0x20, carry out set
    let mut regs = regs_with(0x50, 0, 0, 0, p(false, false, true, false));
    let mut val = 0x30;
    ops::sbc(&mut regs, &mut val);
    assert_eq!(regs.a(), 0x20);
    assert!(regs.p().c);
    assert!(!regs.p().v);

    // 0x10 - 0x20 with C set borrows: 0xF0, carry out clear
    let mut regs = regs_with(0x10, 0, 0, 0, p(false, false, true, false));
    let mut val = 0x20;
    ops::sbc(&mut regs, &mut val);
    assert_eq!(regs.a(), 0xF0);
    assert!(!regs.p().c);
}

#[test]
fn test_cmp_family() {
    let mut regs = regs_with(0x40, 0x10, 0x80, 0, p(false, false, false, false));
    let mut val = 0x40;
    ops::cmp(&mut regs, &mut val);
    assert!(regs.p().z && regs.p().c && !regs.p().n);
    let mut val = 0x41;
    ops::cmp(&mut regs, &mut val);
    assert!(!regs.p().z && !regs.p().c && regs.p().n);
    let mut val = 0x0F;
    ops::cpx(&mut regs, &mut val);
    assert!(!regs.p().z && regs.p().c);
    let mut val = 0x80;
    ops::cpy(&mut regs, &mut val);
    assert!(regs.p().z && regs.p().c);
    // compares leave the registers themselves alone
    assert_eq!((regs.a(), regs.x(), regs.y()), (0x40, 0x10, 0x80));
}

#[test]
fn test_logic_ops() {
    let mut regs = regs_with(0b1100_0011, 0, 0, 0, p(false, false, false, false));
    let mut val = 0b1010_0001;
    ops::and(&mut regs, &mut val);
    assert_eq!(regs.a(), 0b1000_0001);
    assert!(regs.p().n);
    let mut val = 0b0001_0000;
    ops::ora(&mut regs, &mut val);
    assert_eq!(regs.a(), 0b1001_0001);
    let mut val = 0b1001_0001;
    ops::eor(&mut regs, &mut val);
    assert_eq!(regs.a(), 0x00);
    assert!(regs.p().z);
}

#[test]
fn test_bit_flags_from_memory() {
    let mut regs = regs_with(0x01, 0, 0, 0, p(false, false, false, false));
    let mut val = 0xC0;
    ops::bit(&mut regs, &mut val);
    // N = bit 7 of the operand, V = bit 6, Z from A & operand
    assert!(regs.p().n && regs.p().v && regs.p().z);
    let mut val = 0x01;
    ops::bit(&mut regs, &mut val);
    assert!(!regs.p().n && !regs.p().v && !regs.p().z);
}

#[test]
fn test_shifts_and_rotates() {
    let mut regs = regs_with(0, 0, 0, 0, p(false, false, false, false));
    let mut val = 0x81;
    ops::asl(&mut regs, &mut val);
    assert_eq!(val, 0x02);
    assert!(regs.p().c);

    let mut val = 0x01;
    ops::lsr(&mut regs, &mut val);
    assert_eq!(val, 0x00);
    assert!(regs.p().c && regs.p().z);

    // ROL shifts the old carry into bit 0
    let mut regs = regs_with(0, 0, 0, 0, p(false, false, true, false));
    let mut val = 0x80;
    ops::rol(&mut regs, &mut val);
    assert_eq!(val, 0x01);
    assert!(regs.p().c);

    // ROR shifts the old carry into bit 7
    let mut regs = regs_with(0, 0, 0, 0, p(false, false, true, false));
    let mut val = 0x01;
    ops::ror(&mut regs, &mut val);
    assert_eq!(val, 0x80);
    assert!(regs.p().c && regs.p().n);
}

#[test]
fn test_inc_dec_wrap() {
    let mut regs = fresh_regs();
    let mut val = 0x7F;
    ops::inc(&mut regs, &mut val);
    assert_eq!(val, 0x80);
    assert!(regs.p().n);
    let mut val = 0x00;
    ops::dec(&mut regs, &mut val);
    assert_eq!(val, 0xFF);
    let mut val = 0xFF;
    ops::inc(&mut regs, &mut val);
    assert_eq!(val, 0x00);
    assert!(regs.p().z);
}

#[test]
fn test_inx_dex_iny_dey() {
    let mut regs = regs_with(0, 0xFF, 0x00, 0, p(false, false, false, false));
    let mut val = 0u8;
    ops::inx(&mut regs, &mut val);
    assert_eq!(regs.x(), 0x00);
    assert!(regs.p().z);
    ops::dey(&mut regs, &mut val);
    assert_eq!(regs.y(), 0xFF);
    assert!(regs.p().n);
    ops::iny(&mut regs, &mut val);
    assert_eq!(regs.y(), 0x00);
    ops::dex(&mut regs, &mut val);
    assert_eq!(regs.x(), 0xFF);
}

#[test]
fn test_stack_ops() {
    let psr = ArchPSR { n: true, z: false, c: true, v: false, i: true, d: true };
    let mut regs = regs_with(0x77, 0, 0, 0, psr);
    let mut val = 0u8;
    ops::pha(&mut regs, &mut val);
    assert_eq!(val, 0x77);
    // PHP pushes with B clear
    ops::php(&mut regs, &mut val);
    assert_eq!(val, psr.as_stk_u8(false));
    let mut val = 0x80;
    ops::pla(&mut regs, &mut val);
    assert_eq!(regs.a(), 0x80);
    assert!(regs.p().n);
    let mut val = 0b1110_1111;
    ops::plp(&mut regs, &mut val);
    assert_eq!(regs.p(), ArchPSR::from_stk_u8(0b1110_1111));
}

#[test]
fn test_flag_ops() {
    let mut regs = fresh_regs();
    let mut val = 0u8;
    ops::sec(&mut regs, &mut val);
    assert!(regs.p().c);
    ops::sed(&mut regs, &mut val);
    assert!(regs.p().d);
    ops::sei(&mut regs, &mut val);
    assert!(regs.p().i);
    ops::clc(&mut regs, &mut val);
    assert!(!regs.p().c);
    ops::cld(&mut regs, &mut val);
    assert!(!regs.p().d);
    ops::cli(&mut regs, &mut val);
    assert!(!regs.p().i);
    let mut regs = regs_with(0, 0, 0, 0, p(false, false, false, true));
    ops::clv(&mut regs, &mut val);
    assert!(!regs.p().v);
}

#[test]
fn test_branch_evaluators() {
    let mut regs = regs_with(0, 0, 0, 0, p(true, true, true, true));
    let mut val = 0u8;
    ops::bcs(&mut regs, &mut val);
    assert_eq!(val, 1);
    ops::bcc(&mut regs, &mut val);
    assert_eq!(val, 0);
    ops::beq(&mut regs, &mut val);
    assert_eq!(val, 1);
    ops::bne(&mut regs, &mut val);
    assert_eq!(val, 0);
    ops::bmi(&mut regs, &mut val);
    assert_eq!(val, 1);
    ops::bpl(&mut regs, &mut val);
    assert_eq!(val, 0);
    ops::bvs(&mut regs, &mut val);
    assert_eq!(val, 1);
    ops::bvc(&mut regs, &mut val);
    assert_eq!(val, 0);
}

#[test]
fn test_nop_changes_nothing() {
    let mut regs = regs_with(1, 2, 3, 4, p(true, false, true, false));
    let mut val = 0x55;
    ops::nop(&mut regs, &mut val);
    assert_eq!((regs.a(), regs.x(), regs.y(), regs.s()), (1, 2, 3, 4));
    assert_eq!(val, 0x55);
    assert_eq!(regs.p(), p(true, false, true, false));
}

#[test]
fn test_flags_outside_set_preserved() {
    // I and D are outside the ALU mnemonics' flag sets
    let psr = ArchPSR { n: false, z: false, c: false, v: false, i: true, d: true };
    let mut regs = regs_with(0x01, 0, 0, 0, psr);
    let mut val = 0x02;
    ops::adc(&mut regs, &mut val);
    assert!(regs.p().i && regs.p().d);
    let mut val = 0x01;
    ops::lda(&mut regs, &mut val);
    assert!(regs.p().i && regs.p().d);
    // C is outside the load mnemonics' flag set
    let mut regs = regs_with(0, 0, 0, 0, p(false, false, true, true));
    let mut val = 0x10;
    ops::lda(&mut regs, &mut val);
    assert!(regs.p().c && regs.p().v);
}
