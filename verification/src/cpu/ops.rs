//! Pure operation kernels, keyed by mnemonic.
//!
//! A kernel is a transformation of the architectural registers and one
//! operand byte. The byte is input for read operations (LDA), output for
//! write operations (STA), both for read-modify-write operations (ASL on
//! memory), and unused for implied operations. Branch mnemonics evaluate
//! their condition into the byte. Kernels never read the program counter or
//! the engine's internal registers.

use vstd::prelude::*;
use vstd::wrapping::u8_specs;

use crate::psr::{spec_as_stk_u8, spec_from_stk_u8, ArchPSR};
use super::regs::{ArchRegs, RegFile};

verus! {

/// Every documented 6502 mnemonic, including the branch condition
/// evaluators.
#[derive(Debug, Clone, Copy, PartialEq, Eq, Structural)]
pub enum Mnemonic {
    Nop,
    Adc,
    And,
    Asl,
    Bit,
    Clc,
    Cld,
    Cli,
    Clv,
    Cmp,
    Cpx,
    Cpy,
    Dec,
    Dex,
    Dey,
    Eor,
    Inc,
    Inx,
    Iny,
    Lda,
    Ldx,
    Ldy,
    Lsr,
    Ora,
    Pha,
    Php,
    Pla,
    Plp,
    Rol,
    Ror,
    Sbc,
    Sec,
    Sed,
    Sei,
    Sta,
    Stx,
    Sty,
    Tax,
    Tay,
    Tsx,
    Txa,
    Txs,
    Tya,
    Bcc,
    Bcs,
    Beq,
    Bmi,
    Bne,
    Bpl,
    Bvc,
    Bvs,
}

/// The shared ALU add of ADC and SBC: A + operand + C in binary mode.
/// C is the unsigned carry out of the 9-bit sum; V is set when
/// `((result ^ a) & (result ^ operand)) & 0x80 != 0`.
pub open spec fn spec_addsub(r: RegFile, operand: u8) -> RegFile {
    let carry_in: int = if r.p.c {
        1
    } else {
        0
    };
    let wide: int = r.a + operand + carry_in;
    let result: u8 = (wide % 256) as u8;
    let carry_out = wide > 255;
    let overflow = ((result ^ r.a) & (result ^ operand)) >= 0x80;
    RegFile { a: result, p: r.p.spec_with_nzcv_from_value(result, carry_out, overflow), ..r }
}

/// The register file and operand byte a kernel leaves behind. This is the
/// per-mnemonic effect table: each arm gives the destination of the moved
/// or computed value and exactly the flags the mnemonic writes.
pub open spec fn spec_op(m: Mnemonic, r: RegFile, val: u8) -> (RegFile, u8) {
    match m {
        Mnemonic::Nop => (r, val),
        Mnemonic::Adc => (spec_addsub(r, val), val),
        Mnemonic::Sbc => (spec_addsub(r, !val), val),
        Mnemonic::And => {
            let a = r.a & val;
            (RegFile { a, p: r.p.spec_with_nz_from_value(a), ..r }, val)
        },
        Mnemonic::Ora => {
            let a = r.a | val;
            (RegFile { a, p: r.p.spec_with_nz_from_value(a), ..r }, val)
        },
        Mnemonic::Eor => {
            let a = r.a ^ val;
            (RegFile { a, p: r.p.spec_with_nz_from_value(a), ..r }, val)
        },
        Mnemonic::Asl => {
            let res = val << 1;
            (RegFile { p: r.p.spec_with_nzc_from_value(res, val & 0x80 != 0), ..r }, res)
        },
        Mnemonic::Lsr => {
            let res = val >> 1;
            (RegFile { p: r.p.spec_with_nzc_from_value(res, val & 1 != 0), ..r }, res)
        },
        Mnemonic::Rol => {
            let res = (val << 1) | (if r.p.c {
                1u8
            } else {
                0u8
            });
            (RegFile { p: r.p.spec_with_nzc_from_value(res, val & 0x80 != 0), ..r }, res)
        },
        Mnemonic::Ror => {
            let res = (if r.p.c {
                0x80u8
            } else {
                0u8
            }) | (val >> 1);
            (RegFile { p: r.p.spec_with_nzc_from_value(res, val & 1 != 0), ..r }, res)
        },
        Mnemonic::Bit => {
            (
                RegFile {
                    p: r.p.spec_with_nzv(val & 0x80 != 0, r.a & val == 0, val & 0x40 != 0),
                    ..r
                },
                val,
            )
        },
        Mnemonic::Cmp => {
            let res = u8_specs::wrapping_sub(r.a, val);
            (RegFile { p: r.p.spec_with_nzc_from_value(res, r.a >= val), ..r }, val)
        },
        Mnemonic::Cpx => {
            let res = u8_specs::wrapping_sub(r.x, val);
            (RegFile { p: r.p.spec_with_nzc_from_value(res, r.x >= val), ..r }, val)
        },
        Mnemonic::Cpy => {
            let res = u8_specs::wrapping_sub(r.y, val);
            (RegFile { p: r.p.spec_with_nzc_from_value(res, r.y >= val), ..r }, val)
        },
        Mnemonic::Inc => {
            let res = u8_specs::wrapping_add(val, 1);
            (RegFile { p: r.p.spec_with_nz_from_value(res), ..r }, res)
        },
        Mnemonic::Dec => {
            let res = u8_specs::wrapping_sub(val, 1);
            (RegFile { p: r.p.spec_with_nz_from_value(res), ..r }, res)
        },
        Mnemonic::Inx => {
            let res = u8_specs::wrapping_add(r.x, 1);
            (RegFile { x: res, p: r.p.spec_with_nz_from_value(res), ..r }, val)
        },
        Mnemonic::Dex => {
            let res = u8_specs::wrapping_sub(r.x, 1);
            (RegFile { x: res, p: r.p.spec_with_nz_from_value(res), ..r }, val)
        },
        Mnemonic::Iny => {
            let res = u8_specs::wrapping_add(r.y, 1);
            (RegFile { y: res, p: r.p.spec_with_nz_from_value(res), ..r }, val)
        },
        Mnemonic::Dey => {
            let res = u8_specs::wrapping_sub(r.y, 1);
            (RegFile { y: res, p: r.p.spec_with_nz_from_value(res), ..r }, val)
        },
        Mnemonic::Lda => (RegFile { a: val, p: r.p.spec_with_nz_from_value(val), ..r }, val),
        Mnemonic::Ldx => (RegFile { x: val, p: r.p.spec_with_nz_from_value(val), ..r }, val),
        Mnemonic::Ldy => (RegFile { y: val, p: r.p.spec_with_nz_from_value(val), ..r }, val),
        Mnemonic::Sta => (r, r.a),
        Mnemonic::Stx => (r, r.x),
        Mnemonic::Sty => (r, r.y),
        Mnemonic::Tax => (RegFile { x: r.a, p: r.p.spec_with_nz_from_value(r.a), ..r }, val),
        Mnemonic::Tay => (RegFile { y: r.a, p: r.p.spec_with_nz_from_value(r.a), ..r }, val),
        Mnemonic::Txa => (RegFile { a: r.x, p: r.p.spec_with_nz_from_value(r.x), ..r }, val),
        Mnemonic::Tya => (RegFile { a: r.y, p: r.p.spec_with_nz_from_value(r.y), ..r }, val),
        Mnemonic::Tsx => (RegFile { x: r.s, p: r.p.spec_with_nz_from_value(r.s), ..r }, val),
        Mnemonic::Txs => (RegFile { s: r.x, ..r }, val),
        Mnemonic::Pha => (r, r.a),
        Mnemonic::Php => (r, spec_as_stk_u8(r.p, false)),
        Mnemonic::Pla => (RegFile { a: val, p: r.p.spec_with_nz_from_value(val), ..r }, val),
        Mnemonic::Plp => (RegFile { p: spec_from_stk_u8(val), ..r }, val),
        Mnemonic::Clc => (RegFile { p: r.p.spec_with_c(false), ..r }, val),
        Mnemonic::Sec => (RegFile { p: r.p.spec_with_c(true), ..r }, val),
        Mnemonic::Cli => (RegFile { p: r.p.spec_with_i(false), ..r }, val),
        Mnemonic::Sei => (RegFile { p: r.p.spec_with_i(true), ..r }, val),
        Mnemonic::Cld => (RegFile { p: r.p.spec_with_d(false), ..r }, val),
        Mnemonic::Sed => (RegFile { p: r.p.spec_with_d(true), ..r }, val),
        Mnemonic::Clv => (RegFile { p: r.p.spec_with_v(false), ..r }, val),
        Mnemonic::Bcc => (
            r,
            if !r.p.c {
                1
            } else {
                0
            },
        ),
        Mnemonic::Bcs => (
            r,
            if r.p.c {
                1
            } else {
                0
            },
        ),
        Mnemonic::Beq => (
            r,
            if r.p.z {
                1
            } else {
                0
            },
        ),
        Mnemonic::Bne => (
            r,
            if !r.p.z {
                1
            } else {
                0
            },
        ),
        Mnemonic::Bmi => (
            r,
            if r.p.n {
                1
            } else {
                0
            },
        ),
        Mnemonic::Bpl => (
            r,
            if !r.p.n {
                1
            } else {
                0
            },
        ),
        Mnemonic::Bvs => (
            r,
            if r.p.v {
                1
            } else {
                0
            },
        ),
        Mnemonic::Bvc => (
            r,
            if !r.p.v {
                1
            } else {
                0
            },
        ),
    }
}

/// A kernel call behaved as the effect table says: the registers and the
/// operand byte hold exactly the table's values, the traced-register
/// shapes are untouched, and the event log only grew.
pub open spec fn op_effect(
    m: Mnemonic,
    pre: ArchRegs,
    post: ArchRegs,
    val_pre: u8,
    val_post: u8,
) -> bool {
    post@ == spec_op(m, pre@, val_pre).0 && val_post == spec_op(m, pre@, val_pre).1
        && ArchRegs::same_shape(pre, post) && ArchRegs::log_extends(pre, post)
}

pub fn nop(regs: &mut ArchRegs, val: &mut u8)
    ensures
        op_effect(Mnemonic::Nop, *old(regs), *final(regs), *old(val), *final(val)),
{
    // No operation
}

/// The shared ALU add: A + operand + C, writing N, Z, C and V.
fn alu_addsub(regs: &mut ArchRegs, operand: u8)
    ensures
        final(regs)@ == spec_addsub(old(regs)@, operand),
        ArchRegs::same_shape(*old(regs), *final(regs)),
        ArchRegs::log_extends(*old(regs), *final(regs)),
{
    let a = regs.a();
    let carry_in: u16 = if regs.p().c {
        1
    } else {
        0
    };
    let wide: u16 = a as u16 + operand as u16 + carry_in;
    let result: u8 = (wide % 256) as u8;
    let carry_out = wide > 0xFF;
    let overflow = (result ^ a) & (result ^ operand) >= 0x80;
    let p = regs.p();
    regs.set_a(result);
    regs.set_p(p.with_nzcv_from_value(result, carry_out, overflow));
}

pub fn adc(regs: &mut ArchRegs, val: &mut u8)
    ensures
        op_effect(Mnemonic::Adc, *old(regs), *final(regs), *old(val), *final(val)),
{
    // A += {reg} + C; flags NZCV
    alu_addsub(regs, *val);
}

pub fn sbc(regs: &mut ArchRegs, val: &mut u8)
    ensures
        op_effect(Mnemonic::Sbc, *old(regs), *final(regs), *old(val), *final(val)),
{
    // A += ~{reg} + C; flags NZCV
    alu_addsub(regs, !*val);
}

pub fn and(regs: &mut ArchRegs, val: &mut u8)
    ensures
        op_effect(Mnemonic::And, *old(regs), *final(regs), *old(val), *final(val)),
{
    // A &= {reg}; flags NZ
    let a = regs.a() & *val;
    let p = regs.p();
    regs.set_a(a);
    regs.set_p(p.with_nz_from_value(a));
}

pub fn ora(regs: &mut ArchRegs, val: &mut u8)
    ensures
        op_effect(Mnemonic::Ora, *old(regs), *final(regs), *old(val), *final(val)),
{
    // A |= {reg}; flags NZ
    let a = regs.a() | *val;
    let p = regs.p();
    regs.set_a(a);
    regs.set_p(p.with_nz_from_value(a));
}

pub fn eor(regs: &mut ArchRegs, val: &mut u8)
    ensures
        op_effect(Mnemonic::Eor, *old(regs), *final(regs), *old(val), *final(val)),
{
    // A ^= {reg}; flags NZ
    let a = regs.a() ^ *val;
    let p = regs.p();
    regs.set_a(a);
    regs.set_p(p.with_nz_from_value(a));
}

pub fn asl(regs: &mut ArchRegs, val: &mut u8)
    ensures
        op_effect(Mnemonic::Asl, *old(regs), *final(regs), *old(val), *final(val)),
{
    // {reg} <<= 1; flags NZ, C = old bit 7
    let carry = *val & 0x80;
    *val = *val << 1;
    let p = regs.p();
    regs.set_p(p.with_nzc_from_value(*val, carry != 0));
}

pub fn lsr(regs: &mut ArchRegs, val: &mut u8)
    ensures
        op_effect(Mnemonic::Lsr, *old(regs), *final(regs), *old(val), *final(val)),
{
    // {reg} >>= 1; flags NZ, C = old bit 0
    let carry = *val & 1;
    *val = *val >> 1;
    let p = regs.p();
    regs.set_p(p.with_nzc_from_value(*val, carry != 0));
}

pub fn rol(regs: &mut ArchRegs, val: &mut u8)
    ensures
        op_effect(Mnemonic::Rol, *old(regs), *final(regs), *old(val), *final(val)),
{
    // {reg} = ({reg} << 1) | C; flags NZ, C = old bit 7
    let carry = *val & 0x80;
    *val = (*val << 1) | (if regs.p().c {
        1
    } else {
        0
    });
    let p = regs.p();
    regs.set_p(p.with_nzc_from_value(*val, carry != 0));
}

pub fn ror(regs: &mut ArchRegs, val: &mut u8)
    ensures
        op_effect(Mnemonic::Ror, *old(regs), *final(regs), *old(val), *final(val)),
{
    // {reg} = (C << 7) | ({reg} >> 1); flags NZ, C = old bit 0
    let carry = *val & 1;
    *val = (if regs.p().c {
        0x80
    } else {
        0x00
    }) | (*val >> 1);
    let p = regs.p();
    regs.set_p(p.with_nzc_from_value(*val, carry != 0));
}

pub fn bit(regs: &mut ArchRegs, val: &mut u8)
    ensures
        op_effect(Mnemonic::Bit, *old(regs), *final(regs), *old(val), *final(val)),
{
    // A & {reg}; Z from the AND, N = bit 7 of {reg}, V = bit 6 of {reg}
    let m7 = *val & 0x80 != 0;
    let m6 = *val & 0x40 != 0;
    let z = regs.a() & *val == 0;
    let p = regs.p();
    regs.set_p(p.with_nzv(m7, z, m6));
}

pub fn cmp(regs: &mut ArchRegs, val: &mut u8)
    ensures
        op_effect(Mnemonic::Cmp, *old(regs), *final(regs), *old(val), *final(val)),
{
    // A - {reg}; flags NZ from the difference, C = A >= {reg}
    let a = regs.a();
    let result = a.wrapping_sub(*val);
    let p = regs.p();
    regs.set_p(p.with_nzc_from_value(result, a >= *val));
}

pub fn cpx(regs: &mut ArchRegs, val: &mut u8)
    ensures
        op_effect(Mnemonic::Cpx, *old(regs), *final(regs), *old(val), *final(val)),
{
    // X - {reg}; flags NZ from the difference, C = X >= {reg}
    let x = regs.x();
    let result = x.wrapping_sub(*val);
    let p = regs.p();
    regs.set_p(p.with_nzc_from_value(result, x >= *val));
}

pub fn cpy(regs: &mut ArchRegs, val: &mut u8)
    ensures
        op_effect(Mnemonic::Cpy, *old(regs), *final(regs), *old(val), *final(val)),
{
    // Y - {reg}; flags NZ from the difference, C = Y >= {reg}
    let y = regs.y();
    let result = y.wrapping_sub(*val);
    let p = regs.p();
    regs.set_p(p.with_nzc_from_value(result, y >= *val));
}

pub fn inc(regs: &mut ArchRegs, val: &mut u8)
    ensures
        op_effect(Mnemonic::Inc, *old(regs), *final(regs), *old(val), *final(val)),
{
    // {reg} += 1; flags NZ
    *val = val.wrapping_add(1);
    let p = regs.p();
    regs.set_p(p.with_nz_from_value(*val));
}

pub fn dec(regs: &mut ArchRegs, val: &mut u8)
    ensures
        op_effect(Mnemonic::Dec, *old(regs), *final(regs), *old(val), *final(val)),
{
    // {reg} -= 1; flags NZ
    *val = val.wrapping_sub(1);
    let p = regs.p();
    regs.set_p(p.with_nz_from_value(*val));
}

pub fn inx(regs: &mut ArchRegs, val: &mut u8)
    ensures
        op_effect(Mnemonic::Inx, *old(regs), *final(regs), *old(val), *final(val)),
{
    // X += 1; flags NZ
    let x = regs.x().wrapping_add(1);
    let p = regs.p();
    regs.set_x(x);
    regs.set_p(p.with_nz_from_value(x));
}

pub fn dex(regs: &mut ArchRegs, val: &mut u8)
    ensures
        op_effect(Mnemonic::Dex, *old(regs), *final(regs), *old(val), *final(val)),
{
    // X -= 1; flags NZ
    let x = regs.x().wrapping_sub(1);
    let p = regs.p();
    regs.set_x(x);
    regs.set_p(p.with_nz_from_value(x));
}

pub fn iny(regs: &mut ArchRegs, val: &mut u8)
    ensures
        op_effect(Mnemonic::Iny, *old(regs), *final(regs), *old(val), *final(val)),
{
    // Y += 1; flags NZ
    let y = regs.y().wrapping_add(1);
    let p = regs.p();
    regs.set_y(y);
    regs.set_p(p.with_nz_from_value(y));
}

pub fn dey(regs: &mut ArchRegs, val: &mut u8)
    ensures
        op_effect(Mnemonic::Dey, *old(regs), *final(regs), *old(val), *final(val)),
{
    // Y -= 1; flags NZ
    let y = regs.y().wrapping_sub(1);
    let p = regs.p();
    regs.set_y(y);
    regs.set_p(p.with_nz_from_value(y));
}

pub fn lda(regs: &mut ArchRegs, val: &mut u8)
    ensures
        op_effect(Mnemonic::Lda, *old(regs), *final(regs), *old(val), *final(val)),
{
    // A = {reg}; flags NZ
    let p = regs.p();
    regs.set_a(*val);
    regs.set_p(p.with_nz_from_value(*val));
}

pub fn ldx(regs: &mut ArchRegs, val: &mut u8)
    ensures
        op_effect(Mnemonic::Ldx, *old(regs), *final(regs), *old(val), *final(val)),
{
    // X = {reg}; flags NZ
    let p = regs.p();
    regs.set_x(*val);
    regs.set_p(p.with_nz_from_value(*val));
}

pub fn ldy(regs: &mut ArchRegs, val: &mut u8)
    ensures
        op_effect(Mnemonic::Ldy, *old(regs), *final(regs), *old(val), *final(val)),
{
    // Y = {reg}; flags NZ
    let p = regs.p();
    regs.set_y(*val);
    regs.set_p(p.with_nz_from_value(*val));
}

pub fn sta(regs: &mut ArchRegs, val: &mut u8)
    ensures
        op_effect(Mnemonic::Sta, *old(regs), *final(regs), *old(val), *final(val)),
{
    // {reg} = A
    *val = regs.a();
}

pub fn stx(regs: &mut ArchRegs, val: &mut u8)
    ensures
        op_effect(Mnemonic::Stx, *old(regs), *final(regs), *old(val), *final(val)),
{
    // {reg} = X
    *val = regs.x();
}

pub fn sty(regs: &mut ArchRegs, val: &mut u8)
    ensures
        op_effect(Mnemonic::Sty, *old(regs), *final(regs), *old(val), *final(val)),
{
    // {reg} = Y
    *val = regs.y();
}

pub fn tax(regs: &mut ArchRegs, val: &mut u8)
    ensures
        op_effect(Mnemonic::Tax, *old(regs), *final(regs), *old(val), *final(val)),
{
    // X = A; flags NZ
    let a = regs.a();
    let p = regs.p();
    regs.set_x(a);
    regs.set_p(p.with_nz_from_value(a));
}

pub fn tay(regs: &mut ArchRegs, val: &mut u8)
    ensures
        op_effect(Mnemonic::Tay, *old(regs), *final(regs), *old(val), *final(val)),
{
    // Y = A; flags NZ
    let a = regs.a();
    let p = regs.p();
    regs.set_y(a);
    regs.set_p(p.with_nz_from_value(a));
}

pub fn txa(regs: &mut ArchRegs, val: &mut u8)
    ensures
        op_effect(Mnemonic::Txa, *old(regs), *final(regs), *old(val), *final(val)),
{
    // A = X; flags NZ
    let x = regs.x();
    let p = regs.p();
    regs.set_a(x);
    regs.set_p(p.with_nz_from_value(x));
}

pub fn tya(regs: &mut ArchRegs, val: &mut u8)
    ensures
        op_effect(Mnemonic::Tya, *old(regs), *final(regs), *old(val), *final(val)),
{
    // A = Y; flags NZ
    let y = regs.y();
    let p = regs.p();
    regs.set_a(y);
    regs.set_p(p.with_nz_from_value(y));
}

pub fn tsx(regs: &mut ArchRegs, val: &mut u8)
    ensures
        op_effect(Mnemonic::Tsx, *old(regs), *final(regs), *old(val), *final(val)),
{
    // X = S; flags NZ
    let s = regs.s();
    let p = regs.p();
    regs.set_x(s);
    regs.set_p(p.with_nz_from_value(s));
}

pub fn txs(regs: &mut ArchRegs, val: &mut u8)
    ensures
        op_effect(Mnemonic::Txs, *old(regs), *final(regs), *old(val), *final(val)),
{
    // S = X; no flags
    let x = regs.x();
    regs.set_s(x);
}

pub fn pha(regs: &mut ArchRegs, val: &mut u8)
    ensures
        op_effect(Mnemonic::Pha, *old(regs), *final(regs), *old(val), *final(val)),
{
    // {reg} = A
    *val = regs.a();
}

pub fn php(regs: &mut ArchRegs, val: &mut u8)
    ensures
        op_effect(Mnemonic::Php, *old(regs), *final(regs), *old(val), *final(val)),
{
    // {reg} = P with B set low
    *val = regs.p().as_stk_u8(false);
}

pub fn pla(regs: &mut ArchRegs, val: &mut u8)
    ensures
        op_effect(Mnemonic::Pla, *old(regs), *final(regs), *old(val), *final(val)),
{
    // A = {reg}; flags NZ
    let p = regs.p();
    regs.set_a(*val);
    regs.set_p(p.with_nz_from_value(*val));
}

pub fn plp(regs: &mut ArchRegs, val: &mut u8)
    ensures
        op_effect(Mnemonic::Plp, *old(regs), *final(regs), *old(val), *final(val)),
{
    // P = {reg}; every flag
    regs.set_p(ArchPSR::from_stk_u8(*val));
}

pub fn clc(regs: &mut ArchRegs, val: &mut u8)
    ensures
        op_effect(Mnemonic::Clc, *old(regs), *final(regs), *old(val), *final(val)),
{
    // P.C = 0
    let p = regs.p();
    regs.set_p(p.with_c(false));
}

pub fn sec(regs: &mut ArchRegs, val: &mut u8)
    ensures
        op_effect(Mnemonic::Sec, *old(regs), *final(regs), *old(val), *final(val)),
{
    // P.C = 1
    let p = regs.p();
    regs.set_p(p.with_c(true));
}

pub fn cli(regs: &mut ArchRegs, val: &mut u8)
    ensures
        op_effect(Mnemonic::Cli, *old(regs), *final(regs), *old(val), *final(val)),
{
    // P.I = 0
    let p = regs.p();
    regs.set_p(p.with_i(false));
}

pub fn sei(regs: &mut ArchRegs, val: &mut u8)
    ensures
        op_effect(Mnemonic::Sei, *old(regs), *final(regs), *old(val), *final(val)),
{
    // P.I = 1
    let p = regs.p();
    regs.set_p(p.with_i(true));
}

pub fn cld(regs: &mut ArchRegs, val: &mut u8)
    ensures
        op_effect(Mnemonic::Cld, *old(regs), *final(regs), *old(val), *final(val)),
{
    // P.D = 0
    let p = regs.p();
    regs.set_p(p.with_d(false));
}

pub fn sed(regs: &mut ArchRegs, val: &mut u8)
    ensures
        op_effect(Mnemonic::Sed, *old(regs), *final(regs), *old(val), *final(val)),
{
    // P.D = 1
    let p = regs.p();
    regs.set_p(p.with_d(true));
}

pub fn clv(regs: &mut ArchRegs, val: &mut u8)
    ensures
        op_effect(Mnemonic::Clv, *old(regs), *final(regs), *old(val), *final(val)),
{
    // P.V = 0
    let p = regs.p();
    regs.set_p(p.with_v(false));
}

pub fn bcc(regs: &mut ArchRegs, val: &mut u8)
    ensures
        op_effect(Mnemonic::Bcc, *old(regs), *final(regs), *old(val), *final(val)),
{
    // {reg} = P.C == 0
    *val = if !regs.p().c {
        1
    } else {
        0
    };
}

pub fn bcs(regs: &mut ArchRegs, val: &mut u8)
    ensures
        op_effect(Mnemonic::Bcs, *old(regs), *final(regs), *old(val), *final(val)),
{
    // {reg} = P.C == 1
    *val = if regs.p().c {
        1
    } else {
        0
    };
}

pub fn beq(regs: &mut ArchRegs, val: &mut u8)
    ensures
        op_effect(Mnemonic::Beq, *old(regs), *final(regs), *old(val), *final(val)),
{
    // {reg} = P.Z == 1
    *val = if regs.p().z {
        1
    } else {
        0
    };
}

pub fn bne(regs: &mut ArchRegs, val: &mut u8)
    ensures
        op_effect(Mnemonic::Bne, *old(regs), *final(regs), *old(val), *final(val)),
{
    // {reg} = P.Z == 0
    *val = if !regs.p().z {
        1
    } else {
        0
    };
}

pub fn bmi(regs: &mut ArchRegs, val: &mut u8)
    ensures
        op_effect(Mnemonic::Bmi, *old(regs), *final(regs), *old(val), *final(val)),
{
    // {reg} = P.N == 1
    *val = if regs.p().n {
        1
    } else {
        0
    };
}

pub fn bpl(regs: &mut ArchRegs, val: &mut u8)
    ensures
        op_effect(Mnemonic::Bpl, *old(regs), *final(regs), *old(val), *final(val)),
{
    // {reg} = P.N == 0
    *val = if !regs.p().n {
        1
    } else {
        0
    };
}

pub fn bvs(regs: &mut ArchRegs, val: &mut u8)
    ensures
        op_effect(Mnemonic::Bvs, *old(regs), *final(regs), *old(val), *final(val)),
{
    // {reg} = P.V == 1
    *val = if regs.p().v {
        1
    } else {
        0
    };
}

pub fn bvc(regs: &mut ArchRegs, val: &mut u8)
    ensures
        op_effect(Mnemonic::Bvc, *old(regs), *final(regs), *old(val), *final(val)),
{
    // {reg} = P.V == 0
    *val = if !regs.p().v {
        1
    } else {
        0
    };
}

/// Apply the kernel a mnemonic names.
pub fn invoke_op(m: Mnemonic, regs: &mut ArchRegs, val: &mut u8)
    ensures
        op_effect(m, *old(regs), *final(regs), *old(val), *final(val)),
{
    match m {
        Mnemonic::Nop => nop(regs, val),
        Mnemonic::Adc => adc(regs, val),
        Mnemonic::And => and(regs, val),
        Mnemonic::Asl => asl(regs, val),
        Mnemonic::Bit => bit(regs, val),
        Mnemonic::Clc => clc(regs, val),
        Mnemonic::Cld => cld(regs, val),
        Mnemonic::Cli => cli(regs, val),
        Mnemonic::Clv => clv(regs, val),
        Mnemonic::Cmp => cmp(regs, val),
        Mnemonic::Cpx => cpx(regs, val),
        Mnemonic::Cpy => cpy(regs, val),
        Mnemonic::Dec => dec(regs, val),
        Mnemonic::Dex => dex(regs, val),
        Mnemonic::Dey => dey(regs, val),
        Mnemonic::Eor => eor(regs, val),
        Mnemonic::Inc => inc(regs, val),
        Mnemonic::Inx => inx(regs, val),
        Mnemonic::Iny => iny(regs, val),
        Mnemonic::Lda => lda(regs, val),
        Mnemonic::Ldx => ldx(regs, val),
        Mnemonic::Ldy => ldy(regs, val),
        Mnemonic::Lsr => lsr(regs, val),
        Mnemonic::Ora => ora(regs, val),
        Mnemonic::Pha => pha(regs, val),
        Mnemonic::Php => php(regs, val),
        Mnemonic::Pla => pla(regs, val),
        Mnemonic::Plp => plp(regs, val),
        Mnemonic::Rol => rol(regs, val),
        Mnemonic::Ror => ror(regs, val),
        Mnemonic::Sbc => sbc(regs, val),
        Mnemonic::Sec => sec(regs, val),
        Mnemonic::Sed => sed(regs, val),
        Mnemonic::Sei => sei(regs, val),
        Mnemonic::Sta => sta(regs, val),
        Mnemonic::Stx => stx(regs, val),
        Mnemonic::Sty => sty(regs, val),
        Mnemonic::Tax => tax(regs, val),
        Mnemonic::Tay => tay(regs, val),
        Mnemonic::Tsx => tsx(regs, val),
        Mnemonic::Txa => txa(regs, val),
        Mnemonic::Txs => txs(regs, val),
        Mnemonic::Tya => tya(regs, val),
        Mnemonic::Bcc => bcc(regs, val),
        Mnemonic::Bcs => bcs(regs, val),
        Mnemonic::Beq => beq(regs, val),
        Mnemonic::Bmi => bmi(regs, val),
        Mnemonic::Bne => bne(regs, val),
        Mnemonic::Bpl => bpl(regs, val),
        Mnemonic::Bvc => bvc(regs, val),
        Mnemonic::Bvs => bvs(regs, val),
    }
}

/// Whether a mnemonic's listed flag set contains N (and Z: the two are
/// always written together).
pub open spec fn spec_writes_nz(m: Mnemonic) -> bool {
    match m {
        Mnemonic::Lda | Mnemonic::Ldx | Mnemonic::Ldy | Mnemonic::Tax | Mnemonic::Tay
            | Mnemonic::Txa | Mnemonic::Tya | Mnemonic::Tsx | Mnemonic::Inc | Mnemonic::Dec
            | Mnemonic::Inx | Mnemonic::Dex | Mnemonic::Iny | Mnemonic::Dey | Mnemonic::Adc
            | Mnemonic::Sbc | Mnemonic::Cmp | Mnemonic::Cpx | Mnemonic::Cpy | Mnemonic::And
            | Mnemonic::Ora | Mnemonic::Eor | Mnemonic::Bit | Mnemonic::Asl | Mnemonic::Lsr
            | Mnemonic::Rol | Mnemonic::Ror | Mnemonic::Pla | Mnemonic::Plp => true,
        _ => false,
    }
}

/// Whether a mnemonic's listed flag set contains C.
pub open spec fn spec_writes_c(m: Mnemonic) -> bool {
    match m {
        Mnemonic::Adc | Mnemonic::Sbc | Mnemonic::Cmp | Mnemonic::Cpx | Mnemonic::Cpy
            | Mnemonic::Asl | Mnemonic::Lsr | Mnemonic::Rol | Mnemonic::Ror | Mnemonic::Clc
            | Mnemonic::Sec | Mnemonic::Plp => true,
        _ => false,
    }
}

/// Whether a mnemonic's listed flag set contains V.
pub open spec fn spec_writes_v(m: Mnemonic) -> bool {
    match m {
        Mnemonic::Adc | Mnemonic::Sbc | Mnemonic::Bit | Mnemonic::Clv | Mnemonic::Plp => true,
        _ => false,
    }
}

/// Whether a mnemonic's listed flag set contains I.
pub open spec fn spec_writes_i(m: Mnemonic) -> bool {
    match m {
        Mnemonic::Cli | Mnemonic::Sei | Mnemonic::Plp => true,
        _ => false,
    }
}

/// Whether a mnemonic's listed flag set contains D.
pub open spec fn spec_writes_d(m: Mnemonic) -> bool {
    match m {
        Mnemonic::Cld | Mnemonic::Sed | Mnemonic::Plp => true,
        _ => false,
    }
}

/// Flag bits outside a mnemonic's listed flag set are preserved by its
/// kernel, for every register state and operand byte.
pub proof fn lemma_op_flag_preservation(m: Mnemonic, r: RegFile, val: u8)
    ensures
        !spec_writes_nz(m) ==> spec_op(m, r, val).0.p.n == r.p.n && spec_op(m, r, val).0.p.z
            == r.p.z,
        !spec_writes_c(m) ==> spec_op(m, r, val).0.p.c == r.p.c,
        !spec_writes_v(m) ==> spec_op(m, r, val).0.p.v == r.p.v,
        !spec_writes_i(m) ==> spec_op(m, r, val).0.p.i == r.p.i,
        !spec_writes_d(m) ==> spec_op(m, r, val).0.p.d == r.p.d,
{
}

/// Kernels never touch the stack pointer, the program counter, or — apart
/// from the transfer and load mnemonics aimed at them — the index
/// registers; every register outside a mnemonic's destination keeps its
/// value.
pub proof fn lemma_op_pc_preserved(m: Mnemonic, r: RegFile, val: u8)
    ensures
        spec_op(m, r, val).0.pc == r.pc,
        m != Mnemonic::Txs ==> spec_op(m, r, val).0.s == r.s,
{
}

} // verus!
