//! The opcode table: the mapping from opcode byte to mnemonic, cycle
//! sequence and printable name, for every documented 6502 opcode.
//! Unmapped opcode bytes are absent; dispatching one fails with
//! `IllegalOpcode`.

use vstd::prelude::*;

use super::ops::Mnemonic;
use super::sequences::SeqKind;

verus! {

/// One opcode table entry: the opcode byte, its printable name, the kernel
/// mnemonic, and the cycle sequence its addressing mode uses.
pub struct Opcode {
    pub code: u8,
    pub name: &'static str,
    pub mnemonic: Mnemonic,
    pub seq_kind: SeqKind,
}

/// The kernel and cycle sequence of each documented opcode byte; `None`
/// for every unmapped byte.
pub open spec fn spec_opcode(code: u8) -> Option<(Mnemonic, SeqKind)> {
    match code {
        0x00 => Some((Mnemonic::Nop, SeqKind::ImpBrk)),
        0x01 => Some((Mnemonic::Ora, SeqKind::IndXRead)),
        0x05 => Some((Mnemonic::Ora, SeqKind::ZpRead)),
        0x06 => Some((Mnemonic::Asl, SeqKind::ZpRmw)),
        0x08 => Some((Mnemonic::Php, SeqKind::ImpPush)),
        0x09 => Some((Mnemonic::Ora, SeqKind::ImmRead)),
        0x0A => Some((Mnemonic::Asl, SeqKind::AccRmw)),
        0x0D => Some((Mnemonic::Ora, SeqKind::AbsRead)),
        0x0E => Some((Mnemonic::Asl, SeqKind::AbsRmw)),
        0x10 => Some((Mnemonic::Bpl, SeqKind::RelBranch)),
        0x11 => Some((Mnemonic::Ora, SeqKind::IndYRead)),
        0x15 => Some((Mnemonic::Ora, SeqKind::ZpXRead)),
        0x16 => Some((Mnemonic::Asl, SeqKind::ZpXRmw)),
        0x18 => Some((Mnemonic::Clc, SeqKind::ImpNomem)),
        0x19 => Some((Mnemonic::Ora, SeqKind::AbsYRead)),
        0x1D => Some((Mnemonic::Ora, SeqKind::AbsXRead)),
        0x1E => Some((Mnemonic::Asl, SeqKind::AbsXRmw)),
        0x20 => Some((Mnemonic::Nop, SeqKind::AbsJsr)),
        0x21 => Some((Mnemonic::And, SeqKind::IndXRead)),
        0x24 => Some((Mnemonic::Bit, SeqKind::ZpRead)),
        0x25 => Some((Mnemonic::And, SeqKind::ZpRead)),
        0x26 => Some((Mnemonic::Rol, SeqKind::ZpRmw)),
        0x28 => Some((Mnemonic::Plp, SeqKind::ImpPop)),
        0x29 => Some((Mnemonic::And, SeqKind::ImmRead)),
        0x2A => Some((Mnemonic::Rol, SeqKind::AccRmw)),
        0x2C => Some((Mnemonic::Bit, SeqKind::AbsRead)),
        0x2D => Some((Mnemonic::And, SeqKind::AbsRead)),
        0x2E => Some((Mnemonic::Rol, SeqKind::AbsRmw)),
        0x30 => Some((Mnemonic::Bmi, SeqKind::RelBranch)),
        0x31 => Some((Mnemonic::And, SeqKind::IndYRead)),
        0x35 => Some((Mnemonic::And, SeqKind::ZpXRead)),
        0x36 => Some((Mnemonic::Rol, SeqKind::ZpXRmw)),
        0x38 => Some((Mnemonic::Sec, SeqKind::ImpNomem)),
        0x39 => Some((Mnemonic::And, SeqKind::AbsYRead)),
        0x3D => Some((Mnemonic::And, SeqKind::AbsXRead)),
        0x3E => Some((Mnemonic::Rol, SeqKind::AbsXRmw)),
        0x40 => Some((Mnemonic::Nop, SeqKind::ImpRti)),
        0x41 => Some((Mnemonic::Eor, SeqKind::IndXRead)),
        0x45 => Some((Mnemonic::Eor, SeqKind::ZpRead)),
        0x46 => Some((Mnemonic::Lsr, SeqKind::ZpRmw)),
        0x48 => Some((Mnemonic::Pha, SeqKind::ImpPush)),
        0x49 => Some((Mnemonic::Eor, SeqKind::ImmRead)),
        0x4A => Some((Mnemonic::Lsr, SeqKind::AccRmw)),
        0x4C => Some((Mnemonic::Nop, SeqKind::AbsJmp)),
        0x4D => Some((Mnemonic::Eor, SeqKind::AbsRead)),
        0x4E => Some((Mnemonic::Lsr, SeqKind::AbsRmw)),
        0x50 => Some((Mnemonic::Bvc, SeqKind::RelBranch)),
        0x51 => Some((Mnemonic::Eor, SeqKind::IndYRead)),
        0x55 => Some((Mnemonic::Eor, SeqKind::ZpXRead)),
        0x56 => Some((Mnemonic::Lsr, SeqKind::ZpXRmw)),
        0x58 => Some((Mnemonic::Cli, SeqKind::ImpNomem)),
        0x59 => Some((Mnemonic::Eor, SeqKind::AbsYRead)),
        0x5D => Some((Mnemonic::Eor, SeqKind::AbsXRead)),
        0x5E => Some((Mnemonic::Lsr, SeqKind::AbsXRmw)),
        0x60 => Some((Mnemonic::Nop, SeqKind::ImpRts)),
        0x61 => Some((Mnemonic::Adc, SeqKind::IndXRead)),
        0x65 => Some((Mnemonic::Adc, SeqKind::ZpRead)),
        0x66 => Some((Mnemonic::Ror, SeqKind::ZpRmw)),
        0x68 => Some((Mnemonic::Pla, SeqKind::ImpPop)),
        0x69 => Some((Mnemonic::Adc, SeqKind::ImmRead)),
        0x6A => Some((Mnemonic::Ror, SeqKind::AccRmw)),
        0x6C => Some((Mnemonic::Nop, SeqKind::AbsIndJmp)),
        0x6D => Some((Mnemonic::Adc, SeqKind::AbsRead)),
        0x6E => Some((Mnemonic::Ror, SeqKind::AbsRmw)),
        0x70 => Some((Mnemonic::Bvs, SeqKind::RelBranch)),
        0x71 => Some((Mnemonic::Adc, SeqKind::IndYRead)),
        0x75 => Some((Mnemonic::Adc, SeqKind::ZpXRead)),
        0x76 => Some((Mnemonic::Ror, SeqKind::ZpXRmw)),
        0x78 => Some((Mnemonic::Sei, SeqKind::ImpNomem)),
        0x79 => Some((Mnemonic::Adc, SeqKind::AbsYRead)),
        0x7D => Some((Mnemonic::Adc, SeqKind::AbsXRead)),
        0x7E => Some((Mnemonic::Ror, SeqKind::AbsXRmw)),
        0x81 => Some((Mnemonic::Sta, SeqKind::IndXWrite)),
        0x84 => Some((Mnemonic::Sty, SeqKind::ZpWrite)),
        0x85 => Some((Mnemonic::Sta, SeqKind::ZpWrite)),
        0x86 => Some((Mnemonic::Stx, SeqKind::ZpWrite)),
        0x88 => Some((Mnemonic::Dey, SeqKind::ImpNomem)),
        0x8A => Some((Mnemonic::Txa, SeqKind::ImpNomem)),
        0x8C => Some((Mnemonic::Sty, SeqKind::AbsWrite)),
        0x8D => Some((Mnemonic::Sta, SeqKind::AbsWrite)),
        0x8E => Some((Mnemonic::Stx, SeqKind::AbsWrite)),
        0x90 => Some((Mnemonic::Bcc, SeqKind::RelBranch)),
        0x91 => Some((Mnemonic::Sta, SeqKind::IndYWrite)),
        0x94 => Some((Mnemonic::Sty, SeqKind::ZpXWrite)),
        0x95 => Some((Mnemonic::Sta, SeqKind::ZpXWrite)),
        0x96 => Some((Mnemonic::Stx, SeqKind::ZpYWrite)),
        0x98 => Some((Mnemonic::Tya, SeqKind::ImpNomem)),
        0x99 => Some((Mnemonic::Sta, SeqKind::AbsYWrite)),
        0x9A => Some((Mnemonic::Txs, SeqKind::ImpNomem)),
        0x9D => Some((Mnemonic::Sta, SeqKind::AbsXWrite)),
        0xA0 => Some((Mnemonic::Ldy, SeqKind::ImmRead)),
        0xA1 => Some((Mnemonic::Lda, SeqKind::IndXRead)),
        0xA2 => Some((Mnemonic::Ldx, SeqKind::ImmRead)),
        0xA4 => Some((Mnemonic::Ldy, SeqKind::ZpRead)),
        0xA5 => Some((Mnemonic::Lda, SeqKind::ZpRead)),
        0xA6 => Some((Mnemonic::Ldx, SeqKind::ZpRead)),
        0xA8 => Some((Mnemonic::Tay, SeqKind::ImpNomem)),
        0xA9 => Some((Mnemonic::Lda, SeqKind::ImmRead)),
        0xAA => Some((Mnemonic::Tax, SeqKind::ImpNomem)),
        0xAC => Some((Mnemonic::Ldy, SeqKind::AbsRead)),
        0xAD => Some((Mnemonic::Lda, SeqKind::AbsRead)),
        0xAE => Some((Mnemonic::Ldx, SeqKind::AbsRead)),
        0xB0 => Some((Mnemonic::Bcs, SeqKind::RelBranch)),
        0xB1 => Some((Mnemonic::Lda, SeqKind::IndYRead)),
        0xB4 => Some((Mnemonic::Ldy, SeqKind::ZpXRead)),
        0xB5 => Some((Mnemonic::Lda, SeqKind::ZpXRead)),
        0xB6 => Some((Mnemonic::Ldx, SeqKind::ZpYRead)),
        0xB8 => Some((Mnemonic::Clv, SeqKind::ImpNomem)),
        0xB9 => Some((Mnemonic::Lda, SeqKind::AbsYRead)),
        0xBA => Some((Mnemonic::Tsx, SeqKind::ImpNomem)),
        0xBC => Some((Mnemonic::Ldy, SeqKind::AbsXRead)),
        0xBD => Some((Mnemonic::Lda, SeqKind::AbsXRead)),
        0xBE => Some((Mnemonic::Ldx, SeqKind::AbsYRead)),
        0xC0 => Some((Mnemonic::Cpy, SeqKind::ImmRead)),
        0xC1 => Some((Mnemonic::Cmp, SeqKind::IndXRead)),
        0xC4 => Some((Mnemonic::Cpy, SeqKind::ZpRead)),
        0xC5 => Some((Mnemonic::Cmp, SeqKind::ZpRead)),
        0xC6 => Some((Mnemonic::Dec, SeqKind::ZpRmw)),
        0xC8 => Some((Mnemonic::Iny, SeqKind::ImpNomem)),
        0xC9 => Some((Mnemonic::Cmp, SeqKind::ImmRead)),
        0xCA => Some((Mnemonic::Dex, SeqKind::ImpNomem)),
        0xCC => Some((Mnemonic::Cpy, SeqKind::AbsRead)),
        0xCD => Some((Mnemonic::Cmp, SeqKind::AbsRead)),
        0xCE => Some((Mnemonic::Dec, SeqKind::AbsRmw)),
        0xD0 => Some((Mnemonic::Bne, SeqKind::RelBranch)),
        0xD1 => Some((Mnemonic::Cmp, SeqKind::IndYRead)),
        0xD5 => Some((Mnemonic::Cmp, SeqKind::ZpXRead)),
        0xD6 => Some((Mnemonic::Dec, SeqKind::ZpXRmw)),
        0xD8 => Some((Mnemonic::Cld, SeqKind::ImpNomem)),
        0xD9 => Some((Mnemonic::Cmp, SeqKind::AbsYRead)),
        0xDD => Some((Mnemonic::Cmp, SeqKind::AbsXRead)),
        0xDE => Some((Mnemonic::Dec, SeqKind::AbsXRmw)),
        0xE0 => Some((Mnemonic::Cpx, SeqKind::ImmRead)),
        0xE1 => Some((Mnemonic::Sbc, SeqKind::IndXRead)),
        0xE4 => Some((Mnemonic::Cpx, SeqKind::ZpRead)),
        0xE5 => Some((Mnemonic::Sbc, SeqKind::ZpRead)),
        0xE6 => Some((Mnemonic::Inc, SeqKind::ZpRmw)),
        0xE8 => Some((Mnemonic::Inx, SeqKind::ImpNomem)),
        0xE9 => Some((Mnemonic::Sbc, SeqKind::ImmRead)),
        0xEA => Some((Mnemonic::Nop, SeqKind::ImpNomem)),
        0xEC => Some((Mnemonic::Cpx, SeqKind::AbsRead)),
        0xED => Some((Mnemonic::Sbc, SeqKind::AbsRead)),
        0xEE => Some((Mnemonic::Inc, SeqKind::AbsRmw)),
        0xF0 => Some((Mnemonic::Beq, SeqKind::RelBranch)),
        0xF1 => Some((Mnemonic::Sbc, SeqKind::IndYRead)),
        0xF5 => Some((Mnemonic::Sbc, SeqKind::ZpXRead)),
        0xF6 => Some((Mnemonic::Inc, SeqKind::ZpXRmw)),
        0xF8 => Some((Mnemonic::Sed, SeqKind::ImpNomem)),
        0xF9 => Some((Mnemonic::Sbc, SeqKind::AbsYRead)),
        0xFD => Some((Mnemonic::Sbc, SeqKind::AbsXRead)),
        0xFE => Some((Mnemonic::Inc, SeqKind::AbsXRmw)),
        _ => None,
    }
}

/// Look an opcode byte up in the table.
pub fn opcode_lookup(code: u8) -> (r: Option<Opcode>)
    ensures
        match r {
            Some(d) => spec_opcode(code) == Some((d.mnemonic, d.seq_kind)) && d.code == code,
            None => spec_opcode(code) is None,
        },
{
    match code {
        0x00 => Some(Opcode { code: 0x00, name: "BRK", mnemonic: Mnemonic::Nop, seq_kind: SeqKind::ImpBrk }),
        0x01 => Some(Opcode { code: 0x01, name: "ORA ($zp,X)", mnemonic: Mnemonic::Ora, seq_kind: SeqKind::IndXRead }),
        0x05 => Some(Opcode { code: 0x05, name: "ORA $zp", mnemonic: Mnemonic::Ora, seq_kind: SeqKind::ZpRead }),
        0x06 => Some(Opcode { code: 0x06, name: "ASL $zp", mnemonic: Mnemonic::Asl, seq_kind: SeqKind::ZpRmw }),
        0x08 => Some(Opcode { code: 0x08, name: "PHP", mnemonic: Mnemonic::Php, seq_kind: SeqKind::ImpPush }),
        0x09 => Some(Opcode { code: 0x09, name: "ORA #$imm", mnemonic: Mnemonic::Ora, seq_kind: SeqKind::ImmRead }),
        0x0A => Some(Opcode { code: 0x0A, name: "ASL A", mnemonic: Mnemonic::Asl, seq_kind: SeqKind::AccRmw }),
        0x0D => Some(Opcode { code: 0x0D, name: "ORA $addr", mnemonic: Mnemonic::Ora, seq_kind: SeqKind::AbsRead }),
        0x0E => Some(Opcode { code: 0x0E, name: "ASL $addr", mnemonic: Mnemonic::Asl, seq_kind: SeqKind::AbsRmw }),
        0x10 => Some(Opcode { code: 0x10, name: "BPL $rel", mnemonic: Mnemonic::Bpl, seq_kind: SeqKind::RelBranch }),
        0x11 => Some(Opcode { code: 0x11, name: "ORA ($zp),Y", mnemonic: Mnemonic::Ora, seq_kind: SeqKind::IndYRead }),
        0x15 => Some(Opcode { code: 0x15, name: "ORA $zp,X", mnemonic: Mnemonic::Ora, seq_kind: SeqKind::ZpXRead }),
        0x16 => Some(Opcode { code: 0x16, name: "ASL $zp,X", mnemonic: Mnemonic::Asl, seq_kind: SeqKind::ZpXRmw }),
        0x18 => Some(Opcode { code: 0x18, name: "CLC", mnemonic: Mnemonic::Clc, seq_kind: SeqKind::ImpNomem }),
        0x19 => Some(Opcode { code: 0x19, name: "ORA $addr,Y", mnemonic: Mnemonic::Ora, seq_kind: SeqKind::AbsYRead }),
        0x1D => Some(Opcode { code: 0x1D, name: "ORA $addr,X", mnemonic: Mnemonic::Ora, seq_kind: SeqKind::AbsXRead }),
        0x1E => Some(Opcode { code: 0x1E, name: "ASL $addr,X", mnemonic: Mnemonic::Asl, seq_kind: SeqKind::AbsXRmw }),
        0x20 => Some(Opcode { code: 0x20, name: "JSR $addr", mnemonic: Mnemonic::Nop, seq_kind: SeqKind::AbsJsr }),
        0x21 => Some(Opcode { code: 0x21, name: "AND ($zp,X)", mnemonic: Mnemonic::And, seq_kind: SeqKind::IndXRead }),
        0x24 => Some(Opcode { code: 0x24, name: "BIT $zp", mnemonic: Mnemonic::Bit, seq_kind: SeqKind::ZpRead }),
        0x25 => Some(Opcode { code: 0x25, name: "AND $zp", mnemonic: Mnemonic::And, seq_kind: SeqKind::ZpRead }),
        0x26 => Some(Opcode { code: 0x26, name: "ROL $zp", mnemonic: Mnemonic::Rol, seq_kind: SeqKind::ZpRmw }),
        0x28 => Some(Opcode { code: 0x28, name: "PLP", mnemonic: Mnemonic::Plp, seq_kind: SeqKind::ImpPop }),
        0x29 => Some(Opcode { code: 0x29, name: "AND #$imm", mnemonic: Mnemonic::And, seq_kind: SeqKind::ImmRead }),
        0x2A => Some(Opcode { code: 0x2A, name: "ROL A", mnemonic: Mnemonic::Rol, seq_kind: SeqKind::AccRmw }),
        0x2C => Some(Opcode { code: 0x2C, name: "BIT $addr", mnemonic: Mnemonic::Bit, seq_kind: SeqKind::AbsRead }),
        0x2D => Some(Opcode { code: 0x2D, name: "AND $addr", mnemonic: Mnemonic::And, seq_kind: SeqKind::AbsRead }),
        0x2E => Some(Opcode { code: 0x2E, name: "ROL $addr", mnemonic: Mnemonic::Rol, seq_kind: SeqKind::AbsRmw }),
        0x30 => Some(Opcode { code: 0x30, name: "BMI $rel", mnemonic: Mnemonic::Bmi, seq_kind: SeqKind::RelBranch }),
        0x31 => Some(Opcode { code: 0x31, name: "AND ($zp),Y", mnemonic: Mnemonic::And, seq_kind: SeqKind::IndYRead }),
        0x35 => Some(Opcode { code: 0x35, name: "AND $zp,X", mnemonic: Mnemonic::And, seq_kind: SeqKind::ZpXRead }),
        0x36 => Some(Opcode { code: 0x36, name: "ROL $zp,X", mnemonic: Mnemonic::Rol, seq_kind: SeqKind::ZpXRmw }),
        0x38 => Some(Opcode { code: 0x38, name: "SEC", mnemonic: Mnemonic::Sec, seq_kind: SeqKind::ImpNomem }),
        0x39 => Some(Opcode { code: 0x39, name: "AND $addr,Y", mnemonic: Mnemonic::And, seq_kind: SeqKind::AbsYRead }),
        0x3D => Some(Opcode { code: 0x3D, name: "AND $addr,X", mnemonic: Mnemonic::And, seq_kind: SeqKind::AbsXRead }),
        0x3E => Some(Opcode { code: 0x3E, name: "ROL $addr,X", mnemonic: Mnemonic::Rol, seq_kind: SeqKind::AbsXRmw }),
        0x40 => Some(Opcode { code: 0x40, name: "RTI", mnemonic: Mnemonic::Nop, seq_kind: SeqKind::ImpRti }),
        0x41 => Some(Opcode { code: 0x41, name: "EOR ($zp,X)", mnemonic: Mnemonic::Eor, seq_kind: SeqKind::IndXRead }),
        0x45 => Some(Opcode { code: 0x45, name: "EOR $zp", mnemonic: Mnemonic::Eor, seq_kind: SeqKind::ZpRead }),
        0x46 => Some(Opcode { code: 0x46, name: "LSR $zp", mnemonic: Mnemonic::Lsr, seq_kind: SeqKind::ZpRmw }),
        0x48 => Some(Opcode { code: 0x48, name: "PHA", mnemonic: Mnemonic::Pha, seq_kind: SeqKind::ImpPush }),
        0x49 => Some(Opcode { code: 0x49, name: "EOR #$imm", mnemonic: Mnemonic::Eor, seq_kind: SeqKind::ImmRead }),
        0x4A => Some(Opcode { code: 0x4A, name: "LSR A", mnemonic: Mnemonic::Lsr, seq_kind: SeqKind::AccRmw }),
        0x4C => Some(Opcode { code: 0x4C, name: "JMP $addr", mnemonic: Mnemonic::Nop, seq_kind: SeqKind::AbsJmp }),
        0x4D => Some(Opcode { code: 0x4D, name: "EOR $addr", mnemonic: Mnemonic::Eor, seq_kind: SeqKind::AbsRead }),
        0x4E => Some(Opcode { code: 0x4E, name: "LSR $addr", mnemonic: Mnemonic::Lsr, seq_kind: SeqKind::AbsRmw }),
        0x50 => Some(Opcode { code: 0x50, name: "BVC $rel", mnemonic: Mnemonic::Bvc, seq_kind: SeqKind::RelBranch }),
        0x51 => Some(Opcode { code: 0x51, name: "EOR ($zp),Y", mnemonic: Mnemonic::Eor, seq_kind: SeqKind::IndYRead }),
        0x55 => Some(Opcode { code: 0x55, name: "EOR $zp,X", mnemonic: Mnemonic::Eor, seq_kind: SeqKind::ZpXRead }),
        0x56 => Some(Opcode { code: 0x56, name: "LSR $zp,X", mnemonic: Mnemonic::Lsr, seq_kind: SeqKind::ZpXRmw }),
        0x58 => Some(Opcode { code: 0x58, name: "CLI", mnemonic: Mnemonic::Cli, seq_kind: SeqKind::ImpNomem }),
        0x59 => Some(Opcode { code: 0x59, name: "EOR $addr,Y", mnemonic: Mnemonic::Eor, seq_kind: SeqKind::AbsYRead }),
        0x5D => Some(Opcode { code: 0x5D, name: "EOR $addr,X", mnemonic: Mnemonic::Eor, seq_kind: SeqKind::AbsXRead }),
        0x5E => Some(Opcode { code: 0x5E, name: "LSR $addr,X", mnemonic: Mnemonic::Lsr, seq_kind: SeqKind::AbsXRmw }),
        0x60 => Some(Opcode { code: 0x60, name: "RTS", mnemonic: Mnemonic::Nop, seq_kind: SeqKind::ImpRts }),
        0x61 => Some(Opcode { code: 0x61, name: "ADC ($zp,X)", mnemonic: Mnemonic::Adc, seq_kind: SeqKind::IndXRead }),
        0x65 => Some(Opcode { code: 0x65, name: "ADC $zp", mnemonic: Mnemonic::Adc, seq_kind: SeqKind::ZpRead }),
        0x66 => Some(Opcode { code: 0x66, name: "ROR $zp", mnemonic: Mnemonic::Ror, seq_kind: SeqKind::ZpRmw }),
        0x68 => Some(Opcode { code: 0x68, name: "PLA", mnemonic: Mnemonic::Pla, seq_kind: SeqKind::ImpPop }),
        0x69 => Some(Opcode { code: 0x69, name: "ADC #$imm", mnemonic: Mnemonic::Adc, seq_kind: SeqKind::ImmRead }),
        0x6A => Some(Opcode { code: 0x6A, name: "ROR A", mnemonic: Mnemonic::Ror, seq_kind: SeqKind::AccRmw }),
        0x6C => Some(Opcode { code: 0x6C, name: "JMP ($addr)", mnemonic: Mnemonic::Nop, seq_kind: SeqKind::AbsIndJmp }),
        0x6D => Some(Opcode { code: 0x6D, name: "ADC $addr", mnemonic: Mnemonic::Adc, seq_kind: SeqKind::AbsRead }),
        0x6E => Some(Opcode { code: 0x6E, name: "ROR $addr", mnemonic: Mnemonic::Ror, seq_kind: SeqKind::AbsRmw }),
        0x70 => Some(Opcode { code: 0x70, name: "BVS $rel", mnemonic: Mnemonic::Bvs, seq_kind: SeqKind::RelBranch }),
        0x71 => Some(Opcode { code: 0x71, name: "ADC ($zp),Y", mnemonic: Mnemonic::Adc, seq_kind: SeqKind::IndYRead }),
        0x75 => Some(Opcode { code: 0x75, name: "ADC $zp,X", mnemonic: Mnemonic::Adc, seq_kind: SeqKind::ZpXRead }),
        0x76 => Some(Opcode { code: 0x76, name: "ROR $zp,X", mnemonic: Mnemonic::Ror, seq_kind: SeqKind::ZpXRmw }),
        0x78 => Some(Opcode { code: 0x78, name: "SEI", mnemonic: Mnemonic::Sei, seq_kind: SeqKind::ImpNomem }),
        0x79 => Some(Opcode { code: 0x79, name: "ADC $addr,Y", mnemonic: Mnemonic::Adc, seq_kind: SeqKind::AbsYRead }),
        0x7D => Some(Opcode { code: 0x7D, name: "ADC $addr,X", mnemonic: Mnemonic::Adc, seq_kind: SeqKind::AbsXRead }),
        0x7E => Some(Opcode { code: 0x7E, name: "ROR $addr,X", mnemonic: Mnemonic::Ror, seq_kind: SeqKind::AbsXRmw }),
        0x81 => Some(Opcode { code: 0x81, name: "STA ($zp,X)", mnemonic: Mnemonic::Sta, seq_kind: SeqKind::IndXWrite }),
        0x84 => Some(Opcode { code: 0x84, name: "STY $zp", mnemonic: Mnemonic::Sty, seq_kind: SeqKind::ZpWrite }),
        0x85 => Some(Opcode { code: 0x85, name: "STA $zp", mnemonic: Mnemonic::Sta, seq_kind: SeqKind::ZpWrite }),
        0x86 => Some(Opcode { code: 0x86, name: "STX $zp", mnemonic: Mnemonic::Stx, seq_kind: SeqKind::ZpWrite }),
        0x88 => Some(Opcode { code: 0x88, name: "DEY", mnemonic: Mnemonic::Dey, seq_kind: SeqKind::ImpNomem }),
        0x8A => Some(Opcode { code: 0x8A, name: "TXA", mnemonic: Mnemonic::Txa, seq_kind: SeqKind::ImpNomem }),
        0x8C => Some(Opcode { code: 0x8C, name: "STY $addr", mnemonic: Mnemonic::Sty, seq_kind: SeqKind::AbsWrite }),
        0x8D => Some(Opcode { code: 0x8D, name: "STA $addr", mnemonic: Mnemonic::Sta, seq_kind: SeqKind::AbsWrite }),
        0x8E => Some(Opcode { code: 0x8E, name: "STX $addr", mnemonic: Mnemonic::Stx, seq_kind: SeqKind::AbsWrite }),
        0x90 => Some(Opcode { code: 0x90, name: "BCC $rel", mnemonic: Mnemonic::Bcc, seq_kind: SeqKind::RelBranch }),
        0x91 => Some(Opcode { code: 0x91, name: "STA ($zp),Y", mnemonic: Mnemonic::Sta, seq_kind: SeqKind::IndYWrite }),
        0x94 => Some(Opcode { code: 0x94, name: "STY $zp,X", mnemonic: Mnemonic::Sty, seq_kind: SeqKind::ZpXWrite }),
        0x95 => Some(Opcode { code: 0x95, name: "STA $zp,X", mnemonic: Mnemonic::Sta, seq_kind: SeqKind::ZpXWrite }),
        0x96 => Some(Opcode { code: 0x96, name: "STX $zp,Y", mnemonic: Mnemonic::Stx, seq_kind: SeqKind::ZpYWrite }),
        0x98 => Some(Opcode { code: 0x98, name: "TYA", mnemonic: Mnemonic::Tya, seq_kind: SeqKind::ImpNomem }),
        0x99 => Some(Opcode { code: 0x99, name: "STA $addr,Y", mnemonic: Mnemonic::Sta, seq_kind: SeqKind::AbsYWrite }),
        0x9A => Some(Opcode { code: 0x9A, name: "TXS", mnemonic: Mnemonic::Txs, seq_kind: SeqKind::ImpNomem }),
        0x9D => Some(Opcode { code: 0x9D, name: "STA $addr,X", mnemonic: Mnemonic::Sta, seq_kind: SeqKind::AbsXWrite }),
        0xA0 => Some(Opcode { code: 0xA0, name: "LDY #$imm", mnemonic: Mnemonic::Ldy, seq_kind: SeqKind::ImmRead }),
        0xA1 => Some(Opcode { code: 0xA1, name: "LDA ($zp,X)", mnemonic: Mnemonic::Lda, seq_kind: SeqKind::IndXRead }),
        0xA2 => Some(Opcode { code: 0xA2, name: "LDX #$imm", mnemonic: Mnemonic::Ldx, seq_kind: SeqKind::ImmRead }),
        0xA4 => Some(Opcode { code: 0xA4, name: "LDY $zp", mnemonic: Mnemonic::Ldy, seq_kind: SeqKind::ZpRead }),
        0xA5 => Some(Opcode { code: 0xA5, name: "LDA $zp", mnemonic: Mnemonic::Lda, seq_kind: SeqKind::ZpRead }),
        0xA6 => Some(Opcode { code: 0xA6, name: "LDX $zp", mnemonic: Mnemonic::Ldx, seq_kind: SeqKind::ZpRead }),
        0xA8 => Some(Opcode { code: 0xA8, name: "TAY", mnemonic: Mnemonic::Tay, seq_kind: SeqKind::ImpNomem }),
        0xA9 => Some(Opcode { code: 0xA9, name: "LDA #$imm", mnemonic: Mnemonic::Lda, seq_kind: SeqKind::ImmRead }),
        0xAA => Some(Opcode { code: 0xAA, name: "TAX", mnemonic: Mnemonic::Tax, seq_kind: SeqKind::ImpNomem }),
        0xAC => Some(Opcode { code: 0xAC, name: "LDY $addr", mnemonic: Mnemonic::Ldy, seq_kind: SeqKind::AbsRead }),
        0xAD => Some(Opcode { code: 0xAD, name: "LDA $addr", mnemonic: Mnemonic::Lda, seq_kind: SeqKind::AbsRead }),
        0xAE => Some(Opcode { code: 0xAE, name: "LDX $addr", mnemonic: Mnemonic::Ldx, seq_kind: SeqKind::AbsRead }),
        0xB0 => Some(Opcode { code: 0xB0, name: "BCS $rel", mnemonic: Mnemonic::Bcs, seq_kind: SeqKind::RelBranch }),
        0xB1 => Some(Opcode { code: 0xB1, name: "LDA ($zp),Y", mnemonic: Mnemonic::Lda, seq_kind: SeqKind::IndYRead }),
        0xB4 => Some(Opcode { code: 0xB4, name: "LDY $zp,X", mnemonic: Mnemonic::Ldy, seq_kind: SeqKind::ZpXRead }),
        0xB5 => Some(Opcode { code: 0xB5, name: "LDA $zp,X", mnemonic: Mnemonic::Lda, seq_kind: SeqKind::ZpXRead }),
        0xB6 => Some(Opcode { code: 0xB6, name: "LDX $zp,Y", mnemonic: Mnemonic::Ldx, seq_kind: SeqKind::ZpYRead }),
        0xB8 => Some(Opcode { code: 0xB8, name: "CLV", mnemonic: Mnemonic::Clv, seq_kind: SeqKind::ImpNomem }),
        0xB9 => Some(Opcode { code: 0xB9, name: "LDA $addr,Y", mnemonic: Mnemonic::Lda, seq_kind: SeqKind::AbsYRead }),
        0xBA => Some(Opcode { code: 0xBA, name: "TSX", mnemonic: Mnemonic::Tsx, seq_kind: SeqKind::ImpNomem }),
        0xBC => Some(Opcode { code: 0xBC, name: "LDY $addr,X", mnemonic: Mnemonic::Ldy, seq_kind: SeqKind::AbsXRead }),
        0xBD => Some(Opcode { code: 0xBD, name: "LDA $addr,X", mnemonic: Mnemonic::Lda, seq_kind: SeqKind::AbsXRead }),
        0xBE => Some(Opcode { code: 0xBE, name: "LDX $addr,Y", mnemonic: Mnemonic::Ldx, seq_kind: SeqKind::AbsYRead }),
        0xC0 => Some(Opcode { code: 0xC0, name: "CPY #$imm", mnemonic: Mnemonic::Cpy, seq_kind: SeqKind::ImmRead }),
        0xC1 => Some(Opcode { code: 0xC1, name: "CMP ($zp,X)", mnemonic: Mnemonic::Cmp, seq_kind: SeqKind::IndXRead }),
        0xC4 => Some(Opcode { code: 0xC4, name: "CPY $zp", mnemonic: Mnemonic::Cpy, seq_kind: SeqKind::ZpRead }),
        0xC5 => Some(Opcode { code: 0xC5, name: "CMP $zp", mnemonic: Mnemonic::Cmp, seq_kind: SeqKind::ZpRead }),
        0xC6 => Some(Opcode { code: 0xC6, name: "DEC $zp", mnemonic: Mnemonic::Dec, seq_kind: SeqKind::ZpRmw }),
        0xC8 => Some(Opcode { code: 0xC8, name: "INY", mnemonic: Mnemonic::Iny, seq_kind: SeqKind::ImpNomem }),
        0xC9 => Some(Opcode { code: 0xC9, name: "CMP #$imm", mnemonic: Mnemonic::Cmp, seq_kind: SeqKind::ImmRead }),
        0xCA => Some(Opcode { code: 0xCA, name: "DEX", mnemonic: Mnemonic::Dex, seq_kind: SeqKind::ImpNomem }),
        0xCC => Some(Opcode { code: 0xCC, name: "CPY $addr", mnemonic: Mnemonic::Cpy, seq_kind: SeqKind::AbsRead }),
        0xCD => Some(Opcode { code: 0xCD, name: "CMP $addr", mnemonic: Mnemonic::Cmp, seq_kind: SeqKind::AbsRead }),
        0xCE => Some(Opcode { code: 0xCE, name: "DEC $addr", mnemonic: Mnemonic::Dec, seq_kind: SeqKind::AbsRmw }),
        0xD0 => Some(Opcode { code: 0xD0, name: "BNE $rel", mnemonic: Mnemonic::Bne, seq_kind: SeqKind::RelBranch }),
        0xD1 => Some(Opcode { code: 0xD1, name: "CMP ($zp),Y", mnemonic: Mnemonic::Cmp, seq_kind: SeqKind::IndYRead }),
        0xD5 => Some(Opcode { code: 0xD5, name: "CMP $zp,X", mnemonic: Mnemonic::Cmp, seq_kind: SeqKind::ZpXRead }),
        0xD6 => Some(Opcode { code: 0xD6, name: "DEC $zp,X", mnemonic: Mnemonic::Dec, seq_kind: SeqKind::ZpXRmw }),
        0xD8 => Some(Opcode { code: 0xD8, name: "CLD", mnemonic: Mnemonic::Cld, seq_kind: SeqKind::ImpNomem }),
        0xD9 => Some(Opcode { code: 0xD9, name: "CMP $addr,Y", mnemonic: Mnemonic::Cmp, seq_kind: SeqKind::AbsYRead }),
        0xDD => Some(Opcode { code: 0xDD, name: "CMP $addr,X", mnemonic: Mnemonic::Cmp, seq_kind: SeqKind::AbsXRead }),
        0xDE => Some(Opcode { code: 0xDE, name: "DEC $addr,X", mnemonic: Mnemonic::Dec, seq_kind: SeqKind::AbsXRmw }),
        0xE0 => Some(Opcode { code: 0xE0, name: "CPX #$imm", mnemonic: Mnemonic::Cpx, seq_kind: SeqKind::ImmRead }),
        0xE1 => Some(Opcode { code: 0xE1, name: "SBC ($zp,X)", mnemonic: Mnemonic::Sbc, seq_kind: SeqKind::IndXRead }),
        0xE4 => Some(Opcode { code: 0xE4, name: "CPX $zp", mnemonic: Mnemonic::Cpx, seq_kind: SeqKind::ZpRead }),
        0xE5 => Some(Opcode { code: 0xE5, name: "SBC $zp", mnemonic: Mnemonic::Sbc, seq_kind: SeqKind::ZpRead }),
        0xE6 => Some(Opcode { code: 0xE6, name: "INC $zp", mnemonic: Mnemonic::Inc, seq_kind: SeqKind::ZpRmw }),
        0xE8 => Some(Opcode { code: 0xE8, name: "INX", mnemonic: Mnemonic::Inx, seq_kind: SeqKind::ImpNomem }),
        0xE9 => Some(Opcode { code: 0xE9, name: "SBC #$imm", mnemonic: Mnemonic::Sbc, seq_kind: SeqKind::ImmRead }),
        0xEA => Some(Opcode { code: 0xEA, name: "NOP", mnemonic: Mnemonic::Nop, seq_kind: SeqKind::ImpNomem }),
        0xEC => Some(Opcode { code: 0xEC, name: "CPX $addr", mnemonic: Mnemonic::Cpx, seq_kind: SeqKind::AbsRead }),
        0xED => Some(Opcode { code: 0xED, name: "SBC $addr", mnemonic: Mnemonic::Sbc, seq_kind: SeqKind::AbsRead }),
        0xEE => Some(Opcode { code: 0xEE, name: "INC $addr", mnemonic: Mnemonic::Inc, seq_kind: SeqKind::AbsRmw }),
        0xF0 => Some(Opcode { code: 0xF0, name: "BEQ $rel", mnemonic: Mnemonic::Beq, seq_kind: SeqKind::RelBranch }),
        0xF1 => Some(Opcode { code: 0xF1, name: "SBC ($zp),Y", mnemonic: Mnemonic::Sbc, seq_kind: SeqKind::IndYRead }),
        0xF5 => Some(Opcode { code: 0xF5, name: "SBC $zp,X", mnemonic: Mnemonic::Sbc, seq_kind: SeqKind::ZpXRead }),
        0xF6 => Some(Opcode { code: 0xF6, name: "INC $zp,X", mnemonic: Mnemonic::Inc, seq_kind: SeqKind::ZpXRmw }),
        0xF8 => Some(Opcode { code: 0xF8, name: "SED", mnemonic: Mnemonic::Sed, seq_kind: SeqKind::ImpNomem }),
        0xF9 => Some(Opcode { code: 0xF9, name: "SBC $addr,Y", mnemonic: Mnemonic::Sbc, seq_kind: SeqKind::AbsYRead }),
        0xFD => Some(Opcode { code: 0xFD, name: "SBC $addr,X", mnemonic: Mnemonic::Sbc, seq_kind: SeqKind::AbsXRead }),
        0xFE => Some(Opcode { code: 0xFE, name: "INC $addr,X", mnemonic: Mnemonic::Inc, seq_kind: SeqKind::AbsXRmw }),
        _ => None,
    }
}

} // verus!
