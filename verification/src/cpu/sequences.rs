//! Cycle sequences: the per-cycle action catalog, the memory-cycle
//! descriptors, and the static ordered sequences of (action, memory cycle)
//! pairs for every addressing mode, instruction family and entry vector.
//! A sequence's length is the instruction's cycle count.

use vstd::prelude::*;

verus! {

/// The kind of memory access the engine performs on behalf of one cycle.
/// The `Inc` variants advance PC by one before the access is formed;
/// `PushStk` decrements S after address formation; `PopStk` pre-increments
/// S.
#[derive(Debug, Clone, Copy, PartialEq, Eq, Structural)]
pub enum MemCycle {
    IncReadPC,
    ReadPC,
    IncReadTmp,
    ReadTmp,
    IncWriteTmp,
    WriteTmp,
    IncReadStk,
    ReadStk,
    IncPushStk,
    PushStk,
    PopStk,
}

/// The catalog of atomic per-cycle mutations of the CPU's internal state
/// and status register.
#[derive(Debug, Clone, Copy, PartialEq, Eq, Structural)]
pub enum CycleAction {
    Nop,
    Dispatch,
    SetP,
    DecS,
    SetPcLo,
    SetPcHi,
    SetPcFull,
    SetPcLoIncTmp,
    AdvancePcByDatStopIfNoCarry,
    CarryIntoPcHi,
    InvokeOp,
    InvokeOpA,
    InvokeOpDat,
    InvokeOpRdVal,
    SetTmpLo,
    SetTmpHi,
    SetTmpFull,
    SetTmpZp,
    SetTmpHiInvokeOpDat,
    SetTmpZpInvokeOpDat,
    SetTmpFullInvokeOpDat,
    SetTmpHiIncByXRecordCarry,
    SetTmpHiIncByXSkipIfNoCarry,
    SetTmpHiIncByYRecordCarry,
    SetTmpHiIncByYSkipIfNoCarry,
    SetTmpFullIncByYRecordCarry,
    SetTmpFullIncByYSkipIfNoCarry,
    IncTmpHi,
    CarryIntoTmpHi,
    CarryIntoTmpHiInvokeOpDat,
    IncTmpByX,
    IncTmpByXInvokeOpDat,
    IncTmpByY,
    IncTmpByYInvokeOpDat,
    SavePcHi,
    SavePcLo,
    SaveRdVal,
    SaveP,
    SavePBrk,
    SaveRdValStopIfNoBranch,
    SaveRdValIncTmp,
    SetResetVec,
    SetIrqVec,
    SetNmiVec,
}

/// One cycle of a sequence: the action to run and the memory cycle the
/// engine performs on the same clock.
pub type CpuCycle = (CycleAction, MemCycle);

/// Which static sequence an instruction or entry vector uses.
#[derive(Debug, Clone, Copy, PartialEq, Eq, Structural)]
pub enum SeqKind {
    Reset,
    Irq,
    Nmi,
    Dispatch,
    AbsJmp,
    AbsJsr,
    AbsRmw,
    AbsRead,
    AbsWrite,
    AbsIndJmp,
    AbsXRmw,
    AbsXRead,
    AbsXWrite,
    AbsYRead,
    AbsYWrite,
    AccRmw,
    ImmRead,
    ImpBrk,
    ImpNomem,
    ImpPop,
    ImpPush,
    ImpRti,
    ImpRts,
    IndXRmw,
    IndXRead,
    IndXWrite,
    IndYRmw,
    IndYRead,
    IndYWrite,
    RelBranch,
    ZpRmw,
    ZpRead,
    ZpWrite,
    ZpXRmw,
    ZpXRead,
    ZpXWrite,
    ZpYRead,
    ZpYWrite,
}

/// The ordered cycles of each static sequence. Cycle counts and bus kinds
/// follow MOS 6502 canon: read forms of the indexed modes carry the
/// "skip if no carry" action that drops the fixup cycle on same-page
/// accesses, while write and read-modify-write forms always keep it.
pub open spec fn spec_sequence(kind: SeqKind) -> Seq<CpuCycle> {
    match kind {
        SeqKind::Reset => seq![
            (CycleAction::DecS, MemCycle::ReadStk),
            (CycleAction::DecS, MemCycle::ReadStk),
            (CycleAction::DecS, MemCycle::ReadStk),
            (CycleAction::SetResetVec, MemCycle::ReadTmp),
            (CycleAction::SetPcLoIncTmp, MemCycle::ReadTmp),
            (CycleAction::SetPcHi, MemCycle::ReadPC),
        ],
        SeqKind::Irq => seq![
            (CycleAction::SavePcHi, MemCycle::IncPushStk),
            (CycleAction::SavePcLo, MemCycle::PushStk),
            (CycleAction::SaveP, MemCycle::PushStk),
            (CycleAction::SetIrqVec, MemCycle::ReadTmp),
            (CycleAction::SetPcLoIncTmp, MemCycle::ReadTmp),
            (CycleAction::SetPcHi, MemCycle::ReadPC),
        ],
        SeqKind::Nmi => seq![
            (CycleAction::SavePcHi, MemCycle::IncPushStk),
            (CycleAction::SavePcLo, MemCycle::PushStk),
            (CycleAction::SaveP, MemCycle::PushStk),
            (CycleAction::SetNmiVec, MemCycle::ReadTmp),
            (CycleAction::SetPcLoIncTmp, MemCycle::ReadTmp),
            (CycleAction::SetPcHi, MemCycle::ReadPC),
        ],
        SeqKind::Dispatch => seq![(CycleAction::Dispatch, MemCycle::IncReadPC)],
        SeqKind::AbsJmp => seq![
            (CycleAction::SetTmpLo, MemCycle::IncReadPC),
            (CycleAction::SetPcFull, MemCycle::ReadPC),
        ],
        SeqKind::AbsJsr => seq![
            (CycleAction::SetTmpLo, MemCycle::IncReadStk),
            (CycleAction::SavePcHi, MemCycle::PushStk),
            (CycleAction::SavePcLo, MemCycle::PushStk),
            (CycleAction::Nop, MemCycle::ReadPC),
            (CycleAction::SetPcFull, MemCycle::ReadPC),
        ],
        SeqKind::AbsRmw => seq![
            (CycleAction::SetTmpLo, MemCycle::IncReadPC),
            (CycleAction::SetTmpHi, MemCycle::IncReadTmp),
            (CycleAction::SaveRdVal, MemCycle::WriteTmp),
            (CycleAction::InvokeOpDat, MemCycle::WriteTmp),
            (CycleAction::Nop, MemCycle::ReadPC),
        ],
        SeqKind::AbsRead => seq![
            (CycleAction::SetTmpLo, MemCycle::IncReadPC),
            (CycleAction::SetTmpHi, MemCycle::IncReadTmp),
            (CycleAction::InvokeOpRdVal, MemCycle::ReadPC),
        ],
        SeqKind::AbsWrite => seq![
            (CycleAction::SetTmpLo, MemCycle::IncReadPC),
            (CycleAction::SetTmpHiInvokeOpDat, MemCycle::IncWriteTmp),
            (CycleAction::Nop, MemCycle::ReadPC),
        ],
        SeqKind::AbsIndJmp => seq![
            (CycleAction::SetTmpLo, MemCycle::IncReadPC),
            (CycleAction::SetTmpHi, MemCycle::IncReadTmp),
            (CycleAction::SetPcLoIncTmp, MemCycle::ReadTmp),
            (CycleAction::SetPcHi, MemCycle::ReadPC),
        ],
        SeqKind::AbsXRmw => seq![
            (CycleAction::SetTmpLo, MemCycle::IncReadPC),
            (CycleAction::SetTmpHiIncByXRecordCarry, MemCycle::IncReadTmp),
            (CycleAction::CarryIntoTmpHi, MemCycle::ReadTmp),
            (CycleAction::SaveRdVal, MemCycle::WriteTmp),
            (CycleAction::InvokeOpDat, MemCycle::WriteTmp),
            (CycleAction::Nop, MemCycle::ReadPC),
        ],
        SeqKind::AbsXRead => seq![
            (CycleAction::SetTmpLo, MemCycle::IncReadPC),
            (CycleAction::SetTmpHiIncByXSkipIfNoCarry, MemCycle::IncReadTmp),
            (CycleAction::IncTmpHi, MemCycle::ReadTmp),
            (CycleAction::InvokeOpRdVal, MemCycle::ReadPC),
        ],
        SeqKind::AbsXWrite => seq![
            (CycleAction::SetTmpLo, MemCycle::IncReadPC),
            (CycleAction::SetTmpHiIncByXRecordCarry, MemCycle::IncReadPC),
            (CycleAction::CarryIntoTmpHiInvokeOpDat, MemCycle::WriteTmp),
            (CycleAction::Nop, MemCycle::ReadPC),
        ],
        SeqKind::AbsYRead => seq![
            (CycleAction::SetTmpLo, MemCycle::IncReadPC),
            (CycleAction::SetTmpHiIncByYSkipIfNoCarry, MemCycle::IncReadTmp),
            (CycleAction::IncTmpHi, MemCycle::ReadTmp),
            (CycleAction::InvokeOpRdVal, MemCycle::ReadPC),
        ],
        SeqKind::AbsYWrite => seq![
            (CycleAction::SetTmpLo, MemCycle::IncReadPC),
            (CycleAction::SetTmpHiIncByYRecordCarry, MemCycle::IncReadPC),
            (CycleAction::CarryIntoTmpHiInvokeOpDat, MemCycle::WriteTmp),
            (CycleAction::Nop, MemCycle::ReadPC),
        ],
        SeqKind::AccRmw => seq![(CycleAction::InvokeOpA, MemCycle::ReadPC)],
        SeqKind::ImmRead => seq![(CycleAction::InvokeOpRdVal, MemCycle::IncReadPC)],
        SeqKind::ImpBrk => seq![
            (CycleAction::SavePcHi, MemCycle::IncPushStk),
            (CycleAction::SavePcLo, MemCycle::PushStk),
            (CycleAction::SavePBrk, MemCycle::PushStk),
            (CycleAction::SetIrqVec, MemCycle::ReadTmp),
            (CycleAction::SetPcLoIncTmp, MemCycle::ReadTmp),
            (CycleAction::SetPcHi, MemCycle::ReadPC),
        ],
        SeqKind::ImpNomem => seq![(CycleAction::InvokeOp, MemCycle::ReadPC)],
        SeqKind::ImpPop => seq![
            (CycleAction::Nop, MemCycle::ReadStk),
            (CycleAction::Nop, MemCycle::PopStk),
            (CycleAction::InvokeOpRdVal, MemCycle::ReadPC),
        ],
        SeqKind::ImpPush => seq![
            (CycleAction::InvokeOpDat, MemCycle::PushStk),
            (CycleAction::Nop, MemCycle::ReadPC),
        ],
        SeqKind::ImpRti => seq![
            (CycleAction::Nop, MemCycle::ReadStk),
            (CycleAction::Nop, MemCycle::PopStk),
            (CycleAction::SetP, MemCycle::PopStk),
            (CycleAction::SetPcLo, MemCycle::PopStk),
            (CycleAction::SetPcHi, MemCycle::ReadPC),
        ],
        SeqKind::ImpRts => seq![
            (CycleAction::Nop, MemCycle::ReadStk),
            (CycleAction::Nop, MemCycle::PopStk),
            (CycleAction::SetPcLo, MemCycle::PopStk),
            (CycleAction::SetPcHi, MemCycle::ReadPC),
            (CycleAction::Nop, MemCycle::IncReadPC),
        ],
        SeqKind::IndXRmw => seq![
            (CycleAction::SetTmpZp, MemCycle::IncReadTmp),
            (CycleAction::IncTmpByX, MemCycle::ReadTmp),
            (CycleAction::SaveRdValIncTmp, MemCycle::ReadTmp),
            (CycleAction::SetTmpFull, MemCycle::ReadTmp),
            (CycleAction::SaveRdVal, MemCycle::WriteTmp),
            (CycleAction::InvokeOpDat, MemCycle::WriteTmp),
            (CycleAction::Nop, MemCycle::ReadPC),
        ],
        SeqKind::IndXRead => seq![
            (CycleAction::SetTmpZp, MemCycle::IncReadTmp),
            (CycleAction::IncTmpByX, MemCycle::ReadTmp),
            (CycleAction::SaveRdValIncTmp, MemCycle::ReadTmp),
            (CycleAction::SetTmpFull, MemCycle::ReadTmp),
            (CycleAction::InvokeOpRdVal, MemCycle::ReadPC),
        ],
        SeqKind::IndXWrite => seq![
            (CycleAction::SetTmpZp, MemCycle::IncReadTmp),
            (CycleAction::IncTmpByX, MemCycle::ReadTmp),
            (CycleAction::SaveRdValIncTmp, MemCycle::ReadTmp),
            (CycleAction::SetTmpFullInvokeOpDat, MemCycle::WriteTmp),
            (CycleAction::Nop, MemCycle::ReadPC),
        ],
        SeqKind::IndYRmw => seq![
            (CycleAction::SetTmpZp, MemCycle::IncReadTmp),
            (CycleAction::SaveRdValIncTmp, MemCycle::ReadTmp),
            (CycleAction::SetTmpFullIncByYRecordCarry, MemCycle::ReadTmp),
            (CycleAction::CarryIntoTmpHi, MemCycle::ReadTmp),
            (CycleAction::SaveRdVal, MemCycle::WriteTmp),
            (CycleAction::InvokeOpDat, MemCycle::WriteTmp),
            (CycleAction::Nop, MemCycle::ReadPC),
        ],
        SeqKind::IndYRead => seq![
            (CycleAction::SetTmpZp, MemCycle::IncReadTmp),
            (CycleAction::SaveRdValIncTmp, MemCycle::ReadTmp),
            (CycleAction::SetTmpFullIncByYSkipIfNoCarry, MemCycle::ReadTmp),
            (CycleAction::IncTmpHi, MemCycle::ReadTmp),
            (CycleAction::InvokeOpRdVal, MemCycle::ReadPC),
        ],
        SeqKind::IndYWrite => seq![
            (CycleAction::SetTmpZp, MemCycle::IncReadTmp),
            (CycleAction::SaveRdValIncTmp, MemCycle::ReadTmp),
            (CycleAction::SetTmpFullIncByYRecordCarry, MemCycle::ReadTmp),
            (CycleAction::CarryIntoTmpHiInvokeOpDat, MemCycle::WriteTmp),
            (CycleAction::Nop, MemCycle::ReadPC),
        ],
        SeqKind::RelBranch => seq![
            (CycleAction::SaveRdValStopIfNoBranch, MemCycle::IncReadPC),
            (CycleAction::AdvancePcByDatStopIfNoCarry, MemCycle::ReadPC),
            (CycleAction::CarryIntoPcHi, MemCycle::ReadPC),
        ],
        SeqKind::ZpRmw => seq![
            (CycleAction::SetTmpZp, MemCycle::IncReadTmp),
            (CycleAction::SaveRdVal, MemCycle::WriteTmp),
            (CycleAction::InvokeOpDat, MemCycle::WriteTmp),
            (CycleAction::Nop, MemCycle::ReadPC),
        ],
        SeqKind::ZpRead => seq![
            (CycleAction::SetTmpZp, MemCycle::IncReadTmp),
            (CycleAction::InvokeOpRdVal, MemCycle::ReadPC),
        ],
        SeqKind::ZpWrite => seq![
            (CycleAction::SetTmpZpInvokeOpDat, MemCycle::IncWriteTmp),
            (CycleAction::Nop, MemCycle::ReadPC),
        ],
        SeqKind::ZpXRmw => seq![
            (CycleAction::SetTmpZp, MemCycle::IncReadTmp),
            (CycleAction::IncTmpByX, MemCycle::ReadTmp),
            (CycleAction::SaveRdVal, MemCycle::WriteTmp),
            (CycleAction::InvokeOpDat, MemCycle::WriteTmp),
            (CycleAction::Nop, MemCycle::ReadPC),
        ],
        SeqKind::ZpXRead => seq![
            (CycleAction::SetTmpZp, MemCycle::IncReadTmp),
            (CycleAction::IncTmpByX, MemCycle::ReadTmp),
            (CycleAction::InvokeOpRdVal, MemCycle::ReadPC),
        ],
        SeqKind::ZpXWrite => seq![
            (CycleAction::SetTmpZp, MemCycle::IncReadTmp),
            (CycleAction::IncTmpByXInvokeOpDat, MemCycle::WriteTmp),
            (CycleAction::Nop, MemCycle::ReadPC),
        ],
        SeqKind::ZpYRead => seq![
            (CycleAction::SetTmpZp, MemCycle::IncReadTmp),
            (CycleAction::IncTmpByY, MemCycle::ReadTmp),
            (CycleAction::InvokeOpRdVal, MemCycle::ReadPC),
        ],
        SeqKind::ZpYWrite => seq![
            (CycleAction::SetTmpZp, MemCycle::IncReadTmp),
            (CycleAction::IncTmpByYInvokeOpDat, MemCycle::WriteTmp),
            (CycleAction::Nop, MemCycle::ReadPC),
        ],
    }
}

/// Build the cycles of a sequence as a vector, front cycle first.
pub fn sequence_for(kind: SeqKind) -> (r: Vec<CpuCycle>)
    ensures
        r@ == spec_sequence(kind),
{
    let mut r: Vec<CpuCycle> = Vec::new();
    match kind {
        SeqKind::Reset => {
            r.push((CycleAction::DecS, MemCycle::ReadStk));
            r.push((CycleAction::DecS, MemCycle::ReadStk));
            r.push((CycleAction::DecS, MemCycle::ReadStk));
            r.push((CycleAction::SetResetVec, MemCycle::ReadTmp));
            r.push((CycleAction::SetPcLoIncTmp, MemCycle::ReadTmp));
            r.push((CycleAction::SetPcHi, MemCycle::ReadPC));
        },
        SeqKind::Irq => {
            r.push((CycleAction::SavePcHi, MemCycle::IncPushStk));
            r.push((CycleAction::SavePcLo, MemCycle::PushStk));
            r.push((CycleAction::SaveP, MemCycle::PushStk));
            r.push((CycleAction::SetIrqVec, MemCycle::ReadTmp));
            r.push((CycleAction::SetPcLoIncTmp, MemCycle::ReadTmp));
            r.push((CycleAction::SetPcHi, MemCycle::ReadPC));
        },
        SeqKind::Nmi => {
            r.push((CycleAction::SavePcHi, MemCycle::IncPushStk));
            r.push((CycleAction::SavePcLo, MemCycle::PushStk));
            r.push((CycleAction::SaveP, MemCycle::PushStk));
            r.push((CycleAction::SetNmiVec, MemCycle::ReadTmp));
            r.push((CycleAction::SetPcLoIncTmp, MemCycle::ReadTmp));
            r.push((CycleAction::SetPcHi, MemCycle::ReadPC));
        },
        SeqKind::Dispatch => {
            r.push((CycleAction::Dispatch, MemCycle::IncReadPC));
        },
        SeqKind::AbsJmp => {
            r.push((CycleAction::SetTmpLo, MemCycle::IncReadPC));
            r.push((CycleAction::SetPcFull, MemCycle::ReadPC));
        },
        SeqKind::AbsJsr => {
            r.push((CycleAction::SetTmpLo, MemCycle::IncReadStk));
            r.push((CycleAction::SavePcHi, MemCycle::PushStk));
            r.push((CycleAction::SavePcLo, MemCycle::PushStk));
            r.push((CycleAction::Nop, MemCycle::ReadPC));
            r.push((CycleAction::SetPcFull, MemCycle::ReadPC));
        },
        SeqKind::AbsRmw => {
            r.push((CycleAction::SetTmpLo, MemCycle::IncReadPC));
            r.push((CycleAction::SetTmpHi, MemCycle::IncReadTmp));
            r.push((CycleAction::SaveRdVal, MemCycle::WriteTmp));
            r.push((CycleAction::InvokeOpDat, MemCycle::WriteTmp));
            r.push((CycleAction::Nop, MemCycle::ReadPC));
        },
        SeqKind::AbsRead => {
            r.push((CycleAction::SetTmpLo, MemCycle::IncReadPC));
            r.push((CycleAction::SetTmpHi, MemCycle::IncReadTmp));
            r.push((CycleAction::InvokeOpRdVal, MemCycle::ReadPC));
        },
        SeqKind::AbsWrite => {
            r.push((CycleAction::SetTmpLo, MemCycle::IncReadPC));
            r.push((CycleAction::SetTmpHiInvokeOpDat, MemCycle::IncWriteTmp));
            r.push((CycleAction::Nop, MemCycle::ReadPC));
        },
        SeqKind::AbsIndJmp => {
            r.push((CycleAction::SetTmpLo, MemCycle::IncReadPC));
            r.push((CycleAction::SetTmpHi, MemCycle::IncReadTmp));
            r.push((CycleAction::SetPcLoIncTmp, MemCycle::ReadTmp));
            r.push((CycleAction::SetPcHi, MemCycle::ReadPC));
        },
        SeqKind::AbsXRmw => {
            r.push((CycleAction::SetTmpLo, MemCycle::IncReadPC));
            r.push((CycleAction::SetTmpHiIncByXRecordCarry, MemCycle::IncReadTmp));
            r.push((CycleAction::CarryIntoTmpHi, MemCycle::ReadTmp));
            r.push((CycleAction::SaveRdVal, MemCycle::WriteTmp));
            r.push((CycleAction::InvokeOpDat, MemCycle::WriteTmp));
            r.push((CycleAction::Nop, MemCycle::ReadPC));
        },
        SeqKind::AbsXRead => {
            r.push((CycleAction::SetTmpLo, MemCycle::IncReadPC));
            r.push((CycleAction::SetTmpHiIncByXSkipIfNoCarry, MemCycle::IncReadTmp));
            r.push((CycleAction::IncTmpHi, MemCycle::ReadTmp));
            r.push((CycleAction::InvokeOpRdVal, MemCycle::ReadPC));
        },
        SeqKind::AbsXWrite => {
            r.push((CycleAction::SetTmpLo, MemCycle::IncReadPC));
            r.push((CycleAction::SetTmpHiIncByXRecordCarry, MemCycle::IncReadPC));
            r.push((CycleAction::CarryIntoTmpHiInvokeOpDat, MemCycle::WriteTmp));
            r.push((CycleAction::Nop, MemCycle::ReadPC));
        },
        SeqKind::AbsYRead => {
            r.push((CycleAction::SetTmpLo, MemCycle::IncReadPC));
            r.push((CycleAction::SetTmpHiIncByYSkipIfNoCarry, MemCycle::IncReadTmp));
            r.push((CycleAction::IncTmpHi, MemCycle::ReadTmp));
            r.push((CycleAction::InvokeOpRdVal, MemCycle::ReadPC));
        },
        SeqKind::AbsYWrite => {
            r.push((CycleAction::SetTmpLo, MemCycle::IncReadPC));
            r.push((CycleAction::SetTmpHiIncByYRecordCarry, MemCycle::IncReadPC));
            r.push((CycleAction::CarryIntoTmpHiInvokeOpDat, MemCycle::WriteTmp));
            r.push((CycleAction::Nop, MemCycle::ReadPC));
        },
        SeqKind::AccRmw => {
            r.push((CycleAction::InvokeOpA, MemCycle::ReadPC));
        },
        SeqKind::ImmRead => {
            r.push((CycleAction::InvokeOpRdVal, MemCycle::IncReadPC));
        },
        SeqKind::ImpBrk => {
            r.push((CycleAction::SavePcHi, MemCycle::IncPushStk));
            r.push((CycleAction::SavePcLo, MemCycle::PushStk));
            r.push((CycleAction::SavePBrk, MemCycle::PushStk));
            r.push((CycleAction::SetIrqVec, MemCycle::ReadTmp));
            r.push((CycleAction::SetPcLoIncTmp, MemCycle::ReadTmp));
            r.push((CycleAction::SetPcHi, MemCycle::ReadPC));
        },
        SeqKind::ImpNomem => {
            r.push((CycleAction::InvokeOp, MemCycle::ReadPC));
        },
        SeqKind::ImpPop => {
            r.push((CycleAction::Nop, MemCycle::ReadStk));
            r.push((CycleAction::Nop, MemCycle::PopStk));
            r.push((CycleAction::InvokeOpRdVal, MemCycle::ReadPC));
        },
        SeqKind::ImpPush => {
            r.push((CycleAction::InvokeOpDat, MemCycle::PushStk));
            r.push((CycleAction::Nop, MemCycle::ReadPC));
        },
        SeqKind::ImpRti => {
            r.push((CycleAction::Nop, MemCycle::ReadStk));
            r.push((CycleAction::Nop, MemCycle::PopStk));
            r.push((CycleAction::SetP, MemCycle::PopStk));
            r.push((CycleAction::SetPcLo, MemCycle::PopStk));
            r.push((CycleAction::SetPcHi, MemCycle::ReadPC));
        },
        SeqKind::ImpRts => {
            r.push((CycleAction::Nop, MemCycle::ReadStk));
            r.push((CycleAction::Nop, MemCycle::PopStk));
            r.push((CycleAction::SetPcLo, MemCycle::PopStk));
            r.push((CycleAction::SetPcHi, MemCycle::ReadPC));
            r.push((CycleAction::Nop, MemCycle::IncReadPC));
        },
        SeqKind::IndXRmw => {
            r.push((CycleAction::SetTmpZp, MemCycle::IncReadTmp));
            r.push((CycleAction::IncTmpByX, MemCycle::ReadTmp));
            r.push((CycleAction::SaveRdValIncTmp, MemCycle::ReadTmp));
            r.push((CycleAction::SetTmpFull, MemCycle::ReadTmp));
            r.push((CycleAction::SaveRdVal, MemCycle::WriteTmp));
            r.push((CycleAction::InvokeOpDat, MemCycle::WriteTmp));
            r.push((CycleAction::Nop, MemCycle::ReadPC));
        },
        SeqKind::IndXRead => {
            r.push((CycleAction::SetTmpZp, MemCycle::IncReadTmp));
            r.push((CycleAction::IncTmpByX, MemCycle::ReadTmp));
            r.push((CycleAction::SaveRdValIncTmp, MemCycle::ReadTmp));
            r.push((CycleAction::SetTmpFull, MemCycle::ReadTmp));
            r.push((CycleAction::InvokeOpRdVal, MemCycle::ReadPC));
        },
        SeqKind::IndXWrite => {
            r.push((CycleAction::SetTmpZp, MemCycle::IncReadTmp));
            r.push((CycleAction::IncTmpByX, MemCycle::ReadTmp));
            r.push((CycleAction::SaveRdValIncTmp, MemCycle::ReadTmp));
            r.push((CycleAction::SetTmpFullInvokeOpDat, MemCycle::WriteTmp));
            r.push((CycleAction::Nop, MemCycle::ReadPC));
        },
        SeqKind::IndYRmw => {
            r.push((CycleAction::SetTmpZp, MemCycle::IncReadTmp));
            r.push((CycleAction::SaveRdValIncTmp, MemCycle::ReadTmp));
            r.push((CycleAction::SetTmpFullIncByYRecordCarry, MemCycle::ReadTmp));
            r.push((CycleAction::CarryIntoTmpHi, MemCycle::ReadTmp));
            r.push((CycleAction::SaveRdVal, MemCycle::WriteTmp));
            r.push((CycleAction::InvokeOpDat, MemCycle::WriteTmp));
            r.push((CycleAction::Nop, MemCycle::ReadPC));
        },
        SeqKind::IndYRead => {
            r.push((CycleAction::SetTmpZp, MemCycle::IncReadTmp));
            r.push((CycleAction::SaveRdValIncTmp, MemCycle::ReadTmp));
            r.push((CycleAction::SetTmpFullIncByYSkipIfNoCarry, MemCycle::ReadTmp));
            r.push((CycleAction::IncTmpHi, MemCycle::ReadTmp));
            r.push((CycleAction::InvokeOpRdVal, MemCycle::ReadPC));
        },
        SeqKind::IndYWrite => {
            r.push((CycleAction::SetTmpZp, MemCycle::IncReadTmp));
            r.push((CycleAction::SaveRdValIncTmp, MemCycle::ReadTmp));
            r.push((CycleAction::SetTmpFullIncByYRecordCarry, MemCycle::ReadTmp));
            r.push((CycleAction::CarryIntoTmpHiInvokeOpDat, MemCycle::WriteTmp));
            r.push((CycleAction::Nop, MemCycle::ReadPC));
        },
        SeqKind::RelBranch => {
            r.push((CycleAction::SaveRdValStopIfNoBranch, MemCycle::IncReadPC));
            r.push((CycleAction::AdvancePcByDatStopIfNoCarry, MemCycle::ReadPC));
            r.push((CycleAction::CarryIntoPcHi, MemCycle::ReadPC));
        },
        SeqKind::ZpRmw => {
            r.push((CycleAction::SetTmpZp, MemCycle::IncReadTmp));
            r.push((CycleAction::SaveRdVal, MemCycle::WriteTmp));
            r.push((CycleAction::InvokeOpDat, MemCycle::WriteTmp));
            r.push((CycleAction::Nop, MemCycle::ReadPC));
        },
        SeqKind::ZpRead => {
            r.push((CycleAction::SetTmpZp, MemCycle::IncReadTmp));
            r.push((CycleAction::InvokeOpRdVal, MemCycle::ReadPC));
        },
        SeqKind::ZpWrite => {
            r.push((CycleAction::SetTmpZpInvokeOpDat, MemCycle::IncWriteTmp));
            r.push((CycleAction::Nop, MemCycle::ReadPC));
        },
        SeqKind::ZpXRmw => {
            r.push((CycleAction::SetTmpZp, MemCycle::IncReadTmp));
            r.push((CycleAction::IncTmpByX, MemCycle::ReadTmp));
            r.push((CycleAction::SaveRdVal, MemCycle::WriteTmp));
            r.push((CycleAction::InvokeOpDat, MemCycle::WriteTmp));
            r.push((CycleAction::Nop, MemCycle::ReadPC));
        },
        SeqKind::ZpXRead => {
            r.push((CycleAction::SetTmpZp, MemCycle::IncReadTmp));
            r.push((CycleAction::IncTmpByX, MemCycle::ReadTmp));
            r.push((CycleAction::InvokeOpRdVal, MemCycle::ReadPC));
        },
        SeqKind::ZpXWrite => {
            r.push((CycleAction::SetTmpZp, MemCycle::IncReadTmp));
            r.push((CycleAction::IncTmpByXInvokeOpDat, MemCycle::WriteTmp));
            r.push((CycleAction::Nop, MemCycle::ReadPC));
        },
        SeqKind::ZpYRead => {
            r.push((CycleAction::SetTmpZp, MemCycle::IncReadTmp));
            r.push((CycleAction::IncTmpByY, MemCycle::ReadTmp));
            r.push((CycleAction::InvokeOpRdVal, MemCycle::ReadPC));
        },
        SeqKind::ZpYWrite => {
            r.push((CycleAction::SetTmpZp, MemCycle::IncReadTmp));
            r.push((CycleAction::IncTmpByYInvokeOpDat, MemCycle::WriteTmp));
            r.push((CycleAction::Nop, MemCycle::ReadPC));
        },
    }
    proof {
        assert(r@ =~= spec_sequence(kind));
    }
    r
}

/// The trace name of a cycle action, as the sequence trace prints it.
pub(crate) fn action_name(a: CycleAction) -> &'static str {
    match a {
        CycleAction::Nop => "NOP",
        CycleAction::Dispatch => "DISPATCH",
        CycleAction::SetP => "SET_P",
        CycleAction::DecS => "DEC_S",
        CycleAction::SetPcLo => "SET_PC_LO",
        CycleAction::SetPcHi => "SET_PC_HI",
        CycleAction::SetPcFull => "SET_PC_FULL",
        CycleAction::SetPcLoIncTmp => "SET_PC_LO_INC_TMP",
        CycleAction::AdvancePcByDatStopIfNoCarry => "ADVANCE_PC_BY_DAT_STOP_IF_NO_CARRY",
        CycleAction::CarryIntoPcHi => "CARRY_INTO_PC_HI",
        CycleAction::InvokeOp => "INVOKE_OP",
        CycleAction::InvokeOpA => "INVOKE_OP_A",
        CycleAction::InvokeOpDat => "INVOKE_OP_DAT",
        CycleAction::InvokeOpRdVal => "INVOKE_OP_RD_VAL",
        CycleAction::SetTmpLo => "SET_TMP_LO",
        CycleAction::SetTmpHi => "SET_TMP_HI",
        CycleAction::SetTmpFull => "SET_TMP_FULL",
        CycleAction::SetTmpZp => "SET_TMP_ZP",
        CycleAction::SetTmpHiInvokeOpDat => "SET_TMP_HI_INVOKE_OP_DAT",
        CycleAction::SetTmpZpInvokeOpDat => "SET_TMP_ZP_INVOKE_OP_DAT",
        CycleAction::SetTmpFullInvokeOpDat => "SET_TMP_FULL_INVOKE_OP_DAT",
        CycleAction::SetTmpHiIncByXRecordCarry => "SET_TMP_HI_INC_BY_X_RECORD_CARRY",
        CycleAction::SetTmpHiIncByXSkipIfNoCarry => "SET_TMP_HI_INC_BY_X_SKIP_IF_NO_CARRY",
        CycleAction::SetTmpHiIncByYRecordCarry => "SET_TMP_HI_INC_BY_Y_RECORD_CARRY",
        CycleAction::SetTmpHiIncByYSkipIfNoCarry => "SET_TMP_HI_INC_BY_Y_SKIP_IF_NO_CARRY",
        CycleAction::SetTmpFullIncByYRecordCarry => "SET_TMP_FULL_INC_BY_Y_RECORD_CARRY",
        CycleAction::SetTmpFullIncByYSkipIfNoCarry => "SET_TMP_FULL_INC_BY_Y_SKIP_IF_NO_CARRY",
        CycleAction::IncTmpHi => "INC_TMP_HI",
        CycleAction::CarryIntoTmpHi => "CARRY_INTO_TMP_HI",
        CycleAction::CarryIntoTmpHiInvokeOpDat => "CARRY_INTO_TMP_HI_INVOKE_OP_DAT",
        CycleAction::IncTmpByX => "INC_TMP_BY_X",
        CycleAction::IncTmpByXInvokeOpDat => "INC_TMP_BY_X_INVOKE_OP_DAT",
        CycleAction::IncTmpByY => "INC_TMP_BY_Y",
        CycleAction::IncTmpByYInvokeOpDat => "INC_TMP_BY_Y_INVOKE_OP_DAT",
        CycleAction::SavePcHi => "SAVE_PC_HI",
        CycleAction::SavePcLo => "SAVE_PC_LO",
        CycleAction::SaveRdVal => "SAVE_RD_VAL",
        CycleAction::SaveP => "SAVE_P",
        CycleAction::SavePBrk => "SAVE_P_BRK",
        CycleAction::SaveRdValStopIfNoBranch => "SAVE_RD_VAL_STOP_IF_NO_BRANCH",
        CycleAction::SaveRdValIncTmp => "SAVE_RD_VAL_INC_TMP",
        CycleAction::SetResetVec => "SET_RESET_VEC",
        CycleAction::SetIrqVec => "SET_IRQ_VEC",
        CycleAction::SetNmiVec => "SET_NMI_VEC",
    }
}

} // verus!
