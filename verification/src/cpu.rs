//! The 6502 CPU core: traced architectural registers, pure operation
//! kernels, per-cycle actions, cycle sequences, the opcode table, and the
//! ticked engine that drives one memory-bus access per clock.
//!
//! The engine is a state machine over the architectural registers, four
//! internal scratch registers, the active cycle sequence and the current
//! operation kernel. Every call to `tick` consumes the byte on the data
//! bus, runs exactly one cycle's action, and returns the one bus access
//! the processor performs on that clock. The whole transition is given by
//! the specification function `spec_tick`.

pub mod opcodes;
pub mod ops;
pub mod regs;
pub mod sequences;

use vstd::prelude::*;
use vstd::string::StringExecFns;
use vstd::wrapping::{u16_specs, u8_specs};

use crate::hexfmt::{hex_u16, hex_u8, push_char};
use crate::psr::{spec_as_stk_u8, spec_from_stk_u8, ArchPSR};
use crate::tracer::{spec_register_element, TraceElementId, TraceElementView, Tracer};
use opcodes::{opcode_lookup, spec_opcode};
use ops::{invoke_op, spec_op, Mnemonic};
use regs::{spec_reg_file_reset, spec_register_regs, ArchRegs, RegFile};
use sequences::{action_name, sequence_for, spec_sequence, CpuCycle, CycleAction, MemCycle, SeqKind};

verus! {

/// The failure a tick can surface: dispatching an opcode byte the table
/// does not map.
#[derive(Debug, Clone, Copy, PartialEq, Eq, Structural)]
pub enum CpuError {
    IllegalOpcode(u8),
}

/// The one memory access the CPU drives on a clock cycle.
#[derive(Debug, Clone, Copy, PartialEq, Eq, Structural)]
pub enum BusAccess {
    Read(u16),
    Write(u16, u8),
}

/// The four 8-bit scratch registers visible only to the cycle engine:
/// the effective-address latch `tmp_lo`/`tmp_hi`, the data latch `dat`,
/// and `rd_val`, the mirror of the byte last presented on the data bus.
#[derive(Debug, Clone, Copy, PartialEq, Eq, Structural)]
pub struct InternalRegs {
    pub tmp_lo: u8,
    pub tmp_hi: u8,
    pub dat: u8,
    pub rd_val: u8,
}

/// The mathematical state of the cycle engine: register file, internal
/// registers, the remaining cycles of the active sequence, the current
/// operation kernel, and the two interrupt lines.
#[verifier::ext_equal]
pub struct MachState {
    pub regs: RegFile,
    pub internal: InternalRegs,
    pub sequence: Seq<CpuCycle>,
    pub op: Mnemonic,
    pub nmi_pending: bool,
    pub irq_signaled: bool,
}

/// The engine state as constructed: registers cleared, the reset sequence
/// installed, no kernel selected, no interrupt pending.
pub open spec fn spec_initial_mach() -> MachState {
    MachState {
        regs: spec_reg_file_reset(),
        internal: InternalRegs { tmp_lo: 0, tmp_hi: 0, dat: 0, rd_val: 0 },
        sequence: spec_sequence(SeqKind::Reset),
        op: Mnemonic::Nop,
        nmi_pending: false,
        irq_signaled: false,
    }
}

/// The effective address held in the tmp latch.
pub open spec fn spec_tmp_addr(i: InternalRegs) -> u16 {
    (i.tmp_lo as u16) | ((i.tmp_hi as u16) << 8)
}

/// Decode `rd_val` as an opcode and install the next sequence: a pending
/// NMI wins and is consumed; else an asserted IRQ with I clear; else the
/// opcode's sequence and kernel; an unmapped opcode fails.
pub open spec fn spec_dispatch(s: MachState) -> Result<MachState, CpuError> {
    if s.nmi_pending {
        Ok(MachState { nmi_pending: false, sequence: spec_sequence(SeqKind::Nmi), ..s })
    } else if s.irq_signaled && !s.regs.p.i {
        Ok(MachState { sequence: spec_sequence(SeqKind::Irq), ..s })
    } else {
        match spec_opcode(s.internal.rd_val) {
            Some(d) => Ok(MachState { sequence: spec_sequence(d.1), op: d.0, ..s }),
            None => Err(CpuError::IllegalOpcode(s.internal.rd_val)),
        }
    }
}

/// Drop the next cycle of the active sequence, as the page-cross actions
/// do when no carry occurred.
pub open spec fn spec_skip_next(s: MachState) -> MachState {
    if s.sequence.len() > 0 {
        MachState { sequence: s.sequence.drop_first(), ..s }
    } else {
        s
    }
}

/// The atomic effect of one cycle action on the engine state. Only
/// `Dispatch` can fail. The sequence field never grows except by a
/// dispatch installing a fresh sequence; the stop and skip primitives
/// shrink it.
pub open spec fn spec_apply_action(a: CycleAction, s: MachState) -> Result<MachState, CpuError> {
    let r = s.regs;
    let i = s.internal;
    match a {
        CycleAction::Nop => Ok(s),
        CycleAction::Dispatch => spec_dispatch(s),
        CycleAction::SetP => Ok(
            MachState { regs: RegFile { p: spec_from_stk_u8(i.rd_val), ..r }, ..s },
        ),
        CycleAction::DecS => Ok(
            MachState { regs: RegFile { s: u8_specs::wrapping_sub(r.s, 1), ..r }, ..s },
        ),
        CycleAction::SetPcLo => Ok(
            MachState {
                regs: RegFile { pc: (r.pc & 0xFF00) | (i.rd_val as u16), ..r },
                ..s
            },
        ),
        CycleAction::SetPcHi => Ok(
            MachState {
                regs: RegFile { pc: (r.pc & 0x00FF) | ((i.rd_val as u16) << 8), ..r },
                ..s
            },
        ),
        CycleAction::SetPcFull => Ok(
            MachState {
                regs: RegFile { pc: ((i.rd_val as u16) << 8) | (i.tmp_lo as u16), ..r },
                ..s
            },
        ),
        CycleAction::SetPcLoIncTmp => Ok(
            MachState {
                regs: RegFile { pc: (r.pc & 0xFF00) | (i.rd_val as u16), ..r },
                internal: InternalRegs { tmp_lo: u8_specs::wrapping_add(i.tmp_lo, 1), ..i },
                ..s
            },
        ),
        CycleAction::AdvancePcByDatStopIfNoCarry => {
            let pc_lo = (r.pc & 0x00FF) as u8;
            let sum: int = pc_lo + i.dat;
            let new_pc = (r.pc & 0xFF00) | ((sum % 256) as u16);
            let carry = if i.dat < 0x80 {
                sum > 0xFF
            } else {
                sum < 0x100
            };
            if carry {
                Ok(
                    MachState {
                        regs: RegFile { pc: new_pc, ..r },
                        internal: InternalRegs {
                            dat: if i.dat < 0x80 {
                                1
                            } else {
                                0xFF
                            },
                            ..i
                        },
                        ..s
                    },
                )
            } else {
                Ok(
                    MachState {
                        regs: RegFile { pc: new_pc, ..r },
                        sequence: Seq::empty(),
                        ..s
                    },
                )
            }
        },
        CycleAction::CarryIntoPcHi => {
            let pc_hi = u8_specs::wrapping_add(((r.pc >> 8) as u8), i.dat);
            Ok(MachState { regs: RegFile { pc: (r.pc & 0x00FF) | ((pc_hi as u16) << 8), ..r }, ..s })
        },
        CycleAction::InvokeOp => Ok(MachState { regs: spec_op(s.op, r, 0).0, ..s }),
        CycleAction::InvokeOpA => {
            let o = spec_op(s.op, r, r.a);
            Ok(MachState { regs: RegFile { a: o.1, ..o.0 }, ..s })
        },
        CycleAction::InvokeOpDat => {
            let o = spec_op(s.op, r, i.dat);
            Ok(MachState { regs: o.0, internal: InternalRegs { dat: o.1, ..i }, ..s })
        },
        CycleAction::InvokeOpRdVal => Ok(MachState { regs: spec_op(s.op, r, i.rd_val).0, ..s }),
        CycleAction::SetTmpLo => Ok(
            MachState { internal: InternalRegs { tmp_lo: i.rd_val, ..i }, ..s },
        ),
        CycleAction::SetTmpHi => Ok(
            MachState { internal: InternalRegs { tmp_hi: i.rd_val, ..i }, ..s },
        ),
        CycleAction::SetTmpFull => Ok(
            MachState { internal: InternalRegs { tmp_hi: i.rd_val, tmp_lo: i.dat, ..i }, ..s },
        ),
        CycleAction::SetTmpZp => Ok(
            MachState { internal: InternalRegs { tmp_lo: i.rd_val, tmp_hi: 0, ..i }, ..s },
        ),
        CycleAction::SetTmpHiInvokeOpDat => {
            let o = spec_op(s.op, r, i.dat);
            Ok(
                MachState {
                    regs: o.0,
                    internal: InternalRegs { tmp_hi: i.rd_val, dat: o.1, ..i },
                    ..s
                },
            )
        },
        CycleAction::SetTmpZpInvokeOpDat => {
            let o = spec_op(s.op, r, i.dat);
            Ok(
                MachState {
                    regs: o.0,
                    internal: InternalRegs { tmp_lo: i.rd_val, tmp_hi: 0, dat: o.1, ..i },
                    ..s
                },
            )
        },
        CycleAction::SetTmpFullInvokeOpDat => {
            let o = spec_op(s.op, r, i.dat);
            Ok(
                MachState {
                    regs: o.0,
                    internal: InternalRegs { tmp_hi: i.rd_val, tmp_lo: i.dat, dat: o.1, ..i },
                    ..s
                },
            )
        },
        CycleAction::SetTmpHiIncByXRecordCarry => {
            let sum: int = i.tmp_lo + r.x;
            Ok(
                MachState {
                    internal: InternalRegs {
                        tmp_hi: i.rd_val,
                        tmp_lo: (sum % 256) as u8,
                        dat: if sum > 255 {
                            1
                        } else {
                            0
                        },
                        ..i
                    },
                    ..s
                },
            )
        },
        CycleAction::SetTmpHiIncByXSkipIfNoCarry => {
            let sum: int = i.tmp_lo + r.x;
            let s2 = MachState {
                internal: InternalRegs { tmp_hi: i.rd_val, tmp_lo: (sum % 256) as u8, ..i },
                ..s
            };
            if sum > 255 {
                Ok(s2)
            } else {
                Ok(spec_skip_next(s2))
            }
        },
        CycleAction::SetTmpHiIncByYRecordCarry => {
            let sum: int = i.tmp_lo + r.y;
            Ok(
                MachState {
                    internal: InternalRegs {
                        tmp_hi: i.rd_val,
                        tmp_lo: (sum % 256) as u8,
                        dat: if sum > 255 {
                            1
                        } else {
                            0
                        },
                        ..i
                    },
                    ..s
                },
            )
        },
        CycleAction::SetTmpHiIncByYSkipIfNoCarry => {
            let sum: int = i.tmp_lo + r.y;
            let s2 = MachState {
                internal: InternalRegs { tmp_hi: i.rd_val, tmp_lo: (sum % 256) as u8, ..i },
                ..s
            };
            if sum > 255 {
                Ok(s2)
            } else {
                Ok(spec_skip_next(s2))
            }
        },
        CycleAction::SetTmpFullIncByYRecordCarry => {
            let sum: int = i.dat + r.y;
            Ok(
                MachState {
                    internal: InternalRegs {
                        tmp_hi: i.rd_val,
                        tmp_lo: (sum % 256) as u8,
                        dat: if sum > 255 {
                            1
                        } else {
                            0
                        },
                        ..i
                    },
                    ..s
                },
            )
        },
        CycleAction::SetTmpFullIncByYSkipIfNoCarry => {
            let sum: int = i.dat + r.y;
            let s2 = MachState {
                internal: InternalRegs { tmp_hi: i.rd_val, tmp_lo: (sum % 256) as u8, ..i },
                ..s
            };
            if sum > 255 {
                Ok(s2)
            } else {
                Ok(spec_skip_next(s2))
            }
        },
        CycleAction::IncTmpHi => Ok(
            MachState {
                internal: InternalRegs { tmp_hi: u8_specs::wrapping_add(i.tmp_hi, 1), ..i },
                ..s
            },
        ),
        CycleAction::CarryIntoTmpHi => Ok(
            MachState {
                internal: InternalRegs { tmp_hi: u8_specs::wrapping_add(i.tmp_hi, i.dat), ..i },
                ..s
            },
        ),
        CycleAction::CarryIntoTmpHiInvokeOpDat => {
            let o = spec_op(s.op, r, i.dat);
            Ok(
                MachState {
                    regs: o.0,
                    internal: InternalRegs {
                        tmp_hi: u8_specs::wrapping_add(i.tmp_hi, i.dat),
                        dat: o.1,
                        ..i
                    },
                    ..s
                },
            )
        },
        CycleAction::IncTmpByX => Ok(
            MachState {
                internal: InternalRegs { tmp_lo: u8_specs::wrapping_add(i.tmp_lo, r.x), ..i },
                ..s
            },
        ),
        CycleAction::IncTmpByXInvokeOpDat => {
            let o = spec_op(s.op, r, i.dat);
            Ok(
                MachState {
                    regs: o.0,
                    internal: InternalRegs {
                        tmp_lo: u8_specs::wrapping_add(i.tmp_lo, r.x),
                        dat: o.1,
                        ..i
                    },
                    ..s
                },
            )
        },
        CycleAction::IncTmpByY => Ok(
            MachState {
                internal: InternalRegs { tmp_lo: u8_specs::wrapping_add(i.tmp_lo, r.y), ..i },
                ..s
            },
        ),
        CycleAction::IncTmpByYInvokeOpDat => {
            let o = spec_op(s.op, r, i.dat);
            Ok(
                MachState {
                    regs: o.0,
                    internal: InternalRegs {
                        tmp_lo: u8_specs::wrapping_add(i.tmp_lo, r.y),
                        dat: o.1,
                        ..i
                    },
                    ..s
                },
            )
        },
        CycleAction::SavePcHi => Ok(
            MachState { internal: InternalRegs { dat: (r.pc >> 8) as u8, ..i }, ..s },
        ),
        CycleAction::SavePcLo => Ok(
            MachState { internal: InternalRegs { dat: (r.pc & 0x00FF) as u8, ..i }, ..s },
        ),
        CycleAction::SaveRdVal => Ok(
            MachState { internal: InternalRegs { dat: i.rd_val, ..i }, ..s },
        ),
        CycleAction::SaveP => Ok(
            MachState { internal: InternalRegs { dat: spec_as_stk_u8(r.p, false), ..i }, ..s },
        ),
        CycleAction::SavePBrk => Ok(
            MachState { internal: InternalRegs { dat: spec_as_stk_u8(r.p, true), ..i }, ..s },
        ),
        CycleAction::SaveRdValStopIfNoBranch => {
            let o = spec_op(s.op, r, 0);
            let s2 = MachState {
                regs: o.0,
                internal: InternalRegs { dat: i.rd_val, ..i },
                ..s
            };
            if o.1 == 0 {
                Ok(MachState { sequence: Seq::empty(), ..s2 })
            } else {
                Ok(s2)
            }
        },
        CycleAction::SaveRdValIncTmp => Ok(
            MachState {
                internal: InternalRegs {
                    dat: i.rd_val,
                    tmp_lo: u8_specs::wrapping_add(i.tmp_lo, 1),
                    ..i
                },
                ..s
            },
        ),
        CycleAction::SetResetVec => Ok(
            MachState {
                regs: RegFile { p: r.p.spec_with_i(true), ..r },
                internal: InternalRegs { tmp_hi: 0xFF, tmp_lo: 0xFC, ..i },
                ..s
            },
        ),
        CycleAction::SetIrqVec => Ok(
            MachState {
                regs: RegFile { p: r.p.spec_with_i(true), ..r },
                internal: InternalRegs { tmp_hi: 0xFF, tmp_lo: 0xFE, ..i },
                ..s
            },
        ),
        CycleAction::SetNmiVec => Ok(
            MachState {
                regs: RegFile { p: r.p.spec_with_i(true), ..r },
                internal: InternalRegs { tmp_hi: 0xFF, tmp_lo: 0xFA, ..i },
                ..s
            },
        ),
    }
}

/// The bus access a memory-cycle descriptor forms, with its PC and S side
/// effects. `Inc` variants advance PC before the access; `PushStk`
/// decrements S after forming the stack address; `PopStk` pre-increments S.
pub open spec fn spec_mem_cycle(mc: MemCycle, r: RegFile, i: InternalRegs) -> (RegFile, BusAccess) {
    match mc {
        MemCycle::IncReadPC => {
            let pc = u16_specs::wrapping_add(r.pc, 1);
            (RegFile { pc, ..r }, BusAccess::Read(pc))
        },
        MemCycle::ReadPC => (r, BusAccess::Read(r.pc)),
        MemCycle::IncReadTmp => {
            let pc = u16_specs::wrapping_add(r.pc, 1);
            (RegFile { pc, ..r }, BusAccess::Read(spec_tmp_addr(i)))
        },
        MemCycle::ReadTmp => (r, BusAccess::Read(spec_tmp_addr(i))),
        MemCycle::IncWriteTmp => {
            let pc = u16_specs::wrapping_add(r.pc, 1);
            (RegFile { pc, ..r }, BusAccess::Write(spec_tmp_addr(i), i.dat))
        },
        MemCycle::WriteTmp => (r, BusAccess::Write(spec_tmp_addr(i), i.dat)),
        MemCycle::IncReadStk => {
            let pc = u16_specs::wrapping_add(r.pc, 1);
            (RegFile { pc, ..r }, BusAccess::Read(0x0100u16 | (r.s as u16)))
        },
        MemCycle::ReadStk => (r, BusAccess::Read(0x0100u16 | (r.s as u16))),
        MemCycle::IncPushStk => {
            let pc = u16_specs::wrapping_add(r.pc, 1);
            (
                RegFile { pc, s: u8_specs::wrapping_sub(r.s, 1), ..r },
                BusAccess::Write(0x0100u16 | (r.s as u16), i.dat),
            )
        },
        MemCycle::PushStk => (
            RegFile { s: u8_specs::wrapping_sub(r.s, 1), ..r },
            BusAccess::Write(0x0100u16 | (r.s as u16), i.dat),
        ),
        MemCycle::PopStk => {
            let sp = u8_specs::wrapping_add(r.s, 1);
            (RegFile { s: sp, ..r }, BusAccess::Read(0x0100u16 | (sp as u16)))
        },
    }
}

/// One full clock cycle: latch the data bus into `rd_val`; install the
/// dispatch sequence if the active one is spent; pop the front cycle; run
/// its action; and, if the action did not fail, form the cycle's bus
/// access with its PC and S side effects.
pub open spec fn spec_tick(s: MachState, data: u8) -> (MachState, Result<BusAccess, CpuError>) {
    let s1 = MachState { internal: InternalRegs { rd_val: data, ..s.internal }, ..s };
    let s2 = if s1.sequence.len() == 0 {
        MachState { sequence: spec_sequence(SeqKind::Dispatch), ..s1 }
    } else {
        s1
    };
    let cycle = s2.sequence[0];
    let s3 = MachState { sequence: s2.sequence.drop_first(), ..s2 };
    match spec_apply_action(cycle.0, s3) {
        Err(e) => (s3, Err(e)),
        Ok(s4) => {
            let m = spec_mem_cycle(cycle.1, s4.regs, s4.internal);
            (MachState { regs: m.0, ..s4 }, Ok(m.1))
        },
    }
}

/// Stack accesses stay within the stack page: every stack-kind memory
/// cycle reads or writes an address in `0x0100..=0x01FF`, for any
/// register file and internal state, because the 8-bit stack pointer is
/// merged below the fixed page base.
pub proof fn lemma_stack_accesses_in_stack_page(mc: MemCycle, r: RegFile, i: InternalRegs)
    requires
        mc is IncReadStk || mc is ReadStk || mc is IncPushStk || mc is PushStk || mc is PopStk,
    ensures
        ({
            let acc = spec_mem_cycle(mc, r, i).1;
            match acc {
                BusAccess::Read(a) => 0x0100 <= a <= 0x01FF,
                BusAccess::Write(a, d) => 0x0100 <= a <= 0x01FF,
            }
        }),
{
    let s = r.s;
    assert(0x0100 <= (0x0100u16 | (s as u16)) <= 0x01FF) by (bit_vector);
    let s2 = u8_specs::wrapping_add(r.s, 1);
    assert(0x0100 <= (0x0100u16 | (s2 as u16)) <= 0x01FF) by (bit_vector);
}

/// The trace element tree after the CPU's construction registers its
/// elements: `cpu` under the root; `mem`, `regs`, `seq` and `instr` under
/// `cpu`; and the six architectural registers under `regs`.
pub open spec fn spec_register_cpu_elements(elems: Seq<TraceElementView>) -> Seq<
    TraceElementView,
> {
    let c = spec_register_element(elems, "cpu"@, 0);
    let m = spec_register_element(c.0, "mem"@, c.1);
    let rg = spec_register_element(m.0, "regs"@, c.1);
    let sq = spec_register_element(rg.0, "seq"@, c.1);
    let ins = spec_register_element(sq.0, "instr"@, c.1);
    spec_register_regs(ins.0, rg.1)
}

/// One sequence of output lines is a prefix of another: nothing already
/// emitted is altered or lost.
pub open spec fn out_extends(pre: Seq<Seq<char>>, post: Seq<Seq<char>>) -> bool {
    post.len() >= pre.len() && forall|k: int| 0 <= k < pre.len() ==> post[k] == pre[k]
}

/// The cycle-accurate 6502 CPU engine. It owns the tracer its register
/// writes, sequence steps and instruction dispatches report to.
pub struct Cpu6502 {
    regs: ArchRegs,
    internal: InternalRegs,
    sequence: Vec<CpuCycle>,
    op: Mnemonic,
    tracer: Tracer,
    mem_trace_element: TraceElementId,
    seq_trace_element: TraceElementId,
    instr_trace_element: TraceElementId,
    nmi_pending: bool,
    irq_signaled: bool,
}

impl Cpu6502 {
    /// The engine's architectural and internal state.
    pub closed spec fn mach(&self) -> MachState {
        MachState {
            regs: self.regs@,
            internal: self.internal,
            sequence: self.sequence@,
            op: self.op,
            nmi_pending: self.nmi_pending,
            irq_signaled: self.irq_signaled,
        }
    }

    /// The trace lines already in the output buffer.
    pub closed spec fn spec_trace_out(&self) -> Seq<Seq<char>> {
        self.tracer@.out
    }

    /// Register-write trace lines emitted but not yet moved to the output
    /// buffer; every public method leaves this empty.
    pub closed spec fn spec_pending_log(&self) -> Seq<Seq<char>> {
        self.regs.spec_log()
    }

    /// The tracer's element tree.
    pub closed spec fn spec_trace_elements(&self) -> Seq<TraceElementView> {
        self.tracer@.elements
    }

    pub closed spec fn spec_mem_trace_element(&self) -> TraceElementId {
        self.mem_trace_element
    }

    /// What every engine step leaves untouched: the trace element tree,
    /// the element handles, the traced-register shapes; and the output
    /// buffer only ever grows.
    pub open spec fn frame(pre: &Cpu6502, post: &Cpu6502) -> bool {
        post.spec_trace_elements() == pre.spec_trace_elements() && post.spec_mem_trace_element()
            == pre.spec_mem_trace_element() && out_extends(
            pre.spec_trace_out(),
            post.spec_trace_out(),
        )
    }

    /// Construct the CPU: register its trace elements (`cpu`, and `mem`,
    /// `regs`, `seq`, `instr` under it), create the traced registers, and
    /// install the reset sequence.
    pub fn new(tracer: Tracer) -> (r: Cpu6502)
        ensures
            r.mach() == spec_initial_mach(),
            r.spec_pending_log() == Seq::<Seq<char>>::empty(),
            r.spec_trace_out() == tracer@.out,
            r.spec_trace_elements() == spec_register_cpu_elements(tracer@.elements),
    {
        let mut tracer = tracer;
        let root_trace_element = tracer.register_element("cpu", None);
        let mem_trace_element = tracer.register_element("mem", Some(root_trace_element));
        let regs_trace_element = tracer.register_element("regs", Some(root_trace_element));
        let seq_trace_element = tracer.register_element("seq", Some(root_trace_element));
        let instr_trace_element = tracer.register_element("instr", Some(root_trace_element));
        let regs = ArchRegs::new(&mut tracer, Some(regs_trace_element));
        let r = Cpu6502 {
            regs,
            internal: InternalRegs { tmp_lo: 0, tmp_hi: 0, dat: 0, rd_val: 0 },
            sequence: sequence_for(SeqKind::Reset),
            op: Mnemonic::Nop,
            tracer,
            mem_trace_element,
            seq_trace_element,
            instr_trace_element,
            nmi_pending: false,
            irq_signaled: false,
        };
        proof {
            assert(r.mach() =~~= spec_initial_mach());
        }
        r
    }

    /// The handle of the `cpu.mem` trace element, for the host's memory
    /// access events.
    pub fn mem_trace_element(&self) -> (r: TraceElementId)
        ensures
            r == self.spec_mem_trace_element(),
    {
        self.mem_trace_element
    }

    /// Latch the edge-triggered NMI line; the latch holds until a dispatch
    /// consumes it.
    pub fn trigger_nmi(&mut self)
        ensures
            final(self).mach() == (MachState { nmi_pending: true, ..old(self).mach() }),
            Cpu6502::frame(old(self), final(self)),
            final(self).spec_trace_out() == old(self).spec_trace_out(),
            final(self).spec_pending_log() == old(self).spec_pending_log(),
    {
        self.nmi_pending = true;
        proof {
            assert(self.mach() =~~= (MachState { nmi_pending: true, ..old(self).mach() }));
        }
    }

    /// Drive the level-sensitive IRQ line; it is sampled at dispatch and
    /// never latched.
    pub fn set_irq_signaled(&mut self, active: bool)
        ensures
            final(self).mach() == (MachState { irq_signaled: active, ..old(self).mach() }),
            Cpu6502::frame(old(self), final(self)),
            final(self).spec_trace_out() == old(self).spec_trace_out(),
            final(self).spec_pending_log() == old(self).spec_pending_log(),
    {
        self.irq_signaled = active;
        proof {
            assert(self.mach() =~~= (MachState { irq_signaled: active, ..old(self).mach() }));
        }
    }

    /// Install the reset sequence and clear the pending NMI latch; the
    /// registers keep whatever they held.
    pub fn reset(&mut self)
        ensures
            final(self).mach() == (MachState {
                sequence: spec_sequence(SeqKind::Reset),
                nmi_pending: false,
                ..old(self).mach()
            }),
            Cpu6502::frame(old(self), final(self)),
            final(self).spec_trace_out() == old(self).spec_trace_out(),
            final(self).spec_pending_log() == old(self).spec_pending_log(),
    {
        self.sequence = sequence_for(SeqKind::Reset);
        self.nmi_pending = false;
        proof {
            assert(self.mach() =~~= (MachState {
                sequence: spec_sequence(SeqKind::Reset),
                nmi_pending: false,
                ..old(self).mach()
            }));
        }
    }

    /// The current program counter.
    pub fn get_pc(&self) -> (r: u16)
        ensures
            r == self.mach().regs.pc,
    {
        self.regs.pc()
    }

    /// The architectural registers.
    pub fn regs(&self) -> (r: &ArchRegs)
        ensures
            r@ == self.mach().regs,
    {
        &self.regs
    }

    /// Emit an event against a trace element on the engine's tracer, as
    /// the host does for memory accesses.
    pub fn trace_event(&mut self, element: TraceElementId, message: &str)
        ensures
            final(self).mach() == old(self).mach(),
            Cpu6502::frame(old(self), final(self)),
            final(self).spec_pending_log() == old(self).spec_pending_log(),
            final(self).spec_trace_out() == if element.spec_enabled() && element.spec_idx() < old(
                self,
            ).spec_trace_elements().len() {
                old(self).spec_trace_out().push(
                    crate::tracer::spec_trace_line(
                        old(self).spec_trace_elements()[element.spec_idx()].full_name,
                        message@,
                    ),
                )
            } else {
                old(self).spec_trace_out()
            },
    {
        self.tracer.trace_event(element, message);
        proof {
            assert(self.mach() =~~= old(self).mach());
        }
    }

    /// Drain every buffered trace line — output buffer first, then any
    /// register events not yet moved there — leaving both empty.
    pub fn take_trace_output(&mut self) -> (r: Vec<String>)
        ensures
            r.deep_view() == old(self).spec_trace_out() + old(self).spec_pending_log(),
            final(self).mach() == old(self).mach(),
            final(self).spec_trace_out() == Seq::<Seq<char>>::empty(),
            final(self).spec_pending_log() == Seq::<Seq<char>>::empty(),
            final(self).spec_trace_elements() == old(self).spec_trace_elements(),
            final(self).spec_mem_trace_element() == old(self).spec_mem_trace_element(),
    {
        let mut lines = self.regs.take_log();
        self.tracer.absorb_lines(&mut lines);
        let r = self.tracer.take_output();
        proof {
            assert(self.mach() =~~= old(self).mach());
        }
        r
    }

    /// The effective address in the tmp latch.
    fn tmp_addr(&self) -> (r: u16)
        ensures
            r == spec_tmp_addr(self.mach().internal),
    {
        (self.internal.tmp_lo as u16) | ((self.internal.tmp_hi as u16) << 8u16)
    }

    /// Clear the active sequence, so that the next tick fetches.
    fn end_instruction(&mut self)
        ensures
            final(self).mach() == (MachState { sequence: Seq::empty(), ..old(self).mach() }),
            final(self).regs == old(self).regs,
            final(self).tracer == old(self).tracer,
            final(self).mem_trace_element == old(self).mem_trace_element,
            final(self).seq_trace_element == old(self).seq_trace_element,
            final(self).instr_trace_element == old(self).instr_trace_element,
    {
        self.sequence = Vec::new();
        proof {
            assert(self.mach() =~~= (MachState {
                sequence: Seq::<CpuCycle>::empty(),
                ..old(self).mach()
            }));
        }
    }

    /// Drop one entry from the active sequence.
    fn skip_next_cycle(&mut self)
        ensures
            final(self).mach() == spec_skip_next(old(self).mach()),
            final(self).regs == old(self).regs,
            final(self).tracer == old(self).tracer,
            final(self).mem_trace_element == old(self).mem_trace_element,
            final(self).seq_trace_element == old(self).seq_trace_element,
            final(self).instr_trace_element == old(self).instr_trace_element,
    {
        if self.sequence.len() > 0 {
            self.sequence.remove(0);
        }
        proof {
            assert(self.mach() =~~= spec_skip_next(old(self).mach()));
        }
    }

    /// Decode an opcode byte: a pending NMI wins and is consumed; else an
    /// asserted IRQ with I clear; else the opcode's sequence and kernel are
    /// installed and the dispatch is traced; an unmapped opcode fails.
    fn dispatch(&mut self, opcode: u8) -> (r: Result<(), CpuError>)
        requires
            opcode == old(self).mach().internal.rd_val,
        ensures
            ({
                let res = spec_dispatch(old(self).mach());
                match res {
                    Ok(m) => r == Ok::<(), CpuError>(()) && final(self).mach() == m,
                    Err(e) => r == Err::<(), CpuError>(e) && final(self).mach() == old(
                        self,
                    ).mach(),
                }
            }),
            Cpu6502::frame(old(self), final(self)),
            final(self).spec_pending_log() == old(self).spec_pending_log(),
    {
        let ghost s0 = old(self).mach();
        if self.nmi_pending {
            self.nmi_pending = false;
            self.sequence = sequence_for(SeqKind::Nmi);
            proof {
                assert(self.mach() =~~= (MachState {
                    nmi_pending: false,
                    sequence: spec_sequence(SeqKind::Nmi),
                    ..s0
                }));
            }
            Ok(())
        } else if self.irq_signaled && !self.regs.p().i {
            self.sequence = sequence_for(SeqKind::Irq);
            proof {
                assert(self.mach() =~~= (MachState {
                    sequence: spec_sequence(SeqKind::Irq),
                    ..s0
                }));
            }
            Ok(())
        } else {
            match opcode_lookup(opcode) {
                Some(opdesc) => {
                    let mut msg = hex_u16(self.regs.pc());
                    push_char(&mut msg, ' ');
                    let op_hex = hex_u8(opdesc.code);
                    msg.append(op_hex.as_str());
                    push_char(&mut msg, ' ');
                    msg.append(opdesc.name);
                    self.tracer.trace_event(self.instr_trace_element, msg.as_str());
                    self.sequence = sequence_for(opdesc.seq_kind);
                    self.op = opdesc.mnemonic;
                    proof {
                        assert(self.mach() =~~= (MachState {
                            sequence: spec_sequence(opdesc.seq_kind),
                            op: opdesc.mnemonic,
                            ..s0
                        }));
                    }
                    Ok(())
                },
                None => Err(CpuError::IllegalOpcode(opcode)),
            }
        }
    }

    /// Run one effective-address latch action.
    #[verifier::rlimit(100)]
    #[verifier::spinoff_prover]
    fn apply_addr_action(&mut self, a: CycleAction) -> (r: Result<(), CpuError>)
        requires
            a is SetTmpLo || a is SetTmpHi || a is SetTmpFull || a is SetTmpZp || a is SetTmpHiIncByXRecordCarry || a is SetTmpHiIncByXSkipIfNoCarry || a is SetTmpHiIncByYRecordCarry || a is SetTmpHiIncByYSkipIfNoCarry || a is SetTmpFullIncByYRecordCarry || a is SetTmpFullIncByYSkipIfNoCarry || a is IncTmpHi || a is CarryIntoTmpHi || a is IncTmpByX || a is IncTmpByY,
        ensures
            r == Ok::<(), CpuError>(()),
            final(self).mach() == spec_apply_action(a, old(self).mach()).unwrap(),
            Cpu6502::frame(old(self), final(self)),
            out_extends(old(self).spec_pending_log(), final(self).spec_pending_log()),
    {
        let ghost s0 = old(self).mach();
        match a {
            CycleAction::SetTmpLo => {
                self.internal.tmp_lo = self.internal.rd_val;
                proof {
                    assert(self.mach() =~~= spec_apply_action(a, s0).unwrap());
                }
                Ok(())
            },
            CycleAction::SetTmpHi => {
                self.internal.tmp_hi = self.internal.rd_val;
                proof {
                    assert(self.mach() =~~= spec_apply_action(a, s0).unwrap());
                }
                Ok(())
            },
            CycleAction::SetTmpFull => {
                self.internal.tmp_hi = self.internal.rd_val;
                self.internal.tmp_lo = self.internal.dat;
                proof {
                    assert(self.mach() =~~= spec_apply_action(a, s0).unwrap());
                }
                Ok(())
            },
            CycleAction::SetTmpZp => {
                self.internal.tmp_lo = self.internal.rd_val;
                self.internal.tmp_hi = 0;
                proof {
                    assert(self.mach() =~~= spec_apply_action(a, s0).unwrap());
                }
                Ok(())
            },
            CycleAction::SetTmpHiIncByXRecordCarry => {
                self.internal.tmp_hi = self.internal.rd_val;
                let sum: u16 = self.internal.tmp_lo as u16 + self.regs.x() as u16;
                self.internal.tmp_lo = (sum % 256) as u8;
                self.internal.dat = if sum > 255 {
                    1
                } else {
                    0
                };
                proof {
                    assert(self.mach() =~~= spec_apply_action(a, s0).unwrap());
                }
                Ok(())
            },
            CycleAction::SetTmpHiIncByXSkipIfNoCarry => {
                self.internal.tmp_hi = self.internal.rd_val;
                let sum: u16 = self.internal.tmp_lo as u16 + self.regs.x() as u16;
                self.internal.tmp_lo = (sum % 256) as u8;
                if !(sum > 255) {
                    self.skip_next_cycle();
                }
                proof {
                    assert(self.mach() =~~= spec_apply_action(a, s0).unwrap());
                }
                Ok(())
            },
            CycleAction::SetTmpHiIncByYRecordCarry => {
                self.internal.tmp_hi = self.internal.rd_val;
                let sum: u16 = self.internal.tmp_lo as u16 + self.regs.y() as u16;
                self.internal.tmp_lo = (sum % 256) as u8;
                self.internal.dat = if sum > 255 {
                    1
                } else {
                    0
                };
                proof {
                    assert(self.mach() =~~= spec_apply_action(a, s0).unwrap());
                }
                Ok(())
            },
            CycleAction::SetTmpHiIncByYSkipIfNoCarry => {
                self.internal.tmp_hi = self.internal.rd_val;
                let sum: u16 = self.internal.tmp_lo as u16 + self.regs.y() as u16;
                self.internal.tmp_lo = (sum % 256) as u8;
                if !(sum > 255) {
                    self.skip_next_cycle();
                }
                proof {
                    assert(self.mach() =~~= spec_apply_action(a, s0).unwrap());
                }
                Ok(())
            },
            CycleAction::SetTmpFullIncByYRecordCarry => {
                self.internal.tmp_hi = self.internal.rd_val;
                let sum: u16 = self.internal.dat as u16 + self.regs.y() as u16;
                self.internal.tmp_lo = (sum % 256) as u8;
                self.internal.dat = if sum > 255 {
                    1
                } else {
                    0
                };
                proof {
                    assert(self.mach() =~~= spec_apply_action(a, s0).unwrap());
                }
                Ok(())
            },
            CycleAction::SetTmpFullIncByYSkipIfNoCarry => {
                self.internal.tmp_hi = self.internal.rd_val;
                let sum: u16 = self.internal.dat as u16 + self.regs.y() as u16;
                self.internal.tmp_lo = (sum % 256) as u8;
                if !(sum > 255) {
                    self.skip_next_cycle();
                }
                proof {
                    assert(self.mach() =~~= spec_apply_action(a, s0).unwrap());
                }
                Ok(())
            },
            CycleAction::IncTmpHi => {
                self.internal.tmp_hi = self.internal.tmp_hi.wrapping_add(1);
                proof {
                    assert(self.mach() =~~= spec_apply_action(a, s0).unwrap());
                }
                Ok(())
            },
            CycleAction::CarryIntoTmpHi => {
                self.internal.tmp_hi = self.internal.tmp_hi.wrapping_add(self.internal.dat);
                proof {
                    assert(self.mach() =~~= spec_apply_action(a, s0).unwrap());
                }
                Ok(())
            },
            CycleAction::IncTmpByX => {
                self.internal.tmp_lo = self.internal.tmp_lo.wrapping_add(self.regs.x());
                proof {
                    assert(self.mach() =~~= spec_apply_action(a, s0).unwrap());
                }
                Ok(())
            },
            CycleAction::IncTmpByY => {
                self.internal.tmp_lo = self.internal.tmp_lo.wrapping_add(self.regs.y());
                proof {
                    assert(self.mach() =~~= spec_apply_action(a, s0).unwrap());
                }
                Ok(())
            },
            _ => Ok(()),
        }
    }

    /// Run one program-counter, stack-pointer, status or data-latch action.
    #[verifier::rlimit(100)]
    #[verifier::spinoff_prover]
    fn apply_pc_action(&mut self, a: CycleAction) -> (r: Result<(), CpuError>)
        requires
            a is SetP || a is DecS || a is SetPcLo || a is SetPcHi || a is SetPcFull || a is SetPcLoIncTmp || a is AdvancePcByDatStopIfNoCarry || a is CarryIntoPcHi || a is SavePcHi || a is SavePcLo || a is SaveRdVal || a is SaveRdValIncTmp || a is SaveP || a is SavePBrk || a is SetResetVec || a is SetIrqVec || a is SetNmiVec,
        ensures
            r == Ok::<(), CpuError>(()),
            final(self).mach() == spec_apply_action(a, old(self).mach()).unwrap(),
            Cpu6502::frame(old(self), final(self)),
            out_extends(old(self).spec_pending_log(), final(self).spec_pending_log()),
    {
        let ghost s0 = old(self).mach();
        match a {
            CycleAction::SetP => {
                let p = ArchPSR::from_stk_u8(self.internal.rd_val);
                self.regs.set_p(p);
                proof {
                    assert(self.mach() =~~= spec_apply_action(a, s0).unwrap());
                }
                Ok(())
            },
            CycleAction::DecS => {
                let s = self.regs.s().wrapping_sub(1);
                self.regs.set_s(s);
                proof {
                    assert(self.mach() =~~= spec_apply_action(a, s0).unwrap());
                }
                Ok(())
            },
            CycleAction::SetPcLo => {
                let pc = (self.regs.pc() & 0xFF00) | (self.internal.rd_val as u16);
                self.regs.set_pc(pc);
                proof {
                    assert(self.mach() =~~= spec_apply_action(a, s0).unwrap());
                }
                Ok(())
            },
            CycleAction::SetPcHi => {
                let pc = (self.regs.pc() & 0x00FF) | ((self.internal.rd_val as u16) << 8u16);
                self.regs.set_pc(pc);
                proof {
                    assert(self.mach() =~~= spec_apply_action(a, s0).unwrap());
                }
                Ok(())
            },
            CycleAction::SetPcFull => {
                let pc = ((self.internal.rd_val as u16) << 8u16) | (self.internal.tmp_lo as u16);
                self.regs.set_pc(pc);
                proof {
                    assert(self.mach() =~~= spec_apply_action(a, s0).unwrap());
                }
                Ok(())
            },
            CycleAction::SetPcLoIncTmp => {
                let pc = (self.regs.pc() & 0xFF00) | (self.internal.rd_val as u16);
                self.regs.set_pc(pc);
                self.internal.tmp_lo = self.internal.tmp_lo.wrapping_add(1);
                proof {
                    assert(self.mach() =~~= spec_apply_action(a, s0).unwrap());
                }
                Ok(())
            },
            CycleAction::AdvancePcByDatStopIfNoCarry => {
                let pc = self.regs.pc();
                let pc_lo = (pc & 0x00FF) as u8;
                let dat = self.internal.dat;
                let sum: u16 = pc_lo as u16 + dat as u16;
                self.regs.set_pc((pc & 0xFF00) | (sum % 256));
                let carry = if dat < 0x80 {
                    sum > 0xFF
                } else {
                    sum < 0x100
                };
                if carry {
                    self.internal.dat = if dat < 0x80 {
                        1
                    } else {
                        0xFF
                    };
                } else {
                    self.end_instruction();
                }
                proof {
                    assert(self.mach() =~~= spec_apply_action(a, s0).unwrap());
                }
                Ok(())
            },
            CycleAction::CarryIntoPcHi => {
                let pc = self.regs.pc();
                let pc_hi = ((pc >> 8u16) as u8).wrapping_add(self.internal.dat);
                self.regs.set_pc((pc & 0x00FF) | ((pc_hi as u16) << 8u16));
                proof {
                    assert(self.mach() =~~= spec_apply_action(a, s0).unwrap());
                }
                Ok(())
            },
            CycleAction::SavePcHi => {
                self.internal.dat = (self.regs.pc() >> 8u16) as u8;
                proof {
                    assert(self.mach() =~~= spec_apply_action(a, s0).unwrap());
                }
                Ok(())
            },
            CycleAction::SavePcLo => {
                self.internal.dat = (self.regs.pc() & 0x00FF) as u8;
                proof {
                    assert(self.mach() =~~= spec_apply_action(a, s0).unwrap());
                }
                Ok(())
            },
            CycleAction::SaveRdVal => {
                self.internal.dat = self.internal.rd_val;
                proof {
                    assert(self.mach() =~~= spec_apply_action(a, s0).unwrap());
                }
                Ok(())
            },
            CycleAction::SaveRdValIncTmp => {
                self.internal.dat = self.internal.rd_val;
                self.internal.tmp_lo = self.internal.tmp_lo.wrapping_add(1);
                proof {
                    assert(self.mach() =~~= spec_apply_action(a, s0).unwrap());
                }
                Ok(())
            },
            CycleAction::SaveP => {
                self.internal.dat = self.regs.p().as_stk_u8(false);
                proof {
                    assert(self.mach() =~~= spec_apply_action(a, s0).unwrap());
                }
                Ok(())
            },
            CycleAction::SavePBrk => {
                self.internal.dat = self.regs.p().as_stk_u8(true);
                proof {
                    assert(self.mach() =~~= spec_apply_action(a, s0).unwrap());
                }
                Ok(())
            },
            CycleAction::SetResetVec => {
                self.internal.tmp_hi = 0xFF;
                self.internal.tmp_lo = 0xFC;
                let p = self.regs.p();
                self.regs.set_p(p.with_i(true));
                proof {
                    assert(self.mach() =~~= spec_apply_action(a, s0).unwrap());
                }
                Ok(())
            },
            CycleAction::SetIrqVec => {
                self.internal.tmp_hi = 0xFF;
                self.internal.tmp_lo = 0xFE;
                let p = self.regs.p();
                self.regs.set_p(p.with_i(true));
                proof {
                    assert(self.mach() =~~= spec_apply_action(a, s0).unwrap());
                }
                Ok(())
            },
            CycleAction::SetNmiVec => {
                self.internal.tmp_hi = 0xFF;
                self.internal.tmp_lo = 0xFA;
                let p = self.regs.p();
                self.regs.set_p(p.with_i(true));
                proof {
                    assert(self.mach() =~~= spec_apply_action(a, s0).unwrap());
                }
                Ok(())
            },
            _ => Ok(()),
        }
    }

    /// Run one action that invokes the current operation kernel.
    #[verifier::rlimit(100)]
    #[verifier::spinoff_prover]
    fn apply_invoke_action(&mut self, a: CycleAction) -> (r: Result<(), CpuError>)
        requires
            a is InvokeOp || a is InvokeOpA || a is InvokeOpDat || a is InvokeOpRdVal || a is SetTmpHiInvokeOpDat || a is SetTmpZpInvokeOpDat || a is SetTmpFullInvokeOpDat || a is CarryIntoTmpHiInvokeOpDat || a is IncTmpByXInvokeOpDat || a is IncTmpByYInvokeOpDat || a is SaveRdValStopIfNoBranch,
        ensures
            r == Ok::<(), CpuError>(()),
            final(self).mach() == spec_apply_action(a, old(self).mach()).unwrap(),
            Cpu6502::frame(old(self), final(self)),
            out_extends(old(self).spec_pending_log(), final(self).spec_pending_log()),
    {
        let ghost s0 = old(self).mach();
        match a {
            CycleAction::InvokeOp => {
                let m = self.op;
                let mut v: u8 = 0;
                invoke_op(m, &mut self.regs, &mut v);
                proof {
                    assert(self.mach() =~~= spec_apply_action(a, s0).unwrap());
                }
                Ok(())
            },
            CycleAction::InvokeOpA => {
                let m = self.op;
                let mut v = self.regs.a();
                invoke_op(m, &mut self.regs, &mut v);
                self.regs.set_a(v);
                proof {
                    assert(self.mach() =~~= spec_apply_action(a, s0).unwrap());
                }
                Ok(())
            },
            CycleAction::InvokeOpDat => {
                let m = self.op;
                let mut v = self.internal.dat;
                invoke_op(m, &mut self.regs, &mut v);
                self.internal.dat = v;
                proof {
                    assert(self.mach() =~~= spec_apply_action(a, s0).unwrap());
                }
                Ok(())
            },
            CycleAction::InvokeOpRdVal => {
                let m = self.op;
                let mut v = self.internal.rd_val;
                invoke_op(m, &mut self.regs, &mut v);
                proof {
                    assert(self.mach() =~~= spec_apply_action(a, s0).unwrap());
                }
                Ok(())
            },
            CycleAction::SetTmpHiInvokeOpDat => {
                self.internal.tmp_hi = self.internal.rd_val;
                let m = self.op;
                let mut v = self.internal.dat;
                invoke_op(m, &mut self.regs, &mut v);
                self.internal.dat = v;
                proof {
                    assert(self.mach() =~~= spec_apply_action(a, s0).unwrap());
                }
                Ok(())
            },
            CycleAction::SetTmpZpInvokeOpDat => {
                self.internal.tmp_lo = self.internal.rd_val;
                self.internal.tmp_hi = 0;
                let m = self.op;
                let mut v = self.internal.dat;
                invoke_op(m, &mut self.regs, &mut v);
                self.internal.dat = v;
                proof {
                    assert(self.mach() =~~= spec_apply_action(a, s0).unwrap());
                }
                Ok(())
            },
            CycleAction::SetTmpFullInvokeOpDat => {
                self.internal.tmp_hi = self.internal.rd_val;
                self.internal.tmp_lo = self.internal.dat;
                let m = self.op;
                let mut v = self.internal.dat;
                invoke_op(m, &mut self.regs, &mut v);
                self.internal.dat = v;
                proof {
                    assert(self.mach() =~~= spec_apply_action(a, s0).unwrap());
                }
                Ok(())
            },
            CycleAction::CarryIntoTmpHiInvokeOpDat => {
                self.internal.tmp_hi = self.internal.tmp_hi.wrapping_add(self.internal.dat);
                let m = self.op;
                let mut v = self.internal.dat;
                invoke_op(m, &mut self.regs, &mut v);
                self.internal.dat = v;
                proof {
                    assert(self.mach() =~~= spec_apply_action(a, s0).unwrap());
                }
                Ok(())
            },
            CycleAction::IncTmpByXInvokeOpDat => {
                self.internal.tmp_lo = self.internal.tmp_lo.wrapping_add(self.regs.x());
                let m = self.op;
                let mut v = self.internal.dat;
                invoke_op(m, &mut self.regs, &mut v);
                self.internal.dat = v;
                proof {
                    assert(self.mach() =~~= spec_apply_action(a, s0).unwrap());
                }
                Ok(())
            },
            CycleAction::IncTmpByYInvokeOpDat => {
                self.internal.tmp_lo = self.internal.tmp_lo.wrapping_add(self.regs.y());
                let m = self.op;
                let mut v = self.internal.dat;
                invoke_op(m, &mut self.regs, &mut v);
                self.internal.dat = v;
                proof {
                    assert(self.mach() =~~= spec_apply_action(a, s0).unwrap());
                }
                Ok(())
            },
            CycleAction::SaveRdValStopIfNoBranch => {
                self.internal.dat = self.internal.rd_val;
                let m = self.op;
                let mut cond: u8 = 0;
                invoke_op(m, &mut self.regs, &mut cond);
                if cond == 0 {
                    self.end_instruction();
                }
                proof {
                    assert(self.mach() =~~= spec_apply_action(a, s0).unwrap());
                }
                Ok(())
            },
            _ => Ok(()),
        }
    }

    /// Run one cycle action against the engine state.
    #[verifier::rlimit(100)]
    #[verifier::spinoff_prover]
    fn apply_action(&mut self, a: CycleAction) -> (r: Result<(), CpuError>)
        ensures
            ({
                let res = spec_apply_action(a, old(self).mach());
                match res {
                    Ok(m) => r == Ok::<(), CpuError>(()) && final(self).mach() == m,
                    Err(e) => r == Err::<(), CpuError>(e) && final(self).mach() == old(
                        self,
                    ).mach(),
                }
            }),
            Cpu6502::frame(old(self), final(self)),
            out_extends(old(self).spec_pending_log(), final(self).spec_pending_log()),
    {
        match a {
            CycleAction::Nop => Ok(()),
            CycleAction::Dispatch => {
                let opcode = self.internal.rd_val;
                self.dispatch(opcode)
            },
            CycleAction::SetTmpLo | CycleAction::SetTmpHi | CycleAction::SetTmpFull | CycleAction::SetTmpZp | CycleAction::SetTmpHiIncByXRecordCarry | CycleAction::SetTmpHiIncByXSkipIfNoCarry | CycleAction::SetTmpHiIncByYRecordCarry | CycleAction::SetTmpHiIncByYSkipIfNoCarry | CycleAction::SetTmpFullIncByYRecordCarry | CycleAction::SetTmpFullIncByYSkipIfNoCarry | CycleAction::IncTmpHi | CycleAction::CarryIntoTmpHi | CycleAction::IncTmpByX | CycleAction::IncTmpByY => self.apply_addr_action(a),
            CycleAction::SetP | CycleAction::DecS | CycleAction::SetPcLo | CycleAction::SetPcHi | CycleAction::SetPcFull | CycleAction::SetPcLoIncTmp | CycleAction::AdvancePcByDatStopIfNoCarry | CycleAction::CarryIntoPcHi | CycleAction::SavePcHi | CycleAction::SavePcLo | CycleAction::SaveRdVal | CycleAction::SaveRdValIncTmp | CycleAction::SaveP | CycleAction::SavePBrk | CycleAction::SetResetVec | CycleAction::SetIrqVec | CycleAction::SetNmiVec => self.apply_pc_action(a),
            CycleAction::InvokeOp | CycleAction::InvokeOpA | CycleAction::InvokeOpDat | CycleAction::InvokeOpRdVal | CycleAction::SetTmpHiInvokeOpDat | CycleAction::SetTmpZpInvokeOpDat | CycleAction::SetTmpFullInvokeOpDat | CycleAction::CarryIntoTmpHiInvokeOpDat | CycleAction::IncTmpByXInvokeOpDat | CycleAction::IncTmpByYInvokeOpDat | CycleAction::SaveRdValStopIfNoBranch => self.apply_invoke_action(a),
        }
    }

    /// Form the bus access a memory-cycle descriptor dictates, with its PC
    /// and S side effects.
    fn mem_cycle(&mut self, mc: MemCycle) -> (acc: BusAccess)
        ensures
            ({
                let m = spec_mem_cycle(mc, old(self).mach().regs, old(self).mach().internal);
                final(self).mach() == (MachState { regs: m.0, ..old(self).mach() }) && acc == m.1
            }),
            Cpu6502::frame(old(self), final(self)),
            out_extends(old(self).spec_pending_log(), final(self).spec_pending_log()),
    {
        let ghost s0 = old(self).mach();
        match mc {
            MemCycle::IncReadPC => {
                let pc = self.regs.pc().wrapping_add(1);
                self.regs.set_pc(pc);
                proof {
                    assert(self.mach() =~~= (MachState {
                        regs: spec_mem_cycle(mc, s0.regs, s0.internal).0,
                        ..s0
                    }));
                }
                BusAccess::Read(pc)
            },
            MemCycle::ReadPC => BusAccess::Read(self.regs.pc()),
            MemCycle::IncReadTmp => {
                let pc = self.regs.pc().wrapping_add(1);
                self.regs.set_pc(pc);
                let addr = self.tmp_addr();
                proof {
                    assert(self.mach() =~~= (MachState {
                        regs: spec_mem_cycle(mc, s0.regs, s0.internal).0,
                        ..s0
                    }));
                }
                BusAccess::Read(addr)
            },
            MemCycle::ReadTmp => BusAccess::Read(self.tmp_addr()),
            MemCycle::IncWriteTmp => {
                let pc = self.regs.pc().wrapping_add(1);
                self.regs.set_pc(pc);
                let addr = self.tmp_addr();
                proof {
                    assert(self.mach() =~~= (MachState {
                        regs: spec_mem_cycle(mc, s0.regs, s0.internal).0,
                        ..s0
                    }));
                }
                BusAccess::Write(addr, self.internal.dat)
            },
            MemCycle::WriteTmp => BusAccess::Write(self.tmp_addr(), self.internal.dat),
            MemCycle::IncReadStk => {
                let pc = self.regs.pc().wrapping_add(1);
                self.regs.set_pc(pc);
                proof {
                    assert(self.mach() =~~= (MachState {
                        regs: spec_mem_cycle(mc, s0.regs, s0.internal).0,
                        ..s0
                    }));
                }
                BusAccess::Read(0x0100u16 | (self.regs.s() as u16))
            },
            MemCycle::ReadStk => BusAccess::Read(0x0100u16 | (self.regs.s() as u16)),
            MemCycle::IncPushStk => {
                let pc = self.regs.pc().wrapping_add(1);
                self.regs.set_pc(pc);
                let sp = self.regs.s();
                self.regs.set_s(sp.wrapping_sub(1));
                proof {
                    assert(self.mach() =~~= (MachState {
                        regs: spec_mem_cycle(mc, s0.regs, s0.internal).0,
                        ..s0
                    }));
                }
                BusAccess::Write(0x0100u16 | (sp as u16), self.internal.dat)
            },
            MemCycle::PushStk => {
                let sp = self.regs.s();
                self.regs.set_s(sp.wrapping_sub(1));
                proof {
                    assert(self.mach() =~~= (MachState {
                        regs: spec_mem_cycle(mc, s0.regs, s0.internal).0,
                        ..s0
                    }));
                }
                BusAccess::Write(0x0100u16 | (sp as u16), self.internal.dat)
            },
            MemCycle::PopStk => {
                let sp = self.regs.s().wrapping_add(1);
                self.regs.set_s(sp);
                proof {
                    assert(self.mach() =~~= (MachState {
                        regs: spec_mem_cycle(mc, s0.regs, s0.internal).0,
                        ..s0
                    }));
                }
                BusAccess::Read(0x0100u16 | (sp as u16))
            },
        }
    }

    /// Perform one clock cycle: consume the byte on the data bus, run the
    /// next scheduled action, and return the one bus access this cycle
    /// drives — exactly as `spec_tick` describes. All register events this
    /// cycle emitted are flushed to the trace output buffer.
    pub fn tick(&mut self, data_bus: u8) -> (r: Result<BusAccess, CpuError>)
        ensures
            ({
                let t = spec_tick(old(self).mach(), data_bus);
                final(self).mach() == t.0 && r == t.1
            }),
            Cpu6502::frame(old(self), final(self)),
            final(self).spec_pending_log() == Seq::<Seq<char>>::empty(),
    {
        let ghost s0 = old(self).mach();
        self.internal.rd_val = data_bus;
        proof {
            assert(self.mach() =~~= (MachState {
                internal: InternalRegs { rd_val: data_bus, ..s0.internal },
                ..s0
            }));
        }
        if self.sequence.len() == 0 {
            self.sequence = sequence_for(SeqKind::Dispatch);
        }
        let ghost s2 = self.mach();
        let cycle = self.sequence.remove(0);
        proof {
            assert(self.mach() =~~= (MachState { sequence: s2.sequence.drop_first(), ..s2 }));
        }
        let mut msg = String::from_str("    ");
        msg.append(action_name(cycle.0));
        self.tracer.trace_event(self.seq_trace_element, msg.as_str());
        let action_result = self.apply_action(cycle.0);
        let r = match action_result {
            Err(e) => Err(e),
            Ok(()) => {
                let acc = self.mem_cycle(cycle.1);
                Ok(acc)
            },
        };
        let mut lines = self.regs.take_log();
        self.tracer.absorb_lines(&mut lines);
        proof {
            assert(self.spec_pending_log() =~~= Seq::<Seq<char>>::empty());
        }
        r
    }
}

} // verus!

