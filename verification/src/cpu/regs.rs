//! The architectural register file: A, X, Y, the stack pointer S, the
//! program counter PC and the status register P, each wrapped in a traced
//! register that emits one event per write, plus the log those events are
//! collected in.

use vstd::prelude::*;

use crate::psr::ArchPSR;
use crate::tracer::{
    spec_parent_idx, spec_register_element, TraceElementId, TraceElementView, TraceableReg, Tracer,
};

verus! {

/// The pure values of the six architectural registers.
#[derive(Debug, Clone, Copy, PartialEq, Eq, Structural)]
pub struct RegFile {
    pub a: u8,
    pub x: u8,
    pub y: u8,
    pub s: u8,
    pub pc: u16,
    pub p: ArchPSR,
}

/// The register file at power-on: every register zero, every flag clear.
pub open spec fn spec_reg_file_reset() -> RegFile {
    RegFile { a: 0, x: 0, y: 0, s: 0, pc: 0, p: ArchPSR::spec_default() }
}

/// The traced architectural registers and the trace lines their writes
/// have emitted.
pub struct ArchRegs {
    a: TraceableReg<u8>,
    x: TraceableReg<u8>,
    y: TraceableReg<u8>,
    p: TraceableReg<ArchPSR>,
    s: TraceableReg<u8>,
    pc: TraceableReg<u16>,
    log: Vec<String>,
}

impl View for ArchRegs {
    type V = RegFile;

    closed spec fn view(&self) -> RegFile {
        RegFile {
            a: self.a.spec_value(),
            x: self.x.spec_value(),
            y: self.y.spec_value(),
            s: self.s.spec_value(),
            pc: self.pc.spec_value(),
            p: self.p.spec_value(),
        }
    }
}

/// The element tree after registering the six architectural registers, in
/// declaration order, under `parent_idx`.
pub open spec fn spec_register_regs(elems: Seq<TraceElementView>, parent_idx: int) -> Seq<
    TraceElementView,
> {
    let t1 = spec_register_element(elems, "A"@, parent_idx);
    let t2 = spec_register_element(t1.0, "X"@, parent_idx);
    let t3 = spec_register_element(t2.0, "Y"@, parent_idx);
    let t4 = spec_register_element(t3.0, "P"@, parent_idx);
    let t5 = spec_register_element(t4.0, "S"@, parent_idx);
    let t6 = spec_register_element(t5.0, "PC"@, parent_idx);
    t6.0
}

impl ArchRegs {
    /// The trace lines register writes have emitted, oldest first.
    pub closed spec fn spec_log(self) -> Seq<Seq<char>> {
        self.log.deep_view()
    }

    pub closed spec fn spec_a_reg(self) -> TraceableReg<u8> {
        self.a
    }

    pub closed spec fn spec_x_reg(self) -> TraceableReg<u8> {
        self.x
    }

    pub closed spec fn spec_y_reg(self) -> TraceableReg<u8> {
        self.y
    }

    pub closed spec fn spec_p_reg(self) -> TraceableReg<ArchPSR> {
        self.p
    }

    pub closed spec fn spec_s_reg(self) -> TraceableReg<u8> {
        self.s
    }

    pub closed spec fn spec_pc_reg(self) -> TraceableReg<u16> {
        self.pc
    }

    /// The lines a write of `v` to A emits: one when A is traced.
    pub open spec fn spec_emit_a(self, v: u8) -> Seq<Seq<char>> {
        self.spec_a_reg().spec_emits(v)
    }

    pub open spec fn spec_emit_x(self, v: u8) -> Seq<Seq<char>> {
        self.spec_x_reg().spec_emits(v)
    }

    pub open spec fn spec_emit_y(self, v: u8) -> Seq<Seq<char>> {
        self.spec_y_reg().spec_emits(v)
    }

    pub open spec fn spec_emit_p(self, v: ArchPSR) -> Seq<Seq<char>> {
        self.spec_p_reg().spec_emits(v)
    }

    pub open spec fn spec_emit_s(self, v: u8) -> Seq<Seq<char>> {
        self.spec_s_reg().spec_emits(v)
    }

    pub open spec fn spec_emit_pc(self, v: u16) -> Seq<Seq<char>> {
        self.spec_pc_reg().spec_emits(v)
    }

    /// The traced-register shapes (names, prefixes, enablement) of two
    /// register-file states agree: only values and the log may differ.
    pub open spec fn same_shape(pre: ArchRegs, post: ArchRegs) -> bool {
        TraceableReg::same_shape(pre.spec_a_reg(), post.spec_a_reg())
            && TraceableReg::same_shape(pre.spec_x_reg(), post.spec_x_reg())
            && TraceableReg::same_shape(pre.spec_y_reg(), post.spec_y_reg())
            && TraceableReg::same_shape(pre.spec_p_reg(), post.spec_p_reg())
            && TraceableReg::same_shape(pre.spec_s_reg(), post.spec_s_reg())
            && TraceableReg::same_shape(pre.spec_pc_reg(), post.spec_pc_reg())
    }

    /// The event log only grows: every line already emitted stays.
    pub open spec fn log_extends(pre: ArchRegs, post: ArchRegs) -> bool {
        post.spec_log().len() >= pre.spec_log().len() && forall|i: int|
            0 <= i < pre.spec_log().len() ==> post.spec_log()[i] == pre.spec_log()[i]
    }

    /// Create the register file with every register zero, registering the
    /// six registers as trace elements under `trace_parent`.
    pub fn new(tracer: &mut Tracer, trace_parent: Option<TraceElementId>) -> (r: ArchRegs)
        ensures
            final(tracer)@.elements == spec_register_regs(
                old(tracer)@.elements,
                spec_parent_idx(trace_parent),
            ),
            final(tracer)@.out == old(tracer)@.out,
            r@ == spec_reg_file_reset(),
            r.spec_log() == Seq::<Seq<char>>::empty(),
    {
        let r = ArchRegs {
            a: TraceableReg::new("A", 0u8, tracer, trace_parent),
            x: TraceableReg::new("X", 0u8, tracer, trace_parent),
            y: TraceableReg::new("Y", 0u8, tracer, trace_parent),
            p: TraceableReg::new("P", ArchPSR::default(), tracer, trace_parent),
            s: TraceableReg::new("S", 0u8, tracer, trace_parent),
            pc: TraceableReg::new("PC", 0u16, tracer, trace_parent),
            log: Vec::new(),
        };
        proof {
            assert(r.spec_log() =~~= Seq::<Seq<char>>::empty());
        }
        r
    }

    pub fn a(&self) -> (r: u8)
        ensures
            r == self@.a,
    {
        self.a.get()
    }

    pub fn x(&self) -> (r: u8)
        ensures
            r == self@.x,
    {
        self.x.get()
    }

    pub fn y(&self) -> (r: u8)
        ensures
            r == self@.y,
    {
        self.y.get()
    }

    pub fn s(&self) -> (r: u8)
        ensures
            r == self@.s,
    {
        self.s.get()
    }

    pub fn pc(&self) -> (r: u16)
        ensures
            r == self@.pc,
    {
        self.pc.get()
    }

    pub fn p(&self) -> (r: ArchPSR)
        ensures
            r == self@.p,
    {
        self.p.get()
    }

    /// Write A, emitting one trace line when A is traced.
    pub fn set_a(&mut self, v: u8)
        ensures
            final(self)@ == (RegFile { a: v, ..old(self)@ }),
            ArchRegs::same_shape(*old(self), *final(self)),
            final(self).spec_log() == old(self).spec_log() + old(self).spec_emit_a(v),
    {
        let line = self.a.set(v);
        if let Some(l) = line {
            self.log.push(l);
        }
        proof {
            assert(self.spec_log() =~~= old(self).spec_log() + old(self).spec_emit_a(v));
        }
    }

    /// Write X, emitting one trace line when X is traced.
    pub fn set_x(&mut self, v: u8)
        ensures
            final(self)@ == (RegFile { x: v, ..old(self)@ }),
            ArchRegs::same_shape(*old(self), *final(self)),
            final(self).spec_log() == old(self).spec_log() + old(self).spec_emit_x(v),
    {
        let line = self.x.set(v);
        if let Some(l) = line {
            self.log.push(l);
        }
        proof {
            assert(self.spec_log() =~~= old(self).spec_log() + old(self).spec_emit_x(v));
        }
    }

    /// Write Y, emitting one trace line when Y is traced.
    pub fn set_y(&mut self, v: u8)
        ensures
            final(self)@ == (RegFile { y: v, ..old(self)@ }),
            ArchRegs::same_shape(*old(self), *final(self)),
            final(self).spec_log() == old(self).spec_log() + old(self).spec_emit_y(v),
    {
        let line = self.y.set(v);
        if let Some(l) = line {
            self.log.push(l);
        }
        proof {
            assert(self.spec_log() =~~= old(self).spec_log() + old(self).spec_emit_y(v));
        }
    }

    /// Write P, emitting one trace line when P is traced.
    pub fn set_p(&mut self, v: ArchPSR)
        ensures
            final(self)@ == (RegFile { p: v, ..old(self)@ }),
            ArchRegs::same_shape(*old(self), *final(self)),
            final(self).spec_log() == old(self).spec_log() + old(self).spec_emit_p(v),
    {
        let line = self.p.set(v);
        if let Some(l) = line {
            self.log.push(l);
        }
        proof {
            assert(self.spec_log() =~~= old(self).spec_log() + old(self).spec_emit_p(v));
        }
    }

    /// Write S, emitting one trace line when S is traced.
    pub fn set_s(&mut self, v: u8)
        ensures
            final(self)@ == (RegFile { s: v, ..old(self)@ }),
            ArchRegs::same_shape(*old(self), *final(self)),
            final(self).spec_log() == old(self).spec_log() + old(self).spec_emit_s(v),
    {
        let line = self.s.set(v);
        if let Some(l) = line {
            self.log.push(l);
        }
        proof {
            assert(self.spec_log() =~~= old(self).spec_log() + old(self).spec_emit_s(v));
        }
    }

    /// Write PC, emitting one trace line when PC is traced.
    pub fn set_pc(&mut self, v: u16)
        ensures
            final(self)@ == (RegFile { pc: v, ..old(self)@ }),
            ArchRegs::same_shape(*old(self), *final(self)),
            final(self).spec_log() == old(self).spec_log() + old(self).spec_emit_pc(v),
    {
        let line = self.pc.set(v);
        if let Some(l) = line {
            self.log.push(l);
        }
        proof {
            assert(self.spec_log() =~~= old(self).spec_log() + old(self).spec_emit_pc(v));
        }
    }

    /// Hand the emitted trace lines to the caller, leaving the log empty.
    pub fn take_log(&mut self) -> (r: Vec<String>)
        ensures
            final(self)@ == old(self)@,
            ArchRegs::same_shape(*old(self), *final(self)),
            final(self).spec_log() == Seq::<Seq<char>>::empty(),
            r.deep_view() == old(self).spec_log(),
    {
        let mut taken: Vec<String> = Vec::new();
        core::mem::swap(&mut taken, &mut self.log);
        proof {
            assert(self.spec_log() =~~= Seq::<Seq<char>>::empty());
        }
        taken
    }
}

} // verus!
