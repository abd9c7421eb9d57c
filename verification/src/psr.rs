//! Architectural processor status register (P) of the 6502.
//!
//! P carries the six architectural flags N, V, D, I, Z and C. Bit 5 of the
//! stacked byte form is constant 1, and bit 4 (B) is a synthetic flag that
//! exists only in stacked representations: it is supplied per push site
//! (1 on PHP and BRK, 0 on IRQ/NMI hardware pushes) and ignored on restore.

use vstd::prelude::*;

use crate::hexfmt::push_char;
use crate::tracer::TraceableValue;

verus! {

/// The architectural flags of the processor status register.
#[derive(Debug, Copy, Clone, PartialEq, Eq, Structural)]
pub struct ArchPSR {
    pub n: bool,
    pub z: bool,
    pub c: bool,
    pub v: bool,
    pub i: bool,
    pub d: bool,
}

/// The flag state decoded from a stacked status byte: bits 7, 6, 3, 2, 1, 0
/// are N, V, D, I, Z, C; bits 5 and 4 are ignored.
pub open spec fn spec_from_stk_u8(value: u8) -> ArchPSR {
    ArchPSR {
        n: value & 0x80 != 0,
        z: value & 0x02 != 0,
        c: value & 0x01 != 0,
        v: value & 0x40 != 0,
        i: value & 0x04 != 0,
        d: value & 0x08 != 0,
    }
}

/// The stacked status byte for flags `p` with synthetic flag `b`:
/// each set flag contributes its bit weight, and bit 5 is always 1.
pub open spec fn spec_as_stk_u8(p: ArchPSR, b: bool) -> u8 {
    ((if p.n { 0x80u8 } else { 0u8 }) + (if p.v { 0x40u8 } else { 0u8 }) + 0x20u8
        + (if b { 0x10u8 } else { 0u8 }) + (if p.d { 0x08u8 } else { 0u8 })
        + (if p.i { 0x04u8 } else { 0u8 }) + (if p.z { 0x02u8 } else { 0u8 })
        + (if p.c { 0x01u8 } else { 0u8 })) as u8
}

impl ArchPSR {
    /// The reset-value flag state: every flag clear.
    pub open spec fn spec_default() -> ArchPSR {
        ArchPSR { n: false, z: false, c: false, v: false, i: false, d: false }
    }

    /// Decode a stacked status byte; bits 4 and 5 are ignored.
    pub fn from_stk_u8(value: u8) -> (r: Self)
        ensures
            r == spec_from_stk_u8(value),
    {
        Self {
            n: value & 0x80 != 0,
            z: value & 0x02 != 0,
            c: value & 0x01 != 0,
            v: value & 0x40 != 0,
            i: value & 0x04 != 0,
            d: value & 0x08 != 0,
        }
    }

    /// Encode the flags as a stacked status byte, with `b` as bit 4.
    pub fn as_stk_u8(&self, b: bool) -> (r: u8)
        ensures
            r == spec_as_stk_u8(*self, b),
    {
        // Unused bit 5 is always 1
        let mut value: u8 = 0x20;
        if self.n {
            value += 0x80;
        }
        if self.v {
            value += 0x40;
        }
        if b {
            value += 0x10;
        }
        if self.d {
            value += 0x08;
        }
        if self.i {
            value += 0x04;
        }
        if self.z {
            value += 0x02;
        }
        if self.c {
            value += 0x01;
        }
        value
    }

    pub open spec fn spec_with_nz(self, n: bool, z: bool) -> ArchPSR {
        ArchPSR { n, z, ..self }
    }

    pub fn with_nz(self, n: bool, z: bool) -> (r: Self)
        ensures
            r == self.spec_with_nz(n, z),
    {
        Self { n, z, ..self }
    }

    /// N and Z as a value computes them: N is bit 7, Z means zero.
    pub open spec fn spec_with_nz_from_value(self, value: u8) -> ArchPSR {
        self.spec_with_nz(value & 0x80 != 0, value == 0)
    }

    pub fn with_nz_from_value(self, value: u8) -> (r: Self)
        ensures
            r == self.spec_with_nz_from_value(value),
    {
        self.with_nz(value & 0x80 != 0, value == 0)
    }

    pub open spec fn spec_with_nzc(self, n: bool, z: bool, c: bool) -> ArchPSR {
        ArchPSR { n, z, c, ..self }
    }

    pub fn with_nzc(self, n: bool, z: bool, c: bool) -> (r: Self)
        ensures
            r == self.spec_with_nzc(n, z, c),
    {
        Self { n, z, c, ..self }
    }

    pub open spec fn spec_with_nzc_from_value(self, value: u8, c: bool) -> ArchPSR {
        self.spec_with_nzc(value & 0x80 != 0, value == 0, c)
    }

    pub fn with_nzc_from_value(self, value: u8, c: bool) -> (r: Self)
        ensures
            r == self.spec_with_nzc_from_value(value, c),
    {
        self.with_nzc(value & 0x80 != 0, value == 0, c)
    }

    pub open spec fn spec_with_nzv(self, n: bool, z: bool, v: bool) -> ArchPSR {
        ArchPSR { n, z, v, ..self }
    }

    pub fn with_nzv(self, n: bool, z: bool, v: bool) -> (r: Self)
        ensures
            r == self.spec_with_nzv(n, z, v),
    {
        Self { n, z, v, ..self }
    }

    pub open spec fn spec_with_nzcv(self, n: bool, z: bool, c: bool, v: bool) -> ArchPSR {
        ArchPSR { n, z, c, v, ..self }
    }

    pub fn with_nzcv(self, n: bool, z: bool, c: bool, v: bool) -> (r: Self)
        ensures
            r == self.spec_with_nzcv(n, z, c, v),
    {
        Self { n, z, c, v, ..self }
    }

    pub open spec fn spec_with_nzcv_from_value(self, value: u8, c: bool, v: bool) -> ArchPSR {
        self.spec_with_nzcv(value & 0x80 != 0, value == 0, c, v)
    }

    pub fn with_nzcv_from_value(self, value: u8, c: bool, v: bool) -> (r: Self)
        ensures
            r == self.spec_with_nzcv_from_value(value, c, v),
    {
        self.with_nzcv(value & 0x80 != 0, value == 0, c, v)
    }

    pub open spec fn spec_with_c(self, c: bool) -> ArchPSR {
        ArchPSR { c, ..self }
    }

    pub fn with_c(self, c: bool) -> (r: Self)
        ensures
            r == self.spec_with_c(c),
    {
        Self { c, ..self }
    }

    pub open spec fn spec_with_d(self, d: bool) -> ArchPSR {
        ArchPSR { d, ..self }
    }

    pub fn with_d(self, d: bool) -> (r: Self)
        ensures
            r == self.spec_with_d(d),
    {
        Self { d, ..self }
    }

    pub open spec fn spec_with_i(self, i: bool) -> ArchPSR {
        ArchPSR { i, ..self }
    }

    pub fn with_i(self, i: bool) -> (r: Self)
        ensures
            r == self.spec_with_i(i),
    {
        Self { i, ..self }
    }

    pub open spec fn spec_with_v(self, v: bool) -> ArchPSR {
        ArchPSR { v, ..self }
    }

    pub fn with_v(self, v: bool) -> (r: Self)
        ensures
            r == self.spec_with_v(v),
    {
        Self { v, ..self }
    }
}

impl Default for ArchPSR {
    /// The default flag state clears every flag.
    fn default() -> (r: Self)
        ensures
            r == ArchPSR::spec_default(),
    {
        Self { n: false, z: false, c: false, v: false, i: false, d: false }
    }
}

impl TraceableValue for ArchPSR {
    /// The status register renders as `NV1.DIZC`, each letter replaced by a
    /// dot when the flag is clear.
    open spec fn spec_trace_repr(&self) -> Seq<char> {
        seq![
            if self.n { 'N' } else { '.' },
            if self.v { 'V' } else { '.' },
            '1',
            '.',
            if self.d { 'D' } else { '.' },
            if self.i { 'I' } else { '.' },
            if self.z { 'Z' } else { '.' },
            if self.c { 'C' } else { '.' },
        ]
    }

    fn fmt_trace(&self) -> (r: String)
        ensures
            r@ == self.spec_trace_repr(),
    {
        let mut r = String::new();
        push_char(&mut r, if self.n { 'N' } else { '.' });
        push_char(&mut r, if self.v { 'V' } else { '.' });
        push_char(&mut r, '1');
        push_char(&mut r, '.');
        push_char(&mut r, if self.d { 'D' } else { '.' });
        push_char(&mut r, if self.i { 'I' } else { '.' });
        push_char(&mut r, if self.z { 'Z' } else { '.' });
        push_char(&mut r, if self.c { 'C' } else { '.' });
        proof {
            assert(r@ =~= self.spec_trace_repr());
        }
        r
    }
}

/// Bit layout of the stacked status byte: bits 7 down to 0 hold
/// N, V, 1, B, D, I, Z, C.
pub proof fn lemma_stk_u8_bits(p: ArchPSR, b: bool)
    ensures
        (spec_as_stk_u8(p, b) & 0x80 != 0) == p.n,
        (spec_as_stk_u8(p, b) & 0x40 != 0) == p.v,
        (spec_as_stk_u8(p, b) & 0x20 != 0),
        (spec_as_stk_u8(p, b) & 0x10 != 0) == b,
        (spec_as_stk_u8(p, b) & 0x08 != 0) == p.d,
        (spec_as_stk_u8(p, b) & 0x04 != 0) == p.i,
        (spec_as_stk_u8(p, b) & 0x02 != 0) == p.z,
        (spec_as_stk_u8(p, b) & 0x01 != 0) == p.c,
{
    let s = spec_as_stk_u8(p, b);
    let n = p.n;
    let v = p.v;
    let d = p.d;
    let i = p.i;
    let z = p.z;
    let c = p.c;
    assert((s & 0x80 != 0) == n && (s & 0x40 != 0) == v && (s & 0x20 != 0) && (s & 0x10 != 0)
        == b && (s & 0x08 != 0) == d && (s & 0x04 != 0) == i && (s & 0x02 != 0) == z && (s & 0x01
        != 0) == c) by (bit_vector)
        requires
            s == ((if n { 0x80u8 } else { 0u8 }) + (if v { 0x40u8 } else { 0u8 }) + 0x20u8 + (if b {
                0x10u8
            } else {
                0u8
            }) + (if d { 0x08u8 } else { 0u8 }) + (if i { 0x04u8 } else { 0u8 }) + (if z {
                0x02u8
            } else {
                0u8
            }) + (if c { 0x01u8 } else { 0u8 })) as u8,
    ;
}

/// Stack-encoded status round trip: decoding an encoded status restores
/// every architectural flag, whatever B bit was pushed.
pub proof fn lemma_stk_u8_roundtrip(p: ArchPSR, b: bool)
    ensures
        spec_from_stk_u8(spec_as_stk_u8(p, b)) == p,
{
    lemma_stk_u8_bits(p, b);
}

} // verus!
