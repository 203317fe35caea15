//! Lane vectors with 16-bit lanes: eight lanes per 128-bit register.
//!
//! Each type fixes a lane width and signedness; lane 0 is the lowest-order
//! lane of the register pattern.  `to_bits` / `from_bits` are the
//! specification-level bit reinterpretations, and the paired lemmas prove that
//! they are mutually inverse, so every view change is lossless.

use crate::bits::{i16_of_u16, lane16, u16_of_i16};
use crate::register::m128i;
use vstd::prelude::*;

verus! {

/// 8 signed 16-bit lanes in one 128-bit register.
#[allow(non_camel_case_types)]
#[derive(Debug, Copy, Clone)]
pub struct i16x8(pub i16, pub i16, pub i16, pub i16, pub i16, pub i16, pub i16, pub i16);

impl View for i16x8 {
    type V = Seq<i16>;

    open spec fn view(&self) -> Seq<i16> {
        seq![self.0, self.1, self.2, self.3, self.4, self.5, self.6, self.7]
    }
}

impl i16x8 {
    /// The 128-bit pattern these lanes occupy, lane 0 lowest-order.
    pub open spec fn to_bits(self) -> u128 {
        (u16_of_i16(self.0) as u128) | ((u16_of_i16(self.1) as u128) << 16)
            | ((u16_of_i16(self.2) as u128) << 32) | ((u16_of_i16(self.3) as u128) << 48)
            | ((u16_of_i16(self.4) as u128) << 64) | ((u16_of_i16(self.5) as u128) << 80)
            | ((u16_of_i16(self.6) as u128) << 96) | ((u16_of_i16(self.7) as u128) << 112)
    }

    /// The lanes a 128-bit pattern holds under this view.
    pub open spec fn from_bits(b: u128) -> i16x8 {
        i16x8(
            i16_of_u16(lane16(b, 0)),
            i16_of_u16(lane16(b, 1)),
            i16_of_u16(lane16(b, 2)),
            i16_of_u16(lane16(b, 3)),
            i16_of_u16(lane16(b, 4)),
            i16_of_u16(lane16(b, 5)),
            i16_of_u16(lane16(b, 6)),
            i16_of_u16(lane16(b, 7)),
        )
    }

    /// Builds a vector from its lanes, lane 0 first.
    pub fn new(e0: i16, e1: i16, e2: i16, e3: i16, e4: i16, e5: i16, e6: i16, e7: i16) -> (r: i16x8)
        ensures
            r@ == seq![e0, e1, e2, e3, e4, e5, e6, e7],
    {
        i16x8(e0, e1, e2, e3, e4, e5, e6, e7)
    }

    /// The lane at `idx`.  The index must be in bounds: this is a caller
    /// obligation, checked statically on every verified caller.
    pub fn extract(self, idx: usize) -> (r: i16)
        requires
            idx < 8,
        ensures
            r == self@[idx as int],
    {
        if idx == 0 {
            self.0
        } else if idx == 1 {
            self.1
        } else if idx == 2 {
            self.2
        } else if idx == 3 {
            self.3
        } else if idx == 4 {
            self.4
        } else if idx == 5 {
            self.5
        } else if idx == 6 {
            self.6
        } else {
            self.7
        }
    }

    /// Reinterprets these lanes as a raw register: the same 128 bits, with the
    /// lane reading dropped.
    pub fn as_m128i(self) -> (r: m128i)
        ensures
            r@ == self.to_bits(),
    {
        let b0: u16 = #[verifier::truncate] (self.0 as u16);
        let b1: u16 = #[verifier::truncate] (self.1 as u16);
        let b2: u16 = #[verifier::truncate] (self.2 as u16);
        let b3: u16 = #[verifier::truncate] (self.3 as u16);
        let b4: u16 = #[verifier::truncate] (self.4 as u16);
        let b5: u16 = #[verifier::truncate] (self.5 as u16);
        let b6: u16 = #[verifier::truncate] (self.6 as u16);
        let b7: u16 = #[verifier::truncate] (self.7 as u16);
        proof {
            let x0: i16 = self.0;
            let x1: i16 = self.1;
            let x2: i16 = self.2;
            let x3: i16 = self.3;
            let x4: i16 = self.4;
            let x5: i16 = self.5;
            let x6: i16 = self.6;
            let x7: i16 = self.7;
            assert((x0 as u16) == u16_of_i16(x0) && (x1 as u16) == u16_of_i16(x1) && (x2 as u16) == u16_of_i16(x2) && (x3 as u16) == u16_of_i16(x3) && (x4 as u16) == u16_of_i16(x4) && (x5 as u16) == u16_of_i16(x5) && (x6 as u16) == u16_of_i16(x6) && (x7 as u16) == u16_of_i16(x7))
                by (bit_vector);
        }
        m128i {
            bits: (b0 as u128) | ((b1 as u128) << 16) | ((b2 as u128) << 32) | ((b3 as u128) << 48) | ((b4 as u128) << 64) | ((b5 as u128) << 80) | ((b6 as u128) << 96) | ((b7 as u128) << 112),
        }
    }
}

/// Viewing a register as 8 signed 16-bit lanes and re-reading those lanes
/// as a register restores the original pattern bit for bit.
pub proof fn lemma_i16x8_view_preserves_bits(b: u128)
    ensures
        (i16x8::from_bits(b)).to_bits() == b,
{
    assert((u16_of_i16(i16_of_u16(lane16(b, 0))) as u128)
            | ((u16_of_i16(i16_of_u16(lane16(b, 1))) as u128) << 16)
            | ((u16_of_i16(i16_of_u16(lane16(b, 2))) as u128) << 32)
            | ((u16_of_i16(i16_of_u16(lane16(b, 3))) as u128) << 48)
            | ((u16_of_i16(i16_of_u16(lane16(b, 4))) as u128) << 64)
            | ((u16_of_i16(i16_of_u16(lane16(b, 5))) as u128) << 80)
            | ((u16_of_i16(i16_of_u16(lane16(b, 6))) as u128) << 96)
            | ((u16_of_i16(i16_of_u16(lane16(b, 7))) as u128) << 112) == b)
        by (bit_vector);
}

/// Reading a vector's pattern back under the same view restores the vector:
/// the reinterpretation loses nothing.
pub proof fn lemma_i16x8_round_trip(v: i16x8)
    ensures
        i16x8::from_bits(v.to_bits()) == v,
{
    let x0: i16 = v.0;
    let x1: i16 = v.1;
    let x2: i16 = v.2;
    let x3: i16 = v.3;
    let x4: i16 = v.4;
    let x5: i16 = v.5;
    let x6: i16 = v.6;
    let x7: i16 = v.7;
    let bb: u128 = v.to_bits();
    assert(i16_of_u16(lane16(bb, 0)) == x0 && i16_of_u16(lane16(bb, 1)) == x1 && i16_of_u16(lane16(bb, 2)) == x2 && i16_of_u16(lane16(bb, 3)) == x3 && i16_of_u16(lane16(bb, 4)) == x4 && i16_of_u16(lane16(bb, 5)) == x5 && i16_of_u16(lane16(bb, 6)) == x6 && i16_of_u16(lane16(bb, 7)) == x7)
        by (bit_vector)
        requires
            bb == (u16_of_i16(x0) as u128) | ((u16_of_i16(x1) as u128) << 16)
                    | ((u16_of_i16(x2) as u128) << 32) | ((u16_of_i16(x3) as u128) << 48)
                    | ((u16_of_i16(x4) as u128) << 64) | ((u16_of_i16(x5) as u128) << 80)
                    | ((u16_of_i16(x6) as u128) << 96) | ((u16_of_i16(x7) as u128) << 112),
    ;
}

/// 8 unsigned 16-bit lanes in one 128-bit register.
#[allow(non_camel_case_types)]
#[derive(Debug, Copy, Clone)]
pub struct u16x8(pub u16, pub u16, pub u16, pub u16, pub u16, pub u16, pub u16, pub u16);

impl View for u16x8 {
    type V = Seq<u16>;

    open spec fn view(&self) -> Seq<u16> {
        seq![self.0, self.1, self.2, self.3, self.4, self.5, self.6, self.7]
    }
}

impl u16x8 {
    /// The 128-bit pattern these lanes occupy, lane 0 lowest-order.
    pub open spec fn to_bits(self) -> u128 {
        (self.0 as u128) | ((self.1 as u128) << 16) | ((self.2 as u128) << 32)
            | ((self.3 as u128) << 48) | ((self.4 as u128) << 64) | ((self.5 as u128) << 80)
            | ((self.6 as u128) << 96) | ((self.7 as u128) << 112)
    }

    /// The lanes a 128-bit pattern holds under this view.
    pub open spec fn from_bits(b: u128) -> u16x8 {
        u16x8(
            lane16(b, 0),
            lane16(b, 1),
            lane16(b, 2),
            lane16(b, 3),
            lane16(b, 4),
            lane16(b, 5),
            lane16(b, 6),
            lane16(b, 7),
        )
    }

    /// Builds a vector from its lanes, lane 0 first.
    pub fn new(e0: u16, e1: u16, e2: u16, e3: u16, e4: u16, e5: u16, e6: u16, e7: u16) -> (r: u16x8)
        ensures
            r@ == seq![e0, e1, e2, e3, e4, e5, e6, e7],
    {
        u16x8(e0, e1, e2, e3, e4, e5, e6, e7)
    }

    /// The lane at `idx`.  The index must be in bounds: this is a caller
    /// obligation, checked statically on every verified caller.
    pub fn extract(self, idx: usize) -> (r: u16)
        requires
            idx < 8,
        ensures
            r == self@[idx as int],
    {
        if idx == 0 {
            self.0
        } else if idx == 1 {
            self.1
        } else if idx == 2 {
            self.2
        } else if idx == 3 {
            self.3
        } else if idx == 4 {
            self.4
        } else if idx == 5 {
            self.5
        } else if idx == 6 {
            self.6
        } else {
            self.7
        }
    }

    /// Reinterprets these lanes as a raw register: the same 128 bits, with the
    /// lane reading dropped.
    pub fn as_m128i(self) -> (r: m128i)
        ensures
            r@ == self.to_bits(),
    {
        m128i {
            bits: (self.0 as u128) | ((self.1 as u128) << 16) | ((self.2 as u128) << 32) | ((self.3 as u128) << 48) | ((self.4 as u128) << 64) | ((self.5 as u128) << 80) | ((self.6 as u128) << 96) | ((self.7 as u128) << 112),
        }
    }
}

/// Viewing a register as 8 unsigned 16-bit lanes and re-reading those
/// lanes as a register restores the original pattern bit for bit.
pub proof fn lemma_u16x8_view_preserves_bits(b: u128)
    ensures
        (u16x8::from_bits(b)).to_bits() == b,
{
    assert((lane16(b, 0) as u128) | ((lane16(b, 1) as u128) << 16) | ((lane16(b, 2) as u128) << 32)
            | ((lane16(b, 3) as u128) << 48) | ((lane16(b, 4) as u128) << 64)
            | ((lane16(b, 5) as u128) << 80) | ((lane16(b, 6) as u128) << 96)
            | ((lane16(b, 7) as u128) << 112) == b)
        by (bit_vector);
}

/// Reading a vector's pattern back under the same view restores the vector:
/// the reinterpretation loses nothing.
pub proof fn lemma_u16x8_round_trip(v: u16x8)
    ensures
        u16x8::from_bits(v.to_bits()) == v,
{
    let x0: u16 = v.0;
    let x1: u16 = v.1;
    let x2: u16 = v.2;
    let x3: u16 = v.3;
    let x4: u16 = v.4;
    let x5: u16 = v.5;
    let x6: u16 = v.6;
    let x7: u16 = v.7;
    let bb: u128 = v.to_bits();
    assert(lane16(bb, 0) == x0 && lane16(bb, 1) == x1 && lane16(bb, 2) == x2 && lane16(bb, 3) == x3 && lane16(bb, 4) == x4 && lane16(bb, 5) == x5 && lane16(bb, 6) == x6 && lane16(bb, 7) == x7)
        by (bit_vector)
        requires
            bb == (x0 as u128) | ((x1 as u128) << 16) | ((x2 as u128) << 32)
                    | ((x3 as u128) << 48) | ((x4 as u128) << 64) | ((x5 as u128) << 80)
                    | ((x6 as u128) << 96) | ((x7 as u128) << 112),
    ;
}

} // verus!
