//! Lane vectors with 32-bit lanes: four lanes per 128-bit register.
//!
//! Each type fixes a lane width and signedness; lane 0 is the lowest-order
//! lane of the register pattern.  `to_bits` / `from_bits` are the
//! specification-level bit reinterpretations, and the paired lemmas prove that
//! they are mutually inverse, so every view change is lossless.

use crate::bits::{i32_of_u32, lane32, u32_of_i32};
use crate::register::m128i;
use vstd::prelude::*;

verus! {

/// Four signed 32-bit lanes in one 128-bit register.
#[allow(non_camel_case_types)]
#[derive(Debug, Copy, Clone)]
pub struct i32x4(pub i32, pub i32, pub i32, pub i32);

impl View for i32x4 {
    type V = Seq<i32>;

    open spec fn view(&self) -> Seq<i32> {
        seq![self.0, self.1, self.2, self.3]
    }
}

impl i32x4 {
    /// The 128-bit pattern these lanes occupy, lane 0 lowest-order.
    pub open spec fn to_bits(self) -> u128 {
        (u32_of_i32(self.0) as u128) | ((u32_of_i32(self.1) as u128) << 32)
            | ((u32_of_i32(self.2) as u128) << 64) | ((u32_of_i32(self.3) as u128) << 96)
    }

    /// The lanes a 128-bit pattern holds under this view.
    pub open spec fn from_bits(b: u128) -> i32x4 {
        i32x4(
            i32_of_u32(lane32(b, 0)),
            i32_of_u32(lane32(b, 1)),
            i32_of_u32(lane32(b, 2)),
            i32_of_u32(lane32(b, 3)),
        )
    }

    /// Builds a vector from its lanes, lane 0 first.
    pub fn new(e0: i32, e1: i32, e2: i32, e3: i32) -> (r: i32x4)
        ensures
            r@ == seq![e0, e1, e2, e3],
    {
        i32x4(e0, e1, e2, e3)
    }

    /// The lane at `idx`.  The index must be in bounds: this is a caller
    /// obligation, checked statically on every verified caller.
    pub fn extract(self, idx: usize) -> (r: i32)
        requires
            idx < 4,
        ensures
            r == self@[idx as int],
    {
        if idx == 0 {
            self.0
        } else if idx == 1 {
            self.1
        } else if idx == 2 {
            self.2
        } else {
            self.3
        }
    }

    /// Reinterprets these lanes as a raw register: the same 128 bits, with the
    /// lane reading dropped.
    pub fn as_m128i(self) -> (r: m128i)
        ensures
            r@ == self.to_bits(),
    {
        let b0: u32 = #[verifier::truncate] (self.0 as u32);
        let b1: u32 = #[verifier::truncate] (self.1 as u32);
        let b2: u32 = #[verifier::truncate] (self.2 as u32);
        let b3: u32 = #[verifier::truncate] (self.3 as u32);
        proof {
            let x0: i32 = self.0;
            let x1: i32 = self.1;
            let x2: i32 = self.2;
            let x3: i32 = self.3;
            assert((x0 as u32) == u32_of_i32(x0) && (x1 as u32) == u32_of_i32(x1)
                && (x2 as u32) == u32_of_i32(x2) && (x3 as u32) == u32_of_i32(x3)) by (bit_vector);
        }
        m128i {
            bits: (b0 as u128) | ((b1 as u128) << 32) | ((b2 as u128) << 64) | (
            (b3 as u128) << 96),
        }
    }
}

/// Viewing a register as four 32-bit lanes and re-reading those lanes as a
/// register restores the original pattern bit for bit.
pub proof fn lemma_i32x4_view_preserves_bits(b: u128)
    ensures
        (i32x4::from_bits(b)).to_bits() == b,
{
    assert((u32_of_i32(i32_of_u32(lane32(b, 0))) as u128)
        | ((u32_of_i32(i32_of_u32(lane32(b, 1))) as u128) << 32)
        | ((u32_of_i32(i32_of_u32(lane32(b, 2))) as u128) << 64)
        | ((u32_of_i32(i32_of_u32(lane32(b, 3))) as u128) << 96) == b) by (bit_vector);
}

/// Reading a vector's pattern back under the same view restores the vector:
/// the reinterpretation loses nothing.
pub proof fn lemma_i32x4_round_trip(v: i32x4)
    ensures
        i32x4::from_bits(v.to_bits()) == v,
{
    let x0: i32 = v.0;
    let x1: i32 = v.1;
    let x2: i32 = v.2;
    let x3: i32 = v.3;
    let bb: u128 = v.to_bits();
    assert(i32_of_u32(lane32(bb, 0)) == x0 && i32_of_u32(lane32(bb, 1)) == x1
        && i32_of_u32(lane32(bb, 2)) == x2 && i32_of_u32(lane32(bb, 3)) == x3) by (bit_vector)
        requires
            bb == (u32_of_i32(x0) as u128) | ((u32_of_i32(x1) as u128) << 32)
                | ((u32_of_i32(x2) as u128) << 64) | ((u32_of_i32(x3) as u128) << 96),
    ;
}

/// Four unsigned 32-bit lanes in one 128-bit register.
#[allow(non_camel_case_types)]
#[derive(Debug, Copy, Clone)]
pub struct u32x4(pub u32, pub u32, pub u32, pub u32);

impl View for u32x4 {
    type V = Seq<u32>;

    open spec fn view(&self) -> Seq<u32> {
        seq![self.0, self.1, self.2, self.3]
    }
}

impl u32x4 {
    /// The 128-bit pattern these lanes occupy, lane 0 lowest-order.
    pub open spec fn to_bits(self) -> u128 {
        (self.0 as u128) | ((self.1 as u128) << 32) | ((self.2 as u128) << 64) | (
        (self.3 as u128) << 96)
    }

    /// The lanes a 128-bit pattern holds under this view.
    pub open spec fn from_bits(b: u128) -> u32x4 {
        u32x4(lane32(b, 0), lane32(b, 1), lane32(b, 2), lane32(b, 3))
    }

    /// Builds a vector from its lanes, lane 0 first.
    pub fn new(e0: u32, e1: u32, e2: u32, e3: u32) -> (r: u32x4)
        ensures
            r@ == seq![e0, e1, e2, e3],
    {
        u32x4(e0, e1, e2, e3)
    }

    /// The lane at `idx`.  The index must be in bounds: this is a caller
    /// obligation, checked statically on every verified caller.
    pub fn extract(self, idx: usize) -> (r: u32)
        requires
            idx < 4,
        ensures
            r == self@[idx as int],
    {
        if idx == 0 {
            self.0
        } else if idx == 1 {
            self.1
        } else if idx == 2 {
            self.2
        } else {
            self.3
        }
    }

    /// Reinterprets these lanes as a raw register: the same 128 bits, with the
    /// lane reading dropped.
    pub fn as_m128i(self) -> (r: m128i)
        ensures
            r@ == self.to_bits(),
    {
        m128i {
            bits: (self.0 as u128) | ((self.1 as u128) << 32) | ((self.2 as u128) << 64) | (
            (self.3 as u128) << 96),
        }
    }
}

/// Viewing a register as four unsigned 32-bit lanes and re-reading those lanes
/// as a register restores the original pattern bit for bit.
pub proof fn lemma_u32x4_view_preserves_bits(b: u128)
    ensures
        (u32x4::from_bits(b)).to_bits() == b,
{
    assert((lane32(b, 0) as u128) | ((lane32(b, 1) as u128) << 32) | ((lane32(b, 2) as u128) << 64)
        | ((lane32(b, 3) as u128) << 96) == b) by (bit_vector);
}

/// Reading a vector's pattern back under the same view restores the vector:
/// the reinterpretation loses nothing.
pub proof fn lemma_u32x4_round_trip(v: u32x4)
    ensures
        u32x4::from_bits(v.to_bits()) == v,
{
    let x0: u32 = v.0;
    let x1: u32 = v.1;
    let x2: u32 = v.2;
    let x3: u32 = v.3;
    let bb: u128 = v.to_bits();
    assert(lane32(bb, 0) == x0 && lane32(bb, 1) == x1 && lane32(bb, 2) == x2 && lane32(bb, 3) == x3)
        by (bit_vector)
        requires
            bb == (x0 as u128) | ((x1 as u128) << 32) | ((x2 as u128) << 64) | ((x3 as u128) << 96),
    ;
}

} // verus!
