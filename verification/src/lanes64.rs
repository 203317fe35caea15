//! Lane vectors with 64-bit lanes: two lanes per 128-bit register.
//!
//! Each type fixes a lane width and signedness; lane 0 is the lowest-order
//! lane of the register pattern.  `to_bits` / `from_bits` are the
//! specification-level bit reinterpretations, and the paired lemmas prove that
//! they are mutually inverse, so every view change is lossless.

use crate::bits::{i64_of_u64, lane64, u64_of_i64};
use crate::register::m128i;
use vstd::prelude::*;

verus! {

/// Two signed 64-bit lanes in one 128-bit register.
#[allow(non_camel_case_types)]
#[derive(Debug, Copy, Clone)]
pub struct i64x2(pub i64, pub i64);

impl View for i64x2 {
    type V = Seq<i64>;

    open spec fn view(&self) -> Seq<i64> {
        seq![self.0, self.1]
    }
}

impl i64x2 {
    /// The 128-bit pattern these lanes occupy, lane 0 lowest-order.
    pub open spec fn to_bits(self) -> u128 {
        (u64_of_i64(self.0) as u128) | ((u64_of_i64(self.1) as u128) << 64)
    }

    /// The lanes a 128-bit pattern holds under this view.
    pub open spec fn from_bits(b: u128) -> i64x2 {
        i64x2(i64_of_u64(lane64(b, 0)), i64_of_u64(lane64(b, 1)))
    }

    /// Builds a vector from its lanes, lane 0 first.
    pub fn new(e0: i64, e1: i64) -> (r: i64x2)
        ensures
            r@ == seq![e0, e1],
    {
        i64x2(e0, e1)
    }

    /// The lane at `idx`.  The index must be in bounds: this is a caller
    /// obligation, checked statically on every verified caller.
    pub fn extract(self, idx: usize) -> (r: i64)
        requires
            idx < 2,
        ensures
            r == self@[idx as int],
    {
        if idx == 0 {
            self.0
        } else {
            self.1
        }
    }

    /// Reinterprets these lanes as a raw register: the same 128 bits, with the
    /// lane reading dropped.
    pub fn as_m128i(self) -> (r: m128i)
        ensures
            r@ == self.to_bits(),
    {
        let b0: u64 = #[verifier::truncate] (self.0 as u64);
        let b1: u64 = #[verifier::truncate] (self.1 as u64);
        proof {
            let x0: i64 = self.0;
            let x1: i64 = self.1;
            assert((x0 as u64) == u64_of_i64(x0) && (x1 as u64) == u64_of_i64(x1)) by (bit_vector);
        }
        m128i { bits: (b0 as u128) | ((b1 as u128) << 64) }
    }
}

/// Viewing a register as two signed 64-bit lanes and re-reading those lanes as
/// a register restores the original pattern bit for bit.
pub proof fn lemma_i64x2_view_preserves_bits(b: u128)
    ensures
        (i64x2::from_bits(b)).to_bits() == b,
{
    assert((u64_of_i64(i64_of_u64(lane64(b, 0))) as u128)
        | ((u64_of_i64(i64_of_u64(lane64(b, 1))) as u128) << 64) == b) by (bit_vector);
}

/// Reading a vector's pattern back under the same view restores the vector:
/// the reinterpretation loses nothing.
pub proof fn lemma_i64x2_round_trip(v: i64x2)
    ensures
        i64x2::from_bits(v.to_bits()) == v,
{
    let x0: i64 = v.0;
    let x1: i64 = v.1;
    let bb: u128 = v.to_bits();
    assert(i64_of_u64(lane64(bb, 0)) == x0 && i64_of_u64(lane64(bb, 1)) == x1) by (bit_vector)
        requires
            bb == (u64_of_i64(x0) as u128) | ((u64_of_i64(x1) as u128) << 64),
    ;
}

/// Two unsigned 64-bit lanes in one 128-bit register.
#[allow(non_camel_case_types)]
#[derive(Debug, Copy, Clone)]
pub struct u64x2(pub u64, pub u64);

impl View for u64x2 {
    type V = Seq<u64>;

    open spec fn view(&self) -> Seq<u64> {
        seq![self.0, self.1]
    }
}

impl u64x2 {
    /// The 128-bit pattern these lanes occupy, lane 0 lowest-order.
    pub open spec fn to_bits(self) -> u128 {
        (self.0 as u128) | ((self.1 as u128) << 64)
    }

    /// The lanes a 128-bit pattern holds under this view.
    pub open spec fn from_bits(b: u128) -> u64x2 {
        u64x2(lane64(b, 0), lane64(b, 1))
    }

    /// Builds a vector from its lanes, lane 0 first.
    pub fn new(e0: u64, e1: u64) -> (r: u64x2)
        ensures
            r@ == seq![e0, e1],
    {
        u64x2(e0, e1)
    }

    /// The lane at `idx`.  The index must be in bounds: this is a caller
    /// obligation, checked statically on every verified caller.
    pub fn extract(self, idx: usize) -> (r: u64)
        requires
            idx < 2,
        ensures
            r == self@[idx as int],
    {
        if idx == 0 {
            self.0
        } else {
            self.1
        }
    }

    /// Reinterprets these lanes as a raw register: the same 128 bits, with the
    /// lane reading dropped.
    pub fn as_m128i(self) -> (r: m128i)
        ensures
            r@ == self.to_bits(),
    {
        m128i { bits: (self.0 as u128) | ((self.1 as u128) << 64) }
    }
}

/// Viewing a register as two unsigned 64-bit lanes and re-reading those lanes
/// as a register restores the original pattern bit for bit.
pub proof fn lemma_u64x2_view_preserves_bits(b: u128)
    ensures
        (u64x2::from_bits(b)).to_bits() == b,
{
    assert((lane64(b, 0) as u128) | ((lane64(b, 1) as u128) << 64) == b) by (bit_vector);
}

/// Reading a vector's pattern back under the same view restores the vector:
/// the reinterpretation loses nothing.
pub proof fn lemma_u64x2_round_trip(v: u64x2)
    ensures
        u64x2::from_bits(v.to_bits()) == v,
{
    let x0: u64 = v.0;
    let x1: u64 = v.1;
    let bb: u128 = v.to_bits();
    assert(lane64(bb, 0) == x0 && lane64(bb, 1) == x1) by (bit_vector)
        requires
            bb == (x0 as u128) | ((x1 as u128) << 64),
    ;
}

} // verus!
