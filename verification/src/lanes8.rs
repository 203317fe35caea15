//! Lane vectors with 8-bit lanes: sixteen lanes per 128-bit register.
//!
//! Each type fixes a lane width and signedness; lane 0 is the lowest-order
//! lane of the register pattern.  `to_bits` / `from_bits` are the
//! specification-level bit reinterpretations, and the paired lemmas prove that
//! they are mutually inverse, so every view change is lossless.

use crate::bits::{i8_of_u8, lane8, u8_of_i8};
use crate::register::m128i;
use vstd::prelude::*;

verus! {

/// 16 signed 8-bit lanes in one 128-bit register.
#[allow(non_camel_case_types)]
#[derive(Debug, Copy, Clone)]
pub struct i8x16(pub i8, pub i8, pub i8, pub i8, pub i8, pub i8, pub i8, pub i8, pub i8, pub i8, pub i8, pub i8, pub i8, pub i8, pub i8, pub i8);

impl View for i8x16 {
    type V = Seq<i8>;

    open spec fn view(&self) -> Seq<i8> {
        seq![self.0, self.1, self.2, self.3, self.4, self.5, self.6, self.7, self.8, self.9, self.10, self.11, self.12, self.13, self.14, self.15]
    }
}

impl i8x16 {
    /// The 128-bit pattern these lanes occupy, lane 0 lowest-order.
    pub open spec fn to_bits(self) -> u128 {
        (u8_of_i8(self.0) as u128) | ((u8_of_i8(self.1) as u128) << 8)
            | ((u8_of_i8(self.2) as u128) << 16) | ((u8_of_i8(self.3) as u128) << 24)
            | ((u8_of_i8(self.4) as u128) << 32) | ((u8_of_i8(self.5) as u128) << 40)
            | ((u8_of_i8(self.6) as u128) << 48) | ((u8_of_i8(self.7) as u128) << 56)
            | ((u8_of_i8(self.8) as u128) << 64) | ((u8_of_i8(self.9) as u128) << 72)
            | ((u8_of_i8(self.10) as u128) << 80) | ((u8_of_i8(self.11) as u128) << 88)
            | ((u8_of_i8(self.12) as u128) << 96) | ((u8_of_i8(self.13) as u128) << 104)
            | ((u8_of_i8(self.14) as u128) << 112) | ((u8_of_i8(self.15) as u128) << 120)
    }

    /// The lanes a 128-bit pattern holds under this view.
    pub open spec fn from_bits(b: u128) -> i8x16 {
        i8x16(
            i8_of_u8(lane8(b, 0)),
            i8_of_u8(lane8(b, 1)),
            i8_of_u8(lane8(b, 2)),
            i8_of_u8(lane8(b, 3)),
            i8_of_u8(lane8(b, 4)),
            i8_of_u8(lane8(b, 5)),
            i8_of_u8(lane8(b, 6)),
            i8_of_u8(lane8(b, 7)),
            i8_of_u8(lane8(b, 8)),
            i8_of_u8(lane8(b, 9)),
            i8_of_u8(lane8(b, 10)),
            i8_of_u8(lane8(b, 11)),
            i8_of_u8(lane8(b, 12)),
            i8_of_u8(lane8(b, 13)),
            i8_of_u8(lane8(b, 14)),
            i8_of_u8(lane8(b, 15)),
        )
    }

    /// Builds a vector from its lanes, lane 0 first.
    pub fn new(e0: i8, e1: i8, e2: i8, e3: i8, e4: i8, e5: i8, e6: i8, e7: i8, e8: i8, e9: i8, e10: i8, e11: i8, e12: i8, e13: i8, e14: i8, e15: i8) -> (r: i8x16)
        ensures
            r@ == seq![e0, e1, e2, e3, e4, e5, e6, e7, e8, e9, e10, e11, e12, e13, e14, e15],
    {
        i8x16(e0, e1, e2, e3, e4, e5, e6, e7, e8, e9, e10, e11, e12, e13, e14, e15)
    }

    /// The lane at `idx`.  The index must be in bounds: this is a caller
    /// obligation, checked statically on every verified caller.
    pub fn extract(self, idx: usize) -> (r: i8)
        requires
            idx < 16,
        ensures
            r == self@[idx as int],
    {
        if idx == 0 {
            self.0
        } else if idx == 1 {
            self.1
        } else if idx == 2 {
            self.2
        } else if idx == 3 {
            self.3
        } else if idx == 4 {
            self.4
        } else if idx == 5 {
            self.5
        } else if idx == 6 {
            self.6
        } else if idx == 7 {
            self.7
        } else if idx == 8 {
            self.8
        } else if idx == 9 {
            self.9
        } else if idx == 10 {
            self.10
        } else if idx == 11 {
            self.11
        } else if idx == 12 {
            self.12
        } else if idx == 13 {
            self.13
        } else if idx == 14 {
            self.14
        } else {
            self.15
        }
    }

    /// Reinterprets these lanes as a raw register: the same 128 bits, with the
    /// lane reading dropped.
    pub fn as_m128i(self) -> (r: m128i)
        ensures
            r@ == self.to_bits(),
    {
        let b0: u8 = #[verifier::truncate] (self.0 as u8);
        let b1: u8 = #[verifier::truncate] (self.1 as u8);
        let b2: u8 = #[verifier::truncate] (self.2 as u8);
        let b3: u8 = #[verifier::truncate] (self.3 as u8);
        let b4: u8 = #[verifier::truncate] (self.4 as u8);
        let b5: u8 = #[verifier::truncate] (self.5 as u8);
        let b6: u8 = #[verifier::truncate] (self.6 as u8);
        let b7: u8 = #[verifier::truncate] (self.7 as u8);
        let b8: u8 = #[verifier::truncate] (self.8 as u8);
        let b9: u8 = #[verifier::truncate] (self.9 as u8);
        let b10: u8 = #[verifier::truncate] (self.10 as u8);
        let b11: u8 = #[verifier::truncate] (self.11 as u8);
        let b12: u8 = #[verifier::truncate] (self.12 as u8);
        let b13: u8 = #[verifier::truncate] (self.13 as u8);
        let b14: u8 = #[verifier::truncate] (self.14 as u8);
        let b15: u8 = #[verifier::truncate] (self.15 as u8);
        proof {
            let x0: i8 = self.0;
            let x1: i8 = self.1;
            let x2: i8 = self.2;
            let x3: i8 = self.3;
            let x4: i8 = self.4;
            let x5: i8 = self.5;
            let x6: i8 = self.6;
            let x7: i8 = self.7;
            let x8: i8 = self.8;
            let x9: i8 = self.9;
            let x10: i8 = self.10;
            let x11: i8 = self.11;
            let x12: i8 = self.12;
            let x13: i8 = self.13;
            let x14: i8 = self.14;
            let x15: i8 = self.15;
            assert((x0 as u8) == u8_of_i8(x0) && (x1 as u8) == u8_of_i8(x1) && (x2 as u8) == u8_of_i8(x2) && (x3 as u8) == u8_of_i8(x3) && (x4 as u8) == u8_of_i8(x4) && (x5 as u8) == u8_of_i8(x5) && (x6 as u8) == u8_of_i8(x6) && (x7 as u8) == u8_of_i8(x7) && (x8 as u8) == u8_of_i8(x8) && (x9 as u8) == u8_of_i8(x9) && (x10 as u8) == u8_of_i8(x10) && (x11 as u8) == u8_of_i8(x11) && (x12 as u8) == u8_of_i8(x12) && (x13 as u8) == u8_of_i8(x13) && (x14 as u8) == u8_of_i8(x14) && (x15 as u8) == u8_of_i8(x15))
                by (bit_vector);
        }
        m128i {
            bits: (b0 as u128) | ((b1 as u128) << 8) | ((b2 as u128) << 16) | ((b3 as u128) << 24) | ((b4 as u128) << 32) | ((b5 as u128) << 40) | ((b6 as u128) << 48) | ((b7 as u128) << 56) | ((b8 as u128) << 64) | ((b9 as u128) << 72) | ((b10 as u128) << 80) | ((b11 as u128) << 88) | ((b12 as u128) << 96) | ((b13 as u128) << 104) | ((b14 as u128) << 112) | ((b15 as u128) << 120),
        }
    }
}

/// Viewing a register as 16 signed 8-bit lanes and re-reading those lanes
/// as a register restores the original pattern bit for bit.
pub proof fn lemma_i8x16_view_preserves_bits(b: u128)
    ensures
        (i8x16::from_bits(b)).to_bits() == b,
{
    assert((u8_of_i8(i8_of_u8(lane8(b, 0))) as u128)
            | ((u8_of_i8(i8_of_u8(lane8(b, 1))) as u128) << 8)
            | ((u8_of_i8(i8_of_u8(lane8(b, 2))) as u128) << 16)
            | ((u8_of_i8(i8_of_u8(lane8(b, 3))) as u128) << 24)
            | ((u8_of_i8(i8_of_u8(lane8(b, 4))) as u128) << 32)
            | ((u8_of_i8(i8_of_u8(lane8(b, 5))) as u128) << 40)
            | ((u8_of_i8(i8_of_u8(lane8(b, 6))) as u128) << 48)
            | ((u8_of_i8(i8_of_u8(lane8(b, 7))) as u128) << 56)
            | ((u8_of_i8(i8_of_u8(lane8(b, 8))) as u128) << 64)
            | ((u8_of_i8(i8_of_u8(lane8(b, 9))) as u128) << 72)
            | ((u8_of_i8(i8_of_u8(lane8(b, 10))) as u128) << 80)
            | ((u8_of_i8(i8_of_u8(lane8(b, 11))) as u128) << 88)
            | ((u8_of_i8(i8_of_u8(lane8(b, 12))) as u128) << 96)
            | ((u8_of_i8(i8_of_u8(lane8(b, 13))) as u128) << 104)
            | ((u8_of_i8(i8_of_u8(lane8(b, 14))) as u128) << 112)
            | ((u8_of_i8(i8_of_u8(lane8(b, 15))) as u128) << 120) == b)
        by (bit_vector);
}

/// Reading a vector's pattern back under the same view restores the vector:
/// the reinterpretation loses nothing.
pub proof fn lemma_i8x16_round_trip(v: i8x16)
    ensures
        i8x16::from_bits(v.to_bits()) == v,
{
    let x0: i8 = v.0;
    let x1: i8 = v.1;
    let x2: i8 = v.2;
    let x3: i8 = v.3;
    let x4: i8 = v.4;
    let x5: i8 = v.5;
    let x6: i8 = v.6;
    let x7: i8 = v.7;
    let x8: i8 = v.8;
    let x9: i8 = v.9;
    let x10: i8 = v.10;
    let x11: i8 = v.11;
    let x12: i8 = v.12;
    let x13: i8 = v.13;
    let x14: i8 = v.14;
    let x15: i8 = v.15;
    let bb: u128 = v.to_bits();
    assert(i8_of_u8(lane8(bb, 0)) == x0 && i8_of_u8(lane8(bb, 1)) == x1 && i8_of_u8(lane8(bb, 2)) == x2 && i8_of_u8(lane8(bb, 3)) == x3 && i8_of_u8(lane8(bb, 4)) == x4 && i8_of_u8(lane8(bb, 5)) == x5 && i8_of_u8(lane8(bb, 6)) == x6 && i8_of_u8(lane8(bb, 7)) == x7 && i8_of_u8(lane8(bb, 8)) == x8 && i8_of_u8(lane8(bb, 9)) == x9 && i8_of_u8(lane8(bb, 10)) == x10 && i8_of_u8(lane8(bb, 11)) == x11 && i8_of_u8(lane8(bb, 12)) == x12 && i8_of_u8(lane8(bb, 13)) == x13 && i8_of_u8(lane8(bb, 14)) == x14 && i8_of_u8(lane8(bb, 15)) == x15)
        by (bit_vector)
        requires
            bb == (u8_of_i8(x0) as u128) | ((u8_of_i8(x1) as u128) << 8)
                    | ((u8_of_i8(x2) as u128) << 16) | ((u8_of_i8(x3) as u128) << 24)
                    | ((u8_of_i8(x4) as u128) << 32) | ((u8_of_i8(x5) as u128) << 40)
                    | ((u8_of_i8(x6) as u128) << 48) | ((u8_of_i8(x7) as u128) << 56)
                    | ((u8_of_i8(x8) as u128) << 64) | ((u8_of_i8(x9) as u128) << 72)
                    | ((u8_of_i8(x10) as u128) << 80) | ((u8_of_i8(x11) as u128) << 88)
                    | ((u8_of_i8(x12) as u128) << 96) | ((u8_of_i8(x13) as u128) << 104)
                    | ((u8_of_i8(x14) as u128) << 112) | ((u8_of_i8(x15) as u128) << 120),
    ;
}

/// 16 unsigned 8-bit lanes in one 128-bit register.
#[allow(non_camel_case_types)]
#[derive(Debug, Copy, Clone)]
pub struct u8x16(pub u8, pub u8, pub u8, pub u8, pub u8, pub u8, pub u8, pub u8, pub u8, pub u8, pub u8, pub u8, pub u8, pub u8, pub u8, pub u8);

impl View for u8x16 {
    type V = Seq<u8>;

    open spec fn view(&self) -> Seq<u8> {
        seq![self.0, self.1, self.2, self.3, self.4, self.5, self.6, self.7, self.8, self.9, self.10, self.11, self.12, self.13, self.14, self.15]
    }
}

impl u8x16 {
    /// The 128-bit pattern these lanes occupy, lane 0 lowest-order.
    pub open spec fn to_bits(self) -> u128 {
        (self.0 as u128) | ((self.1 as u128) << 8) | ((self.2 as u128) << 16)
            | ((self.3 as u128) << 24) | ((self.4 as u128) << 32) | ((self.5 as u128) << 40)
            | ((self.6 as u128) << 48) | ((self.7 as u128) << 56) | ((self.8 as u128) << 64)
            | ((self.9 as u128) << 72) | ((self.10 as u128) << 80) | ((self.11 as u128) << 88)
            | ((self.12 as u128) << 96) | ((self.13 as u128) << 104)
            | ((self.14 as u128) << 112) | ((self.15 as u128) << 120)
    }

    /// The lanes a 128-bit pattern holds under this view.
    pub open spec fn from_bits(b: u128) -> u8x16 {
        u8x16(
            lane8(b, 0),
            lane8(b, 1),
            lane8(b, 2),
            lane8(b, 3),
            lane8(b, 4),
            lane8(b, 5),
            lane8(b, 6),
            lane8(b, 7),
            lane8(b, 8),
            lane8(b, 9),
            lane8(b, 10),
            lane8(b, 11),
            lane8(b, 12),
            lane8(b, 13),
            lane8(b, 14),
            lane8(b, 15),
        )
    }

    /// Builds a vector from its lanes, lane 0 first.
    pub fn new(e0: u8, e1: u8, e2: u8, e3: u8, e4: u8, e5: u8, e6: u8, e7: u8, e8: u8, e9: u8, e10: u8, e11: u8, e12: u8, e13: u8, e14: u8, e15: u8) -> (r: u8x16)
        ensures
            r@ == seq![e0, e1, e2, e3, e4, e5, e6, e7, e8, e9, e10, e11, e12, e13, e14, e15],
    {
        u8x16(e0, e1, e2, e3, e4, e5, e6, e7, e8, e9, e10, e11, e12, e13, e14, e15)
    }

    /// The lane at `idx`.  The index must be in bounds: this is a caller
    /// obligation, checked statically on every verified caller.
    pub fn extract(self, idx: usize) -> (r: u8)
        requires
            idx < 16,
        ensures
            r == self@[idx as int],
    {
        if idx == 0 {
            self.0
        } else if idx == 1 {
            self.1
        } else if idx == 2 {
            self.2
        } else if idx == 3 {
            self.3
        } else if idx == 4 {
            self.4
        } else if idx == 5 {
            self.5
        } else if idx == 6 {
            self.6
        } else if idx == 7 {
            self.7
        } else if idx == 8 {
            self.8
        } else if idx == 9 {
            self.9
        } else if idx == 10 {
            self.10
        } else if idx == 11 {
            self.11
        } else if idx == 12 {
            self.12
        } else if idx == 13 {
            self.13
        } else if idx == 14 {
            self.14
        } else {
            self.15
        }
    }

    /// Reinterprets these lanes as a raw register: the same 128 bits, with the
    /// lane reading dropped.
    pub fn as_m128i(self) -> (r: m128i)
        ensures
            r@ == self.to_bits(),
    {
        m128i {
            bits: (self.0 as u128) | ((self.1 as u128) << 8) | ((self.2 as u128) << 16) | ((self.3 as u128) << 24) | ((self.4 as u128) << 32) | ((self.5 as u128) << 40) | ((self.6 as u128) << 48) | ((self.7 as u128) << 56) | ((self.8 as u128) << 64) | ((self.9 as u128) << 72) | ((self.10 as u128) << 80) | ((self.11 as u128) << 88) | ((self.12 as u128) << 96) | ((self.13 as u128) << 104) | ((self.14 as u128) << 112) | ((self.15 as u128) << 120),
        }
    }
}

/// Viewing a register as 16 unsigned 8-bit lanes and re-reading those
/// lanes as a register restores the original pattern bit for bit.
pub proof fn lemma_u8x16_view_preserves_bits(b: u128)
    ensures
        (u8x16::from_bits(b)).to_bits() == b,
{
    assert((lane8(b, 0) as u128) | ((lane8(b, 1) as u128) << 8) | ((lane8(b, 2) as u128) << 16)
            | ((lane8(b, 3) as u128) << 24) | ((lane8(b, 4) as u128) << 32)
            | ((lane8(b, 5) as u128) << 40) | ((lane8(b, 6) as u128) << 48)
            | ((lane8(b, 7) as u128) << 56) | ((lane8(b, 8) as u128) << 64)
            | ((lane8(b, 9) as u128) << 72) | ((lane8(b, 10) as u128) << 80)
            | ((lane8(b, 11) as u128) << 88) | ((lane8(b, 12) as u128) << 96)
            | ((lane8(b, 13) as u128) << 104) | ((lane8(b, 14) as u128) << 112)
            | ((lane8(b, 15) as u128) << 120) == b)
        by (bit_vector);
}

/// Reading a vector's pattern back under the same view restores the vector:
/// the reinterpretation loses nothing.
pub proof fn lemma_u8x16_round_trip(v: u8x16)
    ensures
        u8x16::from_bits(v.to_bits()) == v,
{
    let x0: u8 = v.0;
    let x1: u8 = v.1;
    let x2: u8 = v.2;
    let x3: u8 = v.3;
    let x4: u8 = v.4;
    let x5: u8 = v.5;
    let x6: u8 = v.6;
    let x7: u8 = v.7;
    let x8: u8 = v.8;
    let x9: u8 = v.9;
    let x10: u8 = v.10;
    let x11: u8 = v.11;
    let x12: u8 = v.12;
    let x13: u8 = v.13;
    let x14: u8 = v.14;
    let x15: u8 = v.15;
    let bb: u128 = v.to_bits();
    assert(lane8(bb, 0) == x0 && lane8(bb, 1) == x1 && lane8(bb, 2) == x2 && lane8(bb, 3) == x3 && lane8(bb, 4) == x4 && lane8(bb, 5) == x5 && lane8(bb, 6) == x6 && lane8(bb, 7) == x7 && lane8(bb, 8) == x8 && lane8(bb, 9) == x9 && lane8(bb, 10) == x10 && lane8(bb, 11) == x11 && lane8(bb, 12) == x12 && lane8(bb, 13) == x13 && lane8(bb, 14) == x14 && lane8(bb, 15) == x15)
        by (bit_vector)
        requires
            bb == (x0 as u128) | ((x1 as u128) << 8) | ((x2 as u128) << 16) | ((x3 as u128) << 24)
                    | ((x4 as u128) << 32) | ((x5 as u128) << 40) | ((x6 as u128) << 48)
                    | ((x7 as u128) << 56) | ((x8 as u128) << 64) | ((x9 as u128) << 72)
                    | ((x10 as u128) << 80) | ((x11 as u128) << 88) | ((x12 as u128) << 96)
                    | ((x13 as u128) << 104) | ((x14 as u128) << 112) | ((x15 as u128) << 120),
    ;
}

} // verus!
