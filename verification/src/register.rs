//! The raw 128-bit register type and the operations that ignore lanes.
//!
//! `m128i` carries the raw pattern; the `as_*` methods hand out each lane
//! view, the `set_*` / `setr_*` constructors build a register from explicit
//! lanes in the two argument orderings, and the bitwise operations combine two
//! registers per bit position, which under any lane interpretation is the same
//! as combining them per lane.

use crate::bits::{i16_of_u16, i32_of_u32, i64_of_u64, i8_of_u8};
use crate::bits::{lane16, lane32, lane64, lane8};
use crate::lanes16::{i16x8, u16x8};
use crate::lanes32::{i32x4, u32x4};
use crate::lanes64::{i64x2, u64x2};
use crate::lanes8::{i8x16, u8x16};
use vstd::prelude::*;

verus! {

/// A 128-bit vector register: a raw bit pattern with no lane interpretation.
#[allow(non_camel_case_types)]
#[derive(Debug, Copy, Clone)]
pub struct m128i {
    /// The raw bit pattern, lowest-order lane in the lowest-order bits.
    pub bits: u128,
}

impl View for m128i {
    type V = u128;

    open spec fn view(&self) -> u128 {
        self.bits
    }
}

impl m128i {
    /// Views this register as two signed 64-bit lanes.  A pure bit
    /// reinterpretation: the pattern is unchanged, only the reading differs.
    pub fn as_i64x2(self) -> (r: i64x2)
        ensures
            r == i64x2::from_bits(self@),
    {
        let b: u128 = self.bits;
        let r = i64x2(
            #[verifier::truncate] (b as i64),
            #[verifier::truncate] ((b >> 64) as i64),
        );
        proof {
            assert((b as i64) == i64_of_u64(lane64(b, 0))
                && ((b >> 64) as i64) == i64_of_u64(lane64(b, 1))) by (bit_vector);
        }
        r
    }

    /// Views this register as two unsigned 64-bit lanes.  A pure bit
    /// reinterpretation: the pattern is unchanged, only the reading differs.
    pub fn as_u64x2(self) -> (r: u64x2)
        ensures
            r == u64x2::from_bits(self@),
    {
        let b: u128 = self.bits;
        let r = u64x2(
            #[verifier::truncate] (b as u64),
            #[verifier::truncate] ((b >> 64) as u64),
        );
        proof {
            assert((b as u64) == lane64(b, 0)
                && ((b >> 64) as u64) == lane64(b, 1)) by (bit_vector);
        }
        r
    }

    /// Views this register as four signed 32-bit lanes.  A pure bit
    /// reinterpretation: the pattern is unchanged, only the reading differs.
    pub fn as_i32x4(self) -> (r: i32x4)
        ensures
            r == i32x4::from_bits(self@),
    {
        let b: u128 = self.bits;
        let r = i32x4(
            #[verifier::truncate] (b as i32),
            #[verifier::truncate] ((b >> 32) as i32),
            #[verifier::truncate] ((b >> 64) as i32),
            #[verifier::truncate] ((b >> 96) as i32),
        );
        proof {
            assert((b as i32) == i32_of_u32(lane32(b, 0))
                && ((b >> 32) as i32) == i32_of_u32(lane32(b, 1))
                && ((b >> 64) as i32) == i32_of_u32(lane32(b, 2))
                && ((b >> 96) as i32) == i32_of_u32(lane32(b, 3))) by (bit_vector);
        }
        r
    }

    /// Views this register as four unsigned 32-bit lanes.  A pure bit
    /// reinterpretation: the pattern is unchanged, only the reading differs.
    pub fn as_u32x4(self) -> (r: u32x4)
        ensures
            r == u32x4::from_bits(self@),
    {
        let b: u128 = self.bits;
        let r = u32x4(
            #[verifier::truncate] (b as u32),
            #[verifier::truncate] ((b >> 32) as u32),
            #[verifier::truncate] ((b >> 64) as u32),
            #[verifier::truncate] ((b >> 96) as u32),
        );
        proof {
            assert((b as u32) == lane32(b, 0)
                && ((b >> 32) as u32) == lane32(b, 1)
                && ((b >> 64) as u32) == lane32(b, 2)
                && ((b >> 96) as u32) == lane32(b, 3)) by (bit_vector);
        }
        r
    }

    /// Views this register as eight signed 16-bit lanes.  A pure bit
    /// reinterpretation: the pattern is unchanged, only the reading differs.
    pub fn as_i16x8(self) -> (r: i16x8)
        ensures
            r == i16x8::from_bits(self@),
    {
        let b: u128 = self.bits;
        let r = i16x8(
            #[verifier::truncate] (b as i16),
            #[verifier::truncate] ((b >> 16) as i16),
            #[verifier::truncate] ((b >> 32) as i16),
            #[verifier::truncate] ((b >> 48) as i16),
            #[verifier::truncate] ((b >> 64) as i16),
            #[verifier::truncate] ((b >> 80) as i16),
            #[verifier::truncate] ((b >> 96) as i16),
            #[verifier::truncate] ((b >> 112) as i16),
        );
        proof {
            assert((b as i16) == i16_of_u16(lane16(b, 0))
                && ((b >> 16) as i16) == i16_of_u16(lane16(b, 1))
                && ((b >> 32) as i16) == i16_of_u16(lane16(b, 2))
                && ((b >> 48) as i16) == i16_of_u16(lane16(b, 3))
                && ((b >> 64) as i16) == i16_of_u16(lane16(b, 4))
                && ((b >> 80) as i16) == i16_of_u16(lane16(b, 5))
                && ((b >> 96) as i16) == i16_of_u16(lane16(b, 6))
                && ((b >> 112) as i16) == i16_of_u16(lane16(b, 7))) by (bit_vector);
        }
        r
    }

    /// Views this register as eight unsigned 16-bit lanes.  A pure bit
    /// reinterpretation: the pattern is unchanged, only the reading differs.
    pub fn as_u16x8(self) -> (r: u16x8)
        ensures
            r == u16x8::from_bits(self@),
    {
        let b: u128 = self.bits;
        let r = u16x8(
            #[verifier::truncate] (b as u16),
            #[verifier::truncate] ((b >> 16) as u16),
            #[verifier::truncate] ((b >> 32) as u16),
            #[verifier::truncate] ((b >> 48) as u16),
            #[verifier::truncate] ((b >> 64) as u16),
            #[verifier::truncate] ((b >> 80) as u16),
            #[verifier::truncate] ((b >> 96) as u16),
            #[verifier::truncate] ((b >> 112) as u16),
        );
        proof {
            assert((b as u16) == lane16(b, 0)
                && ((b >> 16) as u16) == lane16(b, 1)
                && ((b >> 32) as u16) == lane16(b, 2)
                && ((b >> 48) as u16) == lane16(b, 3)
                && ((b >> 64) as u16) == lane16(b, 4)
                && ((b >> 80) as u16) == lane16(b, 5)
                && ((b >> 96) as u16) == lane16(b, 6)
                && ((b >> 112) as u16) == lane16(b, 7)) by (bit_vector);
        }
        r
    }

    /// Views this register as sixteen signed 8-bit lanes.  A pure bit
    /// reinterpretation: the pattern is unchanged, only the reading differs.
    pub fn as_i8x16(self) -> (r: i8x16)
        ensures
            r == i8x16::from_bits(self@),
    {
        let b: u128 = self.bits;
        let r = i8x16(
            #[verifier::truncate] (b as i8),
            #[verifier::truncate] ((b >> 8) as i8),
            #[verifier::truncate] ((b >> 16) as i8),
            #[verifier::truncate] ((b >> 24) as i8),
            #[verifier::truncate] ((b >> 32) as i8),
            #[verifier::truncate] ((b >> 40) as i8),
            #[verifier::truncate] ((b >> 48) as i8),
            #[verifier::truncate] ((b >> 56) as i8),
            #[verifier::truncate] ((b >> 64) as i8),
            #[verifier::truncate] ((b >> 72) as i8),
            #[verifier::truncate] ((b >> 80) as i8),
            #[verifier::truncate] ((b >> 88) as i8),
            #[verifier::truncate] ((b >> 96) as i8),
            #[verifier::truncate] ((b >> 104) as i8),
            #[verifier::truncate] ((b >> 112) as i8),
            #[verifier::truncate] ((b >> 120) as i8),
        );
        proof {
            assert((b as i8) == i8_of_u8(lane8(b, 0))
                && ((b >> 8) as i8) == i8_of_u8(lane8(b, 1))
                && ((b >> 16) as i8) == i8_of_u8(lane8(b, 2))
                && ((b >> 24) as i8) == i8_of_u8(lane8(b, 3))
                && ((b >> 32) as i8) == i8_of_u8(lane8(b, 4))
                && ((b >> 40) as i8) == i8_of_u8(lane8(b, 5))
                && ((b >> 48) as i8) == i8_of_u8(lane8(b, 6))
                && ((b >> 56) as i8) == i8_of_u8(lane8(b, 7))
                && ((b >> 64) as i8) == i8_of_u8(lane8(b, 8))
                && ((b >> 72) as i8) == i8_of_u8(lane8(b, 9))
                && ((b >> 80) as i8) == i8_of_u8(lane8(b, 10))
                && ((b >> 88) as i8) == i8_of_u8(lane8(b, 11))
                && ((b >> 96) as i8) == i8_of_u8(lane8(b, 12))
                && ((b >> 104) as i8) == i8_of_u8(lane8(b, 13))
                && ((b >> 112) as i8) == i8_of_u8(lane8(b, 14))
                && ((b >> 120) as i8) == i8_of_u8(lane8(b, 15))) by (bit_vector);
        }
        r
    }

    /// Views this register as sixteen unsigned 8-bit lanes.  A pure bit
    /// reinterpretation: the pattern is unchanged, only the reading differs.
    pub fn as_u8x16(self) -> (r: u8x16)
        ensures
            r == u8x16::from_bits(self@),
    {
        let b: u128 = self.bits;
        let r = u8x16(
            #[verifier::truncate] (b as u8),
            #[verifier::truncate] ((b >> 8) as u8),
            #[verifier::truncate] ((b >> 16) as u8),
            #[verifier::truncate] ((b >> 24) as u8),
            #[verifier::truncate] ((b >> 32) as u8),
            #[verifier::truncate] ((b >> 40) as u8),
            #[verifier::truncate] ((b >> 48) as u8),
            #[verifier::truncate] ((b >> 56) as u8),
            #[verifier::truncate] ((b >> 64) as u8),
            #[verifier::truncate] ((b >> 72) as u8),
            #[verifier::truncate] ((b >> 80) as u8),
            #[verifier::truncate] ((b >> 88) as u8),
            #[verifier::truncate] ((b >> 96) as u8),
            #[verifier::truncate] ((b >> 104) as u8),
            #[verifier::truncate] ((b >> 112) as u8),
            #[verifier::truncate] ((b >> 120) as u8),
        );
        proof {
            assert((b as u8) == lane8(b, 0)
                && ((b >> 8) as u8) == lane8(b, 1)
                && ((b >> 16) as u8) == lane8(b, 2)
                && ((b >> 24) as u8) == lane8(b, 3)
                && ((b >> 32) as u8) == lane8(b, 4)
                && ((b >> 40) as u8) == lane8(b, 5)
                && ((b >> 48) as u8) == lane8(b, 6)
                && ((b >> 56) as u8) == lane8(b, 7)
                && ((b >> 64) as u8) == lane8(b, 8)
                && ((b >> 72) as u8) == lane8(b, 9)
                && ((b >> 80) as u8) == lane8(b, 10)
                && ((b >> 88) as u8) == lane8(b, 11)
                && ((b >> 96) as u8) == lane8(b, 12)
                && ((b >> 104) as u8) == lane8(b, 13)
                && ((b >> 112) as u8) == lane8(b, 14)
                && ((b >> 120) as u8) == lane8(b, 15)) by (bit_vector);
        }
        r
    }

    /// Bitwise AND of two registers, computed per bit position, so it agrees
    /// with a per-lane AND under every lane interpretation.
    pub fn and(self, other: m128i) -> (r: m128i)
        ensures
            r@ == self@ & other@,
    {
        m128i { bits: self.bits & other.bits }
    }

    /// Bitwise OR of two registers, computed per bit position.
    pub fn or(self, other: m128i) -> (r: m128i)
        ensures
            r@ == self@ | other@,
    {
        m128i { bits: self.bits | other.bits }
    }

    /// Bitwise XOR of two registers, computed per bit position.
    pub fn xor(self, other: m128i) -> (r: m128i)
        ensures
            r@ == self@ ^ other@,
    {
        m128i { bits: self.bits ^ other.bits }
    }
}

/// Builds a register from 64-bit lanes given most-significant lane first:
/// the first argument lands in lane 1 and the last in lane 0.
pub fn set_epi64(e1: i64, e0: i64) -> (r: m128i)
    ensures
        r@ == (i64x2(e0, e1)).to_bits(),
{
    i64x2(e0, e1).as_m128i()
}

/// Builds a register from 64-bit lanes in natural order: the first argument
/// lands in lane 0 and the last in lane 1.
pub fn setr_epi64(e0: i64, e1: i64) -> (r: m128i)
    ensures
        r@ == (i64x2(e0, e1)).to_bits(),
{
    i64x2(e0, e1).as_m128i()
}

/// Builds a register from 32-bit lanes given most-significant lane first:
/// the first argument lands in lane 3 and the last in lane 0.
pub fn set_epi32(e3: i32, e2: i32, e1: i32, e0: i32) -> (r: m128i)
    ensures
        r@ == (i32x4(e0, e1, e2, e3)).to_bits(),
{
    i32x4(e0, e1, e2, e3).as_m128i()
}

/// Builds a register from 32-bit lanes in natural order: the first argument
/// lands in lane 0 and the last in lane 3.
pub fn setr_epi32(e0: i32, e1: i32, e2: i32, e3: i32) -> (r: m128i)
    ensures
        r@ == (i32x4(e0, e1, e2, e3)).to_bits(),
{
    i32x4(e0, e1, e2, e3).as_m128i()
}

/// Builds a register from 16-bit lanes given most-significant lane first:
/// the first argument lands in lane 7 and the last in lane 0.
pub fn set_epi16(e7: i16, e6: i16, e5: i16, e4: i16, e3: i16, e2: i16, e1: i16, e0: i16) -> (r: m128i)
    ensures
        r@ == (i16x8(e0, e1, e2, e3, e4, e5, e6, e7)).to_bits(),
{
    i16x8(e0, e1, e2, e3, e4, e5, e6, e7).as_m128i()
}

/// Builds a register from 16-bit lanes in natural order: the first argument
/// lands in lane 0 and the last in lane 7.
pub fn setr_epi16(e0: i16, e1: i16, e2: i16, e3: i16, e4: i16, e5: i16, e6: i16, e7: i16) -> (r: m128i)
    ensures
        r@ == (i16x8(e0, e1, e2, e3, e4, e5, e6, e7)).to_bits(),
{
    i16x8(e0, e1, e2, e3, e4, e5, e6, e7).as_m128i()
}

/// Builds a register from 8-bit lanes given most-significant lane first:
/// the first argument lands in lane 15 and the last in lane 0.
pub fn set_epi8(e15: i8, e14: i8, e13: i8, e12: i8, e11: i8, e10: i8, e9: i8, e8: i8, e7: i8, e6: i8, e5: i8, e4: i8, e3: i8, e2: i8, e1: i8, e0: i8) -> (r: m128i)
    ensures
        r@ == (i8x16(e0, e1, e2, e3, e4, e5, e6, e7, e8, e9, e10, e11, e12, e13, e14, e15)).to_bits(),
{
    i8x16(e0, e1, e2, e3, e4, e5, e6, e7, e8, e9, e10, e11, e12, e13, e14, e15).as_m128i()
}

/// Builds a register from 8-bit lanes in natural order: the first argument
/// lands in lane 0 and the last in lane 15.
pub fn setr_epi8(e0: i8, e1: i8, e2: i8, e3: i8, e4: i8, e5: i8, e6: i8, e7: i8, e8: i8, e9: i8, e10: i8, e11: i8, e12: i8, e13: i8, e14: i8, e15: i8) -> (r: m128i)
    ensures
        r@ == (i8x16(e0, e1, e2, e3, e4, e5, e6, e7, e8, e9, e10, e11, e12, e13, e14, e15)).to_bits(),
{
    i8x16(e0, e1, e2, e3, e4, e5, e6, e7, e8, e9, e10, e11, e12, e13, e14, e15).as_m128i()
}

} // verus!
