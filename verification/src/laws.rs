//! Laws that tie the construction, view, and bitwise operations together.
//!
//! The per-type reinterpretation laws (`lemma_*_round_trip` and
//! `lemma_*_view_preserves_bits`) live beside their types; this module holds
//! the laws that span components: the lane order that the two constructor
//! argument conventions produce, and the agreement of whole-register bitwise
//! operations with per-lane bitwise operations.

use crate::bits::{lane16, lane32, lane64, lane8};
use crate::lanes32::{i32x4, lemma_i32x4_round_trip};
use vstd::prelude::*;

verus! {

/// The `set` ordering puts its first argument in the highest-indexed lane:
/// after `set_epi32(e3, e2, e1, e0)`, viewing the register as four 32-bit
/// lanes extracts `e0` at index 0 through `e3` at index 3.
pub proof fn lemma_set_epi32_lane_order(e3: i32, e2: i32, e1: i32, e0: i32)
    ensures
        ({
            let v = i32x4::from_bits((i32x4(e0, e1, e2, e3)).to_bits());
            v@[0] == e0 && v@[1] == e1 && v@[2] == e2 && v@[3] == e3
        }),
{
    lemma_i32x4_round_trip(i32x4(e0, e1, e2, e3));
}

/// The `setr` ordering puts its arguments in natural lane order: after
/// `setr_epi32(e0, e1, e2, e3)`, viewing the register as four 32-bit lanes
/// extracts `e0` at index 0 through `e3` at index 3.
pub proof fn lemma_setr_epi32_lane_order(e0: i32, e1: i32, e2: i32, e3: i32)
    ensures
        ({
            let v = i32x4::from_bits((i32x4(e0, e1, e2, e3)).to_bits());
            v@[0] == e0 && v@[1] == e1 && v@[2] == e2 && v@[3] == e3
        }),
{
    lemma_i32x4_round_trip(i32x4(e0, e1, e2, e3));
}

/// Whole-register AND agrees with AND applied to each 32-bit lane.
pub proof fn lemma_and_per_lane32(a: u128, b: u128)
    ensures
        forall|i: int| 0 <= i < 4 ==> #[trigger] lane32(a & b, i) == (lane32(a, i) & lane32(b, i)),
{
    assert(lane32(a & b, 0) == (lane32(a, 0) & lane32(b, 0)) && lane32(a & b, 1) == (lane32(a, 1)
        & lane32(b, 1)) && lane32(a & b, 2) == (lane32(a, 2) & lane32(b, 2)) && lane32(a & b, 3)
        == (lane32(a, 3) & lane32(b, 3))) by (bit_vector);
}

/// Whole-register OR agrees with OR applied to each 32-bit lane.
pub proof fn lemma_or_per_lane32(a: u128, b: u128)
    ensures
        forall|i: int| 0 <= i < 4 ==> #[trigger] lane32(a | b, i) == (lane32(a, i) | lane32(b, i)),
{
    assert(lane32(a | b, 0) == (lane32(a, 0) | lane32(b, 0)) && lane32(a | b, 1) == (lane32(a, 1)
        | lane32(b, 1)) && lane32(a | b, 2) == (lane32(a, 2) | lane32(b, 2)) && lane32(a | b, 3)
        == (lane32(a, 3) | lane32(b, 3))) by (bit_vector);
}

/// Whole-register XOR agrees with XOR applied to each 32-bit lane.
pub proof fn lemma_xor_per_lane32(a: u128, b: u128)
    ensures
        forall|i: int| 0 <= i < 4 ==> #[trigger] lane32(a ^ b, i) == (lane32(a, i) ^ lane32(b, i)),
{
    assert(lane32(a ^ b, 0) == (lane32(a, 0) ^ lane32(b, 0)) && lane32(a ^ b, 1) == (lane32(a, 1)
        ^ lane32(b, 1)) && lane32(a ^ b, 2) == (lane32(a, 2) ^ lane32(b, 2)) && lane32(a ^ b, 3)
        == (lane32(a, 3) ^ lane32(b, 3))) by (bit_vector);
}

/// Whole-register AND agrees with AND applied to each 64-bit lane.
pub proof fn lemma_and_per_lane64(a: u128, b: u128)
    ensures
        forall|i: int| 0 <= i < 2 ==> #[trigger] lane64(a & b, i) == (lane64(a, i) & lane64(b, i)),
{
    assert(lane64(a & b, 0) == (lane64(a, 0) & lane64(b, 0))
        && lane64(a & b, 1) == (lane64(a, 1) & lane64(b, 1))) by (bit_vector);
}

/// Whole-register OR agrees with OR applied to each 64-bit lane.
pub proof fn lemma_or_per_lane64(a: u128, b: u128)
    ensures
        forall|i: int| 0 <= i < 2 ==> #[trigger] lane64(a | b, i) == (lane64(a, i) | lane64(b, i)),
{
    assert(lane64(a | b, 0) == (lane64(a, 0) | lane64(b, 0))
        && lane64(a | b, 1) == (lane64(a, 1) | lane64(b, 1))) by (bit_vector);
}

/// Whole-register XOR agrees with XOR applied to each 64-bit lane.
pub proof fn lemma_xor_per_lane64(a: u128, b: u128)
    ensures
        forall|i: int| 0 <= i < 2 ==> #[trigger] lane64(a ^ b, i) == (lane64(a, i) ^ lane64(b, i)),
{
    assert(lane64(a ^ b, 0) == (lane64(a, 0) ^ lane64(b, 0))
        && lane64(a ^ b, 1) == (lane64(a, 1) ^ lane64(b, 1))) by (bit_vector);
}

/// Whole-register AND agrees with AND applied to each 16-bit lane.
pub proof fn lemma_and_per_lane16(a: u128, b: u128)
    ensures
        forall|i: int| 0 <= i < 8 ==> #[trigger] lane16(a & b, i) == (lane16(a, i) & lane16(b, i)),
{
    assert(lane16(a & b, 0) == (lane16(a, 0) & lane16(b, 0))
        && lane16(a & b, 1) == (lane16(a, 1) & lane16(b, 1))
        && lane16(a & b, 2) == (lane16(a, 2) & lane16(b, 2))
        && lane16(a & b, 3) == (lane16(a, 3) & lane16(b, 3))
        && lane16(a & b, 4) == (lane16(a, 4) & lane16(b, 4))
        && lane16(a & b, 5) == (lane16(a, 5) & lane16(b, 5))
        && lane16(a & b, 6) == (lane16(a, 6) & lane16(b, 6))
        && lane16(a & b, 7) == (lane16(a, 7) & lane16(b, 7))) by (bit_vector);
}

/// Whole-register OR agrees with OR applied to each 16-bit lane.
pub proof fn lemma_or_per_lane16(a: u128, b: u128)
    ensures
        forall|i: int| 0 <= i < 8 ==> #[trigger] lane16(a | b, i) == (lane16(a, i) | lane16(b, i)),
{
    assert(lane16(a | b, 0) == (lane16(a, 0) | lane16(b, 0))
        && lane16(a | b, 1) == (lane16(a, 1) | lane16(b, 1))
        && lane16(a | b, 2) == (lane16(a, 2) | lane16(b, 2))
        && lane16(a | b, 3) == (lane16(a, 3) | lane16(b, 3))
        && lane16(a | b, 4) == (lane16(a, 4) | lane16(b, 4))
        && lane16(a | b, 5) == (lane16(a, 5) | lane16(b, 5))
        && lane16(a | b, 6) == (lane16(a, 6) | lane16(b, 6))
        && lane16(a | b, 7) == (lane16(a, 7) | lane16(b, 7))) by (bit_vector);
}

/// Whole-register XOR agrees with XOR applied to each 16-bit lane.
pub proof fn lemma_xor_per_lane16(a: u128, b: u128)
    ensures
        forall|i: int| 0 <= i < 8 ==> #[trigger] lane16(a ^ b, i) == (lane16(a, i) ^ lane16(b, i)),
{
    assert(lane16(a ^ b, 0) == (lane16(a, 0) ^ lane16(b, 0))
        && lane16(a ^ b, 1) == (lane16(a, 1) ^ lane16(b, 1))
        && lane16(a ^ b, 2) == (lane16(a, 2) ^ lane16(b, 2))
        && lane16(a ^ b, 3) == (lane16(a, 3) ^ lane16(b, 3))
        && lane16(a ^ b, 4) == (lane16(a, 4) ^ lane16(b, 4))
        && lane16(a ^ b, 5) == (lane16(a, 5) ^ lane16(b, 5))
        && lane16(a ^ b, 6) == (lane16(a, 6) ^ lane16(b, 6))
        && lane16(a ^ b, 7) == (lane16(a, 7) ^ lane16(b, 7))) by (bit_vector);
}

/// Whole-register AND agrees with AND applied to each 8-bit lane.
pub proof fn lemma_and_per_lane8(a: u128, b: u128)
    ensures
        forall|i: int| 0 <= i < 16 ==> #[trigger] lane8(a & b, i) == (lane8(a, i) & lane8(b, i)),
{
    assert(lane8(a & b, 0) == (lane8(a, 0) & lane8(b, 0))
        && lane8(a & b, 1) == (lane8(a, 1) & lane8(b, 1))
        && lane8(a & b, 2) == (lane8(a, 2) & lane8(b, 2))
        && lane8(a & b, 3) == (lane8(a, 3) & lane8(b, 3))
        && lane8(a & b, 4) == (lane8(a, 4) & lane8(b, 4))
        && lane8(a & b, 5) == (lane8(a, 5) & lane8(b, 5))
        && lane8(a & b, 6) == (lane8(a, 6) & lane8(b, 6))
        && lane8(a & b, 7) == (lane8(a, 7) & lane8(b, 7))
        && lane8(a & b, 8) == (lane8(a, 8) & lane8(b, 8))
        && lane8(a & b, 9) == (lane8(a, 9) & lane8(b, 9))
        && lane8(a & b, 10) == (lane8(a, 10) & lane8(b, 10))
        && lane8(a & b, 11) == (lane8(a, 11) & lane8(b, 11))
        && lane8(a & b, 12) == (lane8(a, 12) & lane8(b, 12))
        && lane8(a & b, 13) == (lane8(a, 13) & lane8(b, 13))
        && lane8(a & b, 14) == (lane8(a, 14) & lane8(b, 14))
        && lane8(a & b, 15) == (lane8(a, 15) & lane8(b, 15))) by (bit_vector);
}

/// Whole-register OR agrees with OR applied to each 8-bit lane.
pub proof fn lemma_or_per_lane8(a: u128, b: u128)
    ensures
        forall|i: int| 0 <= i < 16 ==> #[trigger] lane8(a | b, i) == (lane8(a, i) | lane8(b, i)),
{
    assert(lane8(a | b, 0) == (lane8(a, 0) | lane8(b, 0))
        && lane8(a | b, 1) == (lane8(a, 1) | lane8(b, 1))
        && lane8(a | b, 2) == (lane8(a, 2) | lane8(b, 2))
        && lane8(a | b, 3) == (lane8(a, 3) | lane8(b, 3))
        && lane8(a | b, 4) == (lane8(a, 4) | lane8(b, 4))
        && lane8(a | b, 5) == (lane8(a, 5) | lane8(b, 5))
        && lane8(a | b, 6) == (lane8(a, 6) | lane8(b, 6))
        && lane8(a | b, 7) == (lane8(a, 7) | lane8(b, 7))
        && lane8(a | b, 8) == (lane8(a, 8) | lane8(b, 8))
        && lane8(a | b, 9) == (lane8(a, 9) | lane8(b, 9))
        && lane8(a | b, 10) == (lane8(a, 10) | lane8(b, 10))
        && lane8(a | b, 11) == (lane8(a, 11) | lane8(b, 11))
        && lane8(a | b, 12) == (lane8(a, 12) | lane8(b, 12))
        && lane8(a | b, 13) == (lane8(a, 13) | lane8(b, 13))
        && lane8(a | b, 14) == (lane8(a, 14) | lane8(b, 14))
        && lane8(a | b, 15) == (lane8(a, 15) | lane8(b, 15))) by (bit_vector);
}

/// Whole-register XOR agrees with XOR applied to each 8-bit lane.
pub proof fn lemma_xor_per_lane8(a: u128, b: u128)
    ensures
        forall|i: int| 0 <= i < 16 ==> #[trigger] lane8(a ^ b, i) == (lane8(a, i) ^ lane8(b, i)),
{
    assert(lane8(a ^ b, 0) == (lane8(a, 0) ^ lane8(b, 0))
        && lane8(a ^ b, 1) == (lane8(a, 1) ^ lane8(b, 1))
        && lane8(a ^ b, 2) == (lane8(a, 2) ^ lane8(b, 2))
        && lane8(a ^ b, 3) == (lane8(a, 3) ^ lane8(b, 3))
        && lane8(a ^ b, 4) == (lane8(a, 4) ^ lane8(b, 4))
        && lane8(a ^ b, 5) == (lane8(a, 5) ^ lane8(b, 5))
        && lane8(a ^ b, 6) == (lane8(a, 6) ^ lane8(b, 6))
        && lane8(a ^ b, 7) == (lane8(a, 7) ^ lane8(b, 7))
        && lane8(a ^ b, 8) == (lane8(a, 8) ^ lane8(b, 8))
        && lane8(a ^ b, 9) == (lane8(a, 9) ^ lane8(b, 9))
        && lane8(a ^ b, 10) == (lane8(a, 10) ^ lane8(b, 10))
        && lane8(a ^ b, 11) == (lane8(a, 11) ^ lane8(b, 11))
        && lane8(a ^ b, 12) == (lane8(a, 12) ^ lane8(b, 12))
        && lane8(a ^ b, 13) == (lane8(a, 13) ^ lane8(b, 13))
        && lane8(a ^ b, 14) == (lane8(a, 14) ^ lane8(b, 14))
        && lane8(a ^ b, 15) == (lane8(a, 15) ^ lane8(b, 15))) by (bit_vector);
}

} // verus!
