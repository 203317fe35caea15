//! Typed views over a 128-bit integer vector register.
//!
//! A [`m128i`] value is a raw 128-bit pattern with no lane interpretation of
//! its own.  The lane vector types ([`i32x4`], [`u8x16`], and the rest)
//! impose a lane width and signedness on such a pattern.
//! Converting between the register and any lane view, in either direction,
//! preserves the bit pattern exactly: it is a view change, never a numeric
//! conversion.  This holds for every lane width, the 64-bit views included.
//! All conversions here are carried out with verified shift-and-mask
//! arithmetic, so the layout contract is proved rather than assumed.
//!
//! Lane indices are bounded by a precondition on `extract` instead of a
//! run-time check: every verified caller is checked statically, and an
//! unverified caller must keep the index below the lane count itself.

mod bits;
mod lanes16;
mod lanes32;
mod lanes64;
mod lanes8;
mod laws;
mod register;

pub use bits::{i16_of_u16, i32_of_u32, i64_of_u64, i8_of_u8};
pub use bits::{lane16, lane32, lane64, lane8};
pub use bits::{u16_of_i16, u32_of_i32, u64_of_i64, u8_of_i8};
pub use lanes16::{i16x8, u16x8};
pub use lanes16::{lemma_i16x8_round_trip, lemma_i16x8_view_preserves_bits};
pub use lanes16::{lemma_u16x8_round_trip, lemma_u16x8_view_preserves_bits};
pub use lanes32::{i32x4, u32x4};
pub use lanes32::{lemma_i32x4_round_trip, lemma_i32x4_view_preserves_bits};
pub use lanes32::{lemma_u32x4_round_trip, lemma_u32x4_view_preserves_bits};
pub use lanes64::{i64x2, u64x2};
pub use lanes64::{lemma_i64x2_round_trip, lemma_i64x2_view_preserves_bits};
pub use lanes64::{lemma_u64x2_round_trip, lemma_u64x2_view_preserves_bits};
pub use lanes8::{i8x16, u8x16};
pub use lanes8::{lemma_i8x16_round_trip, lemma_i8x16_view_preserves_bits};
pub use lanes8::{lemma_u8x16_round_trip, lemma_u8x16_view_preserves_bits};
pub use laws::{lemma_and_per_lane16, lemma_or_per_lane16, lemma_xor_per_lane16};
pub use laws::{lemma_and_per_lane32, lemma_or_per_lane32, lemma_xor_per_lane32};
pub use laws::{lemma_and_per_lane64, lemma_or_per_lane64, lemma_xor_per_lane64};
pub use laws::{lemma_and_per_lane8, lemma_or_per_lane8, lemma_xor_per_lane8};
pub use laws::{lemma_set_epi32_lane_order, lemma_setr_epi32_lane_order};
pub use register::m128i;
pub use register::{set_epi16, set_epi32, set_epi64, set_epi8};
pub use register::{setr_epi16, setr_epi32, setr_epi64, setr_epi8};
