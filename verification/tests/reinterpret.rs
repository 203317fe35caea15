//! Round-trip reinterpretation and cross-view consistency.
//!
//! Converting a lane vector to the raw register and viewing it back under the
//! same lane type must restore every lane, including sign-bit patterns; and
//! viewing one pattern under different lane types must never change the bits.

use simd128::{i16x8, i32x4, i64x2, i8x16, m128i, u16x8, u32x4, u64x2, u8x16};

#[test]
fn round_trip_i64x2() {
    let v = i64x2(i64::MIN, -1);
    let w = v.as_m128i().as_i64x2();
    assert_eq!(w.extract(0), i64::MIN);
    assert_eq!(w.extract(1), -1);
}

#[test]
fn round_trip_u64x2() {
    let v = u64x2(u64::MAX, 0x0123_4567_89ab_cdef);
    let w = v.as_m128i().as_u64x2();
    assert_eq!(w.extract(0), u64::MAX);
    assert_eq!(w.extract(1), 0x0123_4567_89ab_cdef);
}

#[test]
fn round_trip_i32x4() {
    let v = i32x4(i32::MIN, -2, 3, i32::MAX);
    let w = v.as_m128i().as_i32x4();
    for i in 0..4 {
        assert_eq!(w.extract(i), v.extract(i));
    }
}

#[test]
fn round_trip_u32x4() {
    let v = u32x4(0xdead_beef, 0, u32::MAX, 1);
    let w = v.as_m128i().as_u32x4();
    for i in 0..4 {
        assert_eq!(w.extract(i), v.extract(i));
    }
}

#[test]
fn round_trip_i16x8() {
    let v = i16x8(i16::MIN, -1, 0, 1, 2, -3, i16::MAX, -32000);
    let w = v.as_m128i().as_i16x8();
    for i in 0..8 {
        assert_eq!(w.extract(i), v.extract(i));
    }
}

#[test]
fn round_trip_u16x8() {
    let v = u16x8(u16::MAX, 0, 1, 0x8000, 0x7fff, 2, 3, 4);
    let w = v.as_m128i().as_u16x8();
    for i in 0..8 {
        assert_eq!(w.extract(i), v.extract(i));
    }
}

#[test]
fn round_trip_i8x16() {
    let v = i8x16(i8::MIN, -1, 0, 1, 2, 3, 4, 5, 6, 7, 8, 9, 10, 11, 12, i8::MAX);
    let w = v.as_m128i().as_i8x16();
    for i in 0..16 {
        assert_eq!(w.extract(i), v.extract(i));
    }
}

#[test]
fn round_trip_u8x16() {
    let v = u8x16(
        0xff, 0x80, 0x7f, 0, 1, 2, 3, 4, 5, 6, 7, 8, 9, 10, 11, 12,
    );
    let w = v.as_m128i().as_u8x16();
    for i in 0..16 {
        assert_eq!(w.extract(i), v.extract(i));
    }
}

#[test]
fn cross_view_preserves_bits() {
    let b: u128 = 0x0f1e_2d3c_4b5a_6978_8796_a5b4_c3d2_e1f0;
    let r = m128i { bits: b };
    assert_eq!(r.as_i64x2().as_m128i().bits, b);
    assert_eq!(r.as_u64x2().as_m128i().bits, b);
    assert_eq!(r.as_i32x4().as_m128i().bits, b);
    assert_eq!(r.as_u32x4().as_m128i().bits, b);
    assert_eq!(r.as_i16x8().as_m128i().bits, b);
    assert_eq!(r.as_u16x8().as_m128i().bits, b);
    assert_eq!(r.as_i8x16().as_m128i().bits, b);
    assert_eq!(r.as_u8x16().as_m128i().bits, b);
}

#[test]
fn signed_unsigned_views_share_bits() {
    let v = i32x4(-1, i32::MIN, 0x100, 0);
    let u = v.as_m128i().as_u32x4();
    assert_eq!(u.extract(0), u32::MAX);
    assert_eq!(u.extract(1), 0x8000_0000);
    assert_eq!(u.extract(2), 0x100);
    assert_eq!(u.extract(3), 0);
}

#[test]
fn byte_view_of_wide_lanes_is_little_endian() {
    let v = u64x2(0x0807_0605_0403_0201, 0x100f_0e0d_0c0b_0a09);
    let bytes = v.as_m128i().as_u8x16();
    for i in 0..16 {
        assert_eq!(bytes.extract(i), (i + 1) as u8);
    }
}
