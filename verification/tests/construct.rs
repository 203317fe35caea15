//! The two constructor orderings: `set` (most-significant lane first) and
//! `setr` (natural order, lane 0 first).

use simd128::{set_epi16, set_epi32, set_epi64, set_epi8};
use simd128::{setr_epi16, setr_epi32, setr_epi64, setr_epi8};

#[test]
fn set_epi32_msb_first() {
    let v = set_epi32(1, 2, 3, 4).as_i32x4();
    assert_eq!(v.extract(0), 4);
    assert_eq!(v.extract(1), 3);
    assert_eq!(v.extract(2), 2);
    assert_eq!(v.extract(3), 1);
}

#[test]
fn setr_epi32_natural_order() {
    let v = setr_epi32(1, 2, 3, 4).as_i32x4();
    assert_eq!(v.extract(0), 1);
    assert_eq!(v.extract(1), 2);
    assert_eq!(v.extract(2), 3);
    assert_eq!(v.extract(3), 4);
}

#[test]
fn set_epi64_msb_first() {
    let v = set_epi64(1, 2).as_i64x2();
    assert_eq!(v.extract(0), 2);
    assert_eq!(v.extract(1), 1);
}

#[test]
fn setr_epi64_natural_order() {
    let v = setr_epi64(1, 2).as_i64x2();
    assert_eq!(v.extract(0), 1);
    assert_eq!(v.extract(1), 2);
}

#[test]
fn set_epi16_msb_first() {
    let v = set_epi16(1, 2, 3, 4, 5, 6, 7, 8).as_i16x8();
    for i in 0..8 {
        assert_eq!(v.extract(i), (8 - i) as i16);
    }
}

#[test]
fn setr_epi16_natural_order() {
    let v = setr_epi16(1, 2, 3, 4, 5, 6, 7, 8).as_i16x8();
    for i in 0..8 {
        assert_eq!(v.extract(i), (i + 1) as i16);
    }
}

#[test]
fn set_epi8_msb_first() {
    let v = set_epi8(1, 2, 3, 4, 5, 6, 7, 8, 9, 10, 11, 12, 13, 14, 15, 16).as_i8x16();
    for i in 0..16 {
        assert_eq!(v.extract(i), (16 - i) as i8);
    }
}

#[test]
fn setr_epi8_natural_order() {
    let v = setr_epi8(1, 2, 3, 4, 5, 6, 7, 8, 9, 10, 11, 12, 13, 14, 15, 16).as_i8x16();
    for i in 0..16 {
        assert_eq!(v.extract(i), (i + 1) as i8);
    }
}

#[test]
fn set_orderings_with_negative_lanes() {
    let v = set_epi32(-1, i32::MIN, 7, -128).as_i32x4();
    assert_eq!(v.extract(0), -128);
    assert_eq!(v.extract(1), 7);
    assert_eq!(v.extract(2), i32::MIN);
    assert_eq!(v.extract(3), -1);
    let w = setr_epi32(-1, i32::MIN, 7, -128).as_i32x4();
    assert_eq!(w.extract(0), -1);
    assert_eq!(w.extract(1), i32::MIN);
    assert_eq!(w.extract(2), 7);
    assert_eq!(w.extract(3), -128);
}
