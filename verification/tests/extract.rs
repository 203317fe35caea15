//! Lane construction and extraction, lane 0 first.

use simd128::{i16x8, i32x4, i64x2, i8x16, u16x8};

#[test]
fn basic_i64x2() {
    let x = i64x2(3, 9);
    assert_eq!(x.extract(0), 3);
    assert_eq!(x.extract(1), 9);
}

#[test]
fn base_i32x4() {
    let x = i32x4(1, 2, 3, 4);
    assert_eq!(x.extract(0), 1);
    assert_eq!(x.extract(1), 2);
    assert_eq!(x.extract(2), 3);
    assert_eq!(x.extract(3), 4);
}

#[test]
fn base_i16x8() {
    let x = i16x8(1, 2, 3, 4, 5, 6, 7, 8);
    assert_eq!(x.extract(0), 1);
    assert_eq!(x.extract(1), 2);
    assert_eq!(x.extract(2), 3);
    assert_eq!(x.extract(3), 4);
    assert_eq!(x.extract(4), 5);
    assert_eq!(x.extract(5), 6);
    assert_eq!(x.extract(6), 7);
    assert_eq!(x.extract(7), 8);
}

#[test]
fn base_u16x8() {
    let x = u16x8(1, 2, 3, 4, 5, 6, 7, 8);
    assert_eq!(x.extract(0), 1);
    assert_eq!(x.extract(1), 2);
    assert_eq!(x.extract(2), 3);
    assert_eq!(x.extract(3), 4);
    assert_eq!(x.extract(4), 5);
    assert_eq!(x.extract(5), 6);
    assert_eq!(x.extract(6), 7);
    assert_eq!(x.extract(7), 8);
}

#[test]
fn base_i8x16() {
    let x = i8x16(1, 2, 3, 4, 5, 6, 7, 8, 9, 10, 11, 12, 13, 14, 15, 16);
    for i in 0..16 {
        assert_eq!(x.extract(i), (i + 1) as i8);
    }
}

#[test]
fn new_matches_positional_construction() {
    let a = i32x4::new(-7, 0, 7, i32::MAX);
    let b = i32x4(-7, 0, 7, i32::MAX);
    for i in 0..4 {
        assert_eq!(a.extract(i), b.extract(i));
    }
}
