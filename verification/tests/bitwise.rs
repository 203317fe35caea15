//! Bitwise AND, OR, and XOR over whole registers, checked per 32-bit lane.

use simd128::{m128i, setr_epi32};

#[test]
fn and_per_lane() {
    let x = setr_epi32(0x3f, 0x7e, 0x13, 0xff);
    let y = setr_epi32(0x53, 0x8c, 0xff, 0x17);
    let r = x.and(y).as_i32x4();
    assert_eq!(r.extract(0), 0x13);
    assert_eq!(r.extract(1), 0x0c);
    assert_eq!(r.extract(2), 0x13);
    assert_eq!(r.extract(3), 0x17);
}

#[test]
fn or_per_lane() {
    let x = setr_epi32(0x3f, 0x7e, 0x13, 0xff);
    let y = setr_epi32(0x53, 0x8c, 0xff, 0x17);
    let r = x.or(y).as_i32x4();
    assert_eq!(r.extract(0), 0x7f);
    assert_eq!(r.extract(1), 0xfe);
    assert_eq!(r.extract(2), 0xff);
    assert_eq!(r.extract(3), 0xff);
}

#[test]
fn xor_per_lane() {
    let x = setr_epi32(0x3f, 0x7e, 0x13, 0xff);
    let y = setr_epi32(0x53, 0x8c, 0xff, 0x17);
    let r = x.xor(y).as_i32x4();
    assert_eq!(r.extract(0), 0x6c);
    assert_eq!(r.extract(1), 0xf2);
    assert_eq!(r.extract(2), 0xec);
    assert_eq!(r.extract(3), 0xe8);
}

#[test]
fn bitwise_on_raw_patterns() {
    let a = m128i { bits: 0xffff_0000_ffff_0000_ffff_0000_ffff_0000 };
    let b = m128i { bits: 0x0f0f_0f0f_0f0f_0f0f_0f0f_0f0f_0f0f_0f0f };
    assert_eq!(a.and(b).bits, 0x0f0f_0000_0f0f_0000_0f0f_0000_0f0f_0000);
    assert_eq!(a.or(b).bits, 0xffff_0f0f_ffff_0f0f_ffff_0f0f_ffff_0f0f);
    assert_eq!(a.xor(b).bits, 0xf0f0_0f0f_f0f0_0f0f_f0f0_0f0f_f0f0_0f0f);
    let z = m128i { bits: 0 };
    assert_eq!(a.xor(a).bits, z.bits);
    assert_eq!(a.or(z).bits, a.bits);
}

#[test]
fn xor_agrees_under_byte_view() {
    let x = setr_epi32(0x3f, 0x7e, 0x13, 0xff);
    let y = setr_epi32(0x53, 0x8c, 0xff, 0x17);
    let r = x.xor(y).as_u8x16();
    assert_eq!(r.extract(0), 0x6c);
    assert_eq!(r.extract(4), 0xf2);
    assert_eq!(r.extract(8), 0xec);
    assert_eq!(r.extract(12), 0xe8);
    assert_eq!(r.extract(1), 0);
    assert_eq!(r.extract(15), 0);
}
