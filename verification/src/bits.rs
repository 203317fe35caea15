//! Specification-level bit-pattern arithmetic shared by every vector type.
//!
//! A 128-bit register is modelled as a `u128`.  The `lane*` functions read one
//! lane out of such a pattern (lane 0 is the lowest-order lane), and the
//! `uN_of_iN` / `iN_of_uN` pairs move a lane value between its signed reading
//! and its unsigned bit pattern, two's-complement style, without changing the
//! bits.

use vstd::prelude::*;

verus! {

/// Unsigned bit pattern of a signed 8-bit lane value.
pub open spec fn u8_of_i8(x: i8) -> u8 {
    if x < 0 {
        (x + 0x100) as u8
    } else {
        x as u8
    }
}

/// Signed reading of an unsigned 8-bit lane pattern.
pub open spec fn i8_of_u8(u: u8) -> i8 {
    if u >= 0x80 {
        (u - 0x100) as i8
    } else {
        u as i8
    }
}

/// Unsigned bit pattern of a signed 16-bit lane value.
pub open spec fn u16_of_i16(x: i16) -> u16 {
    if x < 0 {
        (x + 0x1_0000) as u16
    } else {
        x as u16
    }
}

/// Signed reading of an unsigned 16-bit lane pattern.
pub open spec fn i16_of_u16(u: u16) -> i16 {
    if u >= 0x8000 {
        (u - 0x1_0000) as i16
    } else {
        u as i16
    }
}

/// Unsigned bit pattern of a signed 32-bit lane value.
pub open spec fn u32_of_i32(x: i32) -> u32 {
    if x < 0 {
        (x + 0x1_0000_0000) as u32
    } else {
        x as u32
    }
}

/// Signed reading of an unsigned 32-bit lane pattern.
pub open spec fn i32_of_u32(u: u32) -> i32 {
    if u >= 0x8000_0000 {
        (u - 0x1_0000_0000) as i32
    } else {
        u as i32
    }
}

/// Unsigned bit pattern of a signed 64-bit lane value.
pub open spec fn u64_of_i64(x: i64) -> u64 {
    if x < 0 {
        (x + 0x1_0000_0000_0000_0000) as u64
    } else {
        x as u64
    }
}

/// Signed reading of an unsigned 64-bit lane pattern.
pub open spec fn i64_of_u64(u: u64) -> i64 {
    if u >= 0x8000_0000_0000_0000 {
        (u - 0x1_0000_0000_0000_0000) as i64
    } else {
        u as i64
    }
}

/// 8-bit lane `i` of a 128-bit pattern, lane 0 lowest-order.
pub open spec fn lane8(b: u128, i: int) -> u8 {
    ((b >> (8 * i)) & 0xff) as u8
}

/// 16-bit lane `i` of a 128-bit pattern, lane 0 lowest-order.
pub open spec fn lane16(b: u128, i: int) -> u16 {
    ((b >> (16 * i)) & 0xffff) as u16
}

/// 32-bit lane `i` of a 128-bit pattern, lane 0 lowest-order.
pub open spec fn lane32(b: u128, i: int) -> u32 {
    ((b >> (32 * i)) & 0xffff_ffff) as u32
}

/// 64-bit lane `i` of a 128-bit pattern, lane 0 lowest-order.
pub open spec fn lane64(b: u128, i: int) -> u64 {
    ((b >> (64 * i)) & 0xffff_ffff_ffff_ffff) as u64
}

} // verus!
