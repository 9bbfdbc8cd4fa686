//! Bit patterns of the floating-point constants the renderer is configured
//! with.
//!
//! Verified code never computes with floating-point values: it carries them
//! as the integers that encode them and leaves the arithmetic to the caller.
//! Single-precision values travel as `u32`, double-precision values as `u64`.

use vstd::prelude::*;

verus! {

/// Single precision zero.
pub const ZERO: u32 = 0;

/// Single precision one.
pub const ONE: u32 = 0x3F80_0000;

/// Single precision two.
pub const TWO: u32 = 0x4000_0000;

/// Double precision one tenth.
pub const TENTH_WIDE: u64 = 0x3FB9_9999_9999_999A;

/// Double precision two tenths.
pub const TWO_TENTHS_WIDE: u64 = 0x3FC9_9999_9999_999A;

/// Double precision three tenths.
pub const THREE_TENTHS_WIDE: u64 = 0x3FD3_3333_3333_3333;

/// Double precision one.
pub const ONE_WIDE: u64 = 0x3FF0_0000_0000_0000;

} // verus!
