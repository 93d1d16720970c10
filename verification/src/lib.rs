//! Bit-exact abstraction over IEEE 754 binary floating-point formats of
//! several widths (16, 32, 64 and 128 bits) plus bfloat16.
//!
//! Each format is a thin holder of a raw bit pattern.  Construction,
//! classification, field access and the purely structural conversions are
//! defined here, entirely from each format's bit layout, and carry exact
//! contracts.  The arithmetic kernels themselves (addition, multiplication,
//! square root, ...) belong to an external software floating-point engine
//! that is driven through process-wide rounding-mode and sticky-flag
//! registers; the engine's foreign calls cannot stand in verified code, so
//! the thin delegation layer around them lives outside this crate, on top
//! of the functions proved here.

use vstd::prelude::*;

pub mod bf16;
pub mod f128;
pub mod f16;
pub mod f32;
pub mod f64;
pub use crate::bf16::BF16;
pub use crate::f128::F128;
pub use crate::f16::F16;
pub use crate::f32::F32;
pub use crate::f64::F64;

verus! {

/// Floating-point rounding mode defined by the IEEE 754 standard.
#[derive(Copy, Clone, Debug)]
pub enum RoundingMode {
    /// to nearest, ties to even
    TiesToEven,
    /// toward 0
    TowardZero,
    /// toward negative infinity
    TowardNegative,
    /// toward positive infinity
    TowardPositive,
    /// to nearest, ties away from zero
    TiesToAway,
}

impl RoundingMode {
    /// The configuration code that selects this mode in the external
    /// engine's global rounding-mode register.  The codes are the engine's
    /// `softfloat_round_*` constants.
    pub fn to_softfloat(&self) -> (r: u8)
        ensures
            r == match self {
                RoundingMode::TiesToEven => 0u8,
                RoundingMode::TowardZero => 1u8,
                RoundingMode::TowardNegative => 2u8,
                RoundingMode::TowardPositive => 3u8,
                RoundingMode::TiesToAway => 4u8,
            },
    {
        match self {
            RoundingMode::TiesToEven => 0,
            RoundingMode::TowardZero => 1,
            RoundingMode::TowardNegative => 2,
            RoundingMode::TowardPositive => 3,
            RoundingMode::TiesToAway => 4,
        }
    }
}

/// Exception flags defined by the IEEE 754 standard.
///
/// A value of this type is a local snapshot of the external engine's
/// process-wide sticky flag register: a 5-bit set with one bit per
/// condition, using the engine's `softfloat_flag_*` bit assignment.
/// The engine only ever ORs bits into its register, so flags accumulate
/// between an explicit clear and a read-back.
#[derive(Copy, Clone, Debug)]
pub struct ExceptionFlags(u8);

impl ExceptionFlags {
    /// True when the inexact-result bit is set.
    pub open spec fn spec_is_inexact(&self) -> bool {
        self@ & 0x01u8 != 0
    }

    /// True when the division-by-zero (infinite-result) bit is set.
    pub open spec fn spec_is_infinite(&self) -> bool {
        self@ & 0x08u8 != 0
    }

    /// True when the invalid-operation bit is set.
    pub open spec fn spec_is_invalid(&self) -> bool {
        self@ & 0x10u8 != 0
    }

    /// True when the overflow bit is set.
    pub open spec fn spec_is_overflow(&self) -> bool {
        self@ & 0x04u8 != 0
    }

    /// True when the underflow bit is set.
    pub open spec fn spec_is_underflow(&self) -> bool {
        self@ & 0x02u8 != 0
    }

    pub fn from_bits(x: u8) -> (r: Self)
        ensures
            r@ == x,
    {
        Self(x)
    }

    pub fn bits(&self) -> (r: u8)
        ensures
            r == self@,
    {
        self.0
    }

    pub fn is_inexact(&self) -> (r: bool)
        ensures
            r == self.spec_is_inexact(),
    {
        self.0 & 0x01 != 0
    }

    pub fn is_infinite(&self) -> (r: bool)
        ensures
            r == self.spec_is_infinite(),
    {
        self.0 & 0x08 != 0
    }

    pub fn is_invalid(&self) -> (r: bool)
        ensures
            r == self.spec_is_invalid(),
    {
        self.0 & 0x10 != 0
    }

    pub fn is_overflow(&self) -> (r: bool)
        ensures
            r == self.spec_is_overflow(),
    {
        self.0 & 0x04 != 0
    }

    pub fn is_underflow(&self) -> (r: bool)
        ensures
            r == self.spec_is_underflow(),
    {
        self.0 & 0x02 != 0
    }
}

impl View for ExceptionFlags {
    type V = u8;

    closed spec fn view(&self) -> u8 {
        self.0
    }
}

impl Default for ExceptionFlags {
    /// A snapshot with every flag clear, as written into the engine's
    /// register to clear it before an operation.
    fn default() -> (r: Self)
        ensures
            r@ == 0,
    {
        Self(0)
    }
}

} // verus!
