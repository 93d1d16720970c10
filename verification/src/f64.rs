use vstd::prelude::*;

use crate::RoundingMode;

verus! {

/// Mask of the exponent field of a binary64 pattern, shifted down to bit 0.
pub const EXPONENT_BIT: u64 = 0x7ff;

/// Mask of the fraction field of a binary64 pattern, in place.
pub const FRACTION_BIT: u64 = 0xf_ffff_ffff_ffff;

/// Bit position of the sign bit.
pub const SIGN_POS: usize = 63;

/// Bit position of the lowest exponent bit.
pub const EXPONENT_POS: usize = 52;

/// The sign field of a bit pattern: 0 or 1.
pub open spec fn spec_sign(b: u64) -> u64 {
    (b >> SIGN_POS) & 1
}

/// The exponent field of a bit pattern, shifted down to bit 0.
pub open spec fn spec_exponent(b: u64) -> u64 {
    (b >> EXPONENT_POS) & EXPONENT_BIT
}

/// The fraction field of a bit pattern.
pub open spec fn spec_fraction(b: u64) -> u64 {
    b & FRACTION_BIT
}

/// `b` with its sign field replaced by `x`, truncated to the field's width.
pub open spec fn spec_with_sign(b: u64, x: u64) -> u64 {
    (b & !(1u64 << SIGN_POS)) | ((x & 1) << SIGN_POS)
}

/// `b` with its exponent field replaced by `x`, truncated to the field's width.
pub open spec fn spec_with_exponent(b: u64, x: u64) -> u64 {
    (b & !(EXPONENT_BIT << EXPONENT_POS)) | ((x & EXPONENT_BIT) << EXPONENT_POS)
}

/// `b` with its fraction field replaced by `x`, truncated to the field's width.
pub open spec fn spec_with_fraction(b: u64, x: u64) -> u64 {
    (b & !FRACTION_BIT) | (x & FRACTION_BIT)
}

/// Every field extraction stays within its mask, and flipping a sign value
/// below 1 with `!` gives the other sign value.
pub proof fn lemma_field_bounds(b: u64)
    by (bit_vector)
    ensures
        spec_sign(b) <= 1,
        spec_exponent(b) <= EXPONENT_BIT,
        spec_fraction(b) <= FRACTION_BIT,
        (!spec_sign(b)) & 1 == 1 - spec_sign(b),
{
}

/// A field setter writes exactly its own field (truncating the new value
/// to the field's width) and leaves the other two fields unchanged.
pub proof fn lemma_setters(b: u64, x: u64)
    by (bit_vector)
    ensures
        spec_sign(spec_with_sign(b, x)) == x & 1,
        spec_exponent(spec_with_sign(b, x)) == spec_exponent(b),
        spec_fraction(spec_with_sign(b, x)) == spec_fraction(b),
        spec_sign(spec_with_exponent(b, x)) == spec_sign(b),
        spec_exponent(spec_with_exponent(b, x)) == x & EXPONENT_BIT,
        spec_fraction(spec_with_exponent(b, x)) == spec_fraction(b),
        spec_sign(spec_with_fraction(b, x)) == spec_sign(b),
        spec_exponent(spec_with_fraction(b, x)) == spec_exponent(b),
        spec_fraction(spec_with_fraction(b, x)) == x & FRACTION_BIT,
{
}

/// The bit patterns that the special-value constructors assemble.
proof fn lemma_special_constants()
    by (bit_vector)
    ensures
        0u64 & 1 == 0,
        spec_with_exponent(0u64, EXPONENT_BIT) == 0x7ff0_0000_0000_0000u64,
        spec_with_exponent(spec_with_sign(0u64, 1), EXPONENT_BIT) == 0xfff0_0000_0000_0000u64,
        spec_with_sign(0u64, 1) == 0x8000_0000_0000_0000u64,
        spec_with_fraction(spec_with_exponent(0u64, EXPONENT_BIT), 1u64 << 51)
            == 0x7ff8_0000_0000_0000u64,
        spec_sign(0u64) == 0 && spec_exponent(0u64) == 0 && spec_fraction(0u64) == 0,
        spec_sign(0x7ff0_0000_0000_0000u64) == 0 && spec_exponent(0x7ff0_0000_0000_0000u64) == EXPONENT_BIT
            && spec_fraction(0x7ff0_0000_0000_0000u64) == 0,
        spec_sign(0xfff0_0000_0000_0000u64) == 1 && spec_exponent(0xfff0_0000_0000_0000u64) == EXPONENT_BIT
            && spec_fraction(0xfff0_0000_0000_0000u64) == 0,
        spec_sign(0x8000_0000_0000_0000u64) == 1 && spec_exponent(0x8000_0000_0000_0000u64) == 0 && spec_fraction(
            0x8000_0000_0000_0000u64,
        ) == 0,
        spec_sign(0x7ff8_0000_0000_0000u64) == 0 && spec_exponent(0x7ff8_0000_0000_0000u64) == EXPONENT_BIT
            && spec_fraction(0x7ff8_0000_0000_0000u64) == 0x8_0000_0000_0000,
{
}

/// Standard 64-bit (binary64) float: a raw bit pattern with layout
/// 1 sign bit, 11 exponent bits, 52 fraction bits.
#[derive(Copy, Clone, Debug)]
pub struct F64 {
    v: u64,
}

impl View for F64 {
    type V = u64;

    closed spec fn view(&self) -> u64 {
        self.v
    }
}

impl F64 {
    pub open spec fn spec_is_positive(&self) -> bool {
        spec_sign(self@) == 0
    }

    pub open spec fn spec_is_negative(&self) -> bool {
        spec_sign(self@) == 1
    }

    pub open spec fn spec_is_positive_zero(&self) -> bool {
        self.spec_is_positive() && spec_exponent(self@) == 0 && spec_fraction(self@) == 0
    }

    pub open spec fn spec_is_negative_zero(&self) -> bool {
        self.spec_is_negative() && spec_exponent(self@) == 0 && spec_fraction(self@) == 0
    }

    pub open spec fn spec_is_positive_subnormal(&self) -> bool {
        self.spec_is_positive() && spec_exponent(self@) == 0 && spec_fraction(self@) != 0
    }

    pub open spec fn spec_is_negative_subnormal(&self) -> bool {
        self.spec_is_negative() && spec_exponent(self@) == 0 && spec_fraction(self@) != 0
    }

    pub open spec fn spec_is_positive_normal(&self) -> bool {
        self.spec_is_positive() && spec_exponent(self@) != 0 && spec_exponent(self@)
            != EXPONENT_BIT
    }

    pub open spec fn spec_is_negative_normal(&self) -> bool {
        self.spec_is_negative() && spec_exponent(self@) != 0 && spec_exponent(self@)
            != EXPONENT_BIT
    }

    pub open spec fn spec_is_positive_infinity(&self) -> bool {
        self.spec_is_positive() && spec_exponent(self@) == EXPONENT_BIT && spec_fraction(self@)
            == 0
    }

    pub open spec fn spec_is_negative_infinity(&self) -> bool {
        self.spec_is_negative() && spec_exponent(self@) == EXPONENT_BIT && spec_fraction(self@)
            == 0
    }

    pub open spec fn spec_is_nan(&self) -> bool {
        spec_exponent(self@) == EXPONENT_BIT && spec_fraction(self@) != 0
    }

    /// A NaN whose most significant fraction bit is clear signals the
    /// invalid exception when used; one with the bit set is quiet.
    pub open spec fn spec_is_signaling_nan(&self) -> bool {
        spec_exponent(self@) == EXPONENT_BIT && spec_fraction(self@) != 0 && spec_fraction(self@)
            & (1u64 << 51) == 0
    }

    pub open spec fn spec_is_zero(&self) -> bool {
        self.spec_is_positive_zero() || self.spec_is_negative_zero()
    }

    /// Subnormal and zero are disjoint: a zero pattern (fraction 0) is
    /// not subnormal.
    pub open spec fn spec_is_subnormal(&self) -> bool {
        spec_exponent(self@) == 0 && spec_fraction(self@) != 0
    }

    pub fn from_bits(v: u64) -> (r: Self)
        ensures
            r@ == v,
    {
        Self { v }
    }

    pub fn to_bits(&self) -> (r: u64)
        ensures
            r == self@,
    {
        self.v
    }

    pub fn bits(&self) -> (r: u64)
        ensures
            r == self@,
    {
        self.to_bits()
    }

    pub fn set_payload(&mut self, x: u64)
        ensures
            final(self)@ == x,
    {
        self.v = x;
    }

    pub fn sign(&self) -> (r: u64)
        ensures
            r == spec_sign(self@),
    {
        (self.bits() >> SIGN_POS) & 1
    }

    pub fn exponent(&self) -> (r: u64)
        ensures
            r == spec_exponent(self@),
    {
        (self.bits() >> EXPONENT_POS) & EXPONENT_BIT
    }

    pub fn fraction(&self) -> (r: u64)
        ensures
            r == spec_fraction(self@),
    {
        self.bits() & FRACTION_BIT
    }

    pub fn is_positive(&self) -> (r: bool)
        ensures
            r == self.spec_is_positive(),
    {
        self.sign() == 0
    }

    pub fn is_negative(&self) -> (r: bool)
        ensures
            r == self.spec_is_negative(),
    {
        self.sign() == 1
    }

    pub fn is_positive_zero(&self) -> (r: bool)
        ensures
            r == self.spec_is_positive_zero(),
    {
        self.is_positive() && self.exponent() == 0 && self.fraction() == 0
    }

    pub fn is_negative_zero(&self) -> (r: bool)
        ensures
            r == self.spec_is_negative_zero(),
    {
        self.is_negative() && self.exponent() == 0 && self.fraction() == 0
    }

    pub fn is_positive_subnormal(&self) -> (r: bool)
        ensures
            r == self.spec_is_positive_subnormal(),
    {
        self.is_positive() && self.exponent() == 0 && self.fraction() != 0
    }

    pub fn is_negative_subnormal(&self) -> (r: bool)
        ensures
            r == self.spec_is_negative_subnormal(),
    {
        self.is_negative() && self.exponent() == 0 && self.fraction() != 0
    }

    pub fn is_positive_normal(&self) -> (r: bool)
        ensures
            r == self.spec_is_positive_normal(),
    {
        self.is_positive() && self.exponent() != 0 && self.exponent() != EXPONENT_BIT
    }

    pub fn is_negative_normal(&self) -> (r: bool)
        ensures
            r == self.spec_is_negative_normal(),
    {
        self.is_negative() && self.exponent() != 0 && self.exponent() != EXPONENT_BIT
    }

    pub fn is_positive_infinity(&self) -> (r: bool)
        ensures
            r == self.spec_is_positive_infinity(),
    {
        self.is_positive() && self.exponent() == EXPONENT_BIT && self.fraction() == 0
    }

    pub fn is_negative_infinity(&self) -> (r: bool)
        ensures
            r == self.spec_is_negative_infinity(),
    {
        self.is_negative() && self.exponent() == EXPONENT_BIT && self.fraction() == 0
    }

    pub fn is_nan(&self) -> (r: bool)
        ensures
            r == self.spec_is_nan(),
    {
        self.exponent() == EXPONENT_BIT && self.fraction() != 0
    }

    /// Whether the pattern is a signaling NaN: exponent all ones, fraction
    /// nonzero, most significant fraction bit clear.
    pub fn is_signaling_nan(&self) -> (r: bool)
        ensures
            r == self.spec_is_signaling_nan(),
    {
        self.exponent() == EXPONENT_BIT && self.fraction() != 0 && self.fraction() & (1u64 << 51)
            == 0
    }

    pub fn is_zero(&self) -> (r: bool)
        ensures
            r == self.spec_is_zero(),
    {
        self.is_positive_zero() || self.is_negative_zero()
    }

    pub fn is_subnormal(&self) -> (r: bool)
        ensures
            r == self.spec_is_subnormal(),
    {
        self.exponent() == 0 && self.fraction() != 0
    }

    /// Replace the sign field; the new value is silently truncated to the
    /// field's single bit, never rejected.
    pub fn set_sign(&mut self, x: u64)
        ensures
            final(self)@ == spec_with_sign(old(self)@, x),
            spec_sign(final(self)@) == x & 1,
            spec_exponent(final(self)@) == spec_exponent(old(self)@),
            spec_fraction(final(self)@) == spec_fraction(old(self)@),
    {
        proof {
            lemma_setters(self@, x);
        }
        let b = self.bits();
        self.set_payload((b & !(1u64 << SIGN_POS)) | ((x & 1) << SIGN_POS));
    }

    /// Replace the exponent field; the new value is silently truncated to
    /// the field's width, never rejected.
    pub fn set_exponent(&mut self, x: u64)
        ensures
            final(self)@ == spec_with_exponent(old(self)@, x),
            spec_sign(final(self)@) == spec_sign(old(self)@),
            spec_exponent(final(self)@) == x & EXPONENT_BIT,
            spec_fraction(final(self)@) == spec_fraction(old(self)@),
    {
        proof {
            lemma_setters(self@, x);
        }
        let b = self.bits();
        self.set_payload((b & !(EXPONENT_BIT << EXPONENT_POS)) | ((x & EXPONENT_BIT)
            << EXPONENT_POS));
    }

    /// Replace the fraction field; the new value is silently truncated to
    /// the field's width, never rejected.
    pub fn set_fraction(&mut self, x: u64)
        ensures
            final(self)@ == spec_with_fraction(old(self)@, x),
            spec_sign(final(self)@) == spec_sign(old(self)@),
            spec_exponent(final(self)@) == spec_exponent(old(self)@),
            spec_fraction(final(self)@) == x & FRACTION_BIT,
    {
        proof {
            lemma_setters(self@, x);
        }
        let b = self.bits();
        self.set_payload((b & !FRACTION_BIT) | (x & FRACTION_BIT));
    }

    /// The same pattern with the sign bit flipped; no rounding, no engine
    /// call.
    pub fn neg(&self) -> (r: Self)
        ensures
            r@ == spec_with_sign(self@, !spec_sign(self@)),
            spec_sign(r@) == 1 - spec_sign(self@),
            spec_exponent(r@) == spec_exponent(self@),
            spec_fraction(r@) == spec_fraction(self@),
    {
        proof {
            lemma_field_bounds(self@);
        }
        let mut ret = Self::from_bits(self.bits());
        ret.set_sign(!self.sign());
        ret
    }

    /// The same pattern with the sign bit cleared; no rounding, no engine
    /// call.
    pub fn abs(&self) -> (r: Self)
        ensures
            r@ == spec_with_sign(self@, 0),
            spec_sign(r@) == 0,
            spec_exponent(r@) == spec_exponent(self@),
            spec_fraction(r@) == spec_fraction(self@),
    {
        proof {
            lemma_special_constants();
        }
        let mut ret = Self::from_bits(self.bits());
        ret.set_sign(0);
        ret
    }

    pub fn positive_infinity() -> (r: Self)
        ensures
            r@ == 0x7ff0_0000_0000_0000u64,
            r.spec_is_positive_infinity(),
    {
        proof {
            lemma_special_constants();
        }
        let mut x = Self::from_bits(0);
        x.set_exponent(EXPONENT_BIT);
        x
    }

    pub fn negative_infinity() -> (r: Self)
        ensures
            r@ == 0xfff0_0000_0000_0000u64,
            r.spec_is_negative_infinity(),
    {
        proof {
            lemma_special_constants();
        }
        let mut x = Self::from_bits(0);
        x.set_sign(1);
        x.set_exponent(EXPONENT_BIT);
        x
    }

    pub fn positive_zero() -> (r: Self)
        ensures
            r@ == 0u64,
            r.spec_is_positive_zero(),
    {
        proof {
            lemma_special_constants();
        }
        let x = Self::from_bits(0);
        x
    }

    pub fn negative_zero() -> (r: Self)
        ensures
            r@ == 0x8000_0000_0000_0000u64,
            r.spec_is_negative_zero(),
    {
        proof {
            lemma_special_constants();
        }
        let mut x = Self::from_bits(0);
        x.set_sign(1);
        x
    }

    /// The canonical quiet NaN: exponent all ones and only the most
    /// significant fraction bit set.
    pub fn quiet_nan() -> (r: Self)
        ensures
            r@ == 0x7ff8_0000_0000_0000u64,
            r.spec_is_nan(),
            !r.spec_is_signaling_nan(),
    {
        proof {
            lemma_special_constants();
            assert(0x8_0000_0000_0000u64 & (1u64 << 51) != 0) by (bit_vector);
        }
        let mut x = Self::from_bits(0);
        x.set_exponent(EXPONENT_BIT);
        x.set_fraction(1u64 << (EXPONENT_POS - 1));
        x
    }

    /// The width-preserving conversion: the identity on the bit pattern,
    /// so no rounding mode is consulted.
    pub fn to_f64(&self, _rnd: RoundingMode) -> (r: F64)
        ensures
            r@ == self@,
    {
        Self::from_bits(self.to_bits())
    }

    /// Derive the IEEE 754 comparison verdict for `self` and `x` from the
    /// engine's equality and less-than answers `eq` and `lt` for them.
    /// NaN operands compare unordered: the verdict is `None` exactly then.
    pub fn compare_from(&self, x: &Self, eq: bool, lt: bool) -> (r: Option<core::cmp::Ordering>)
        ensures
            r is None <==> (self.spec_is_nan() || x.spec_is_nan()),
            r == (if self.spec_is_nan() || x.spec_is_nan() {
                None::<core::cmp::Ordering>
            } else if eq {
                Some(core::cmp::Ordering::Equal)
            } else if lt {
                Some(core::cmp::Ordering::Less)
            } else {
                Some(core::cmp::Ordering::Greater)
            }),
    {
        if self.is_nan() || x.is_nan() {
            None
        } else if eq {
            Some(core::cmp::Ordering::Equal)
        } else if lt {
            Some(core::cmp::Ordering::Less)
        } else {
            Some(core::cmp::Ordering::Greater)
        }
    }
}

/// How many of the nine disjoint classes a pattern falls in: both zeros,
/// both subnormal classes, both normal classes, both infinities, and NaN.
pub open spec fn spec_classification_count(f: F64) -> int {
    (if f.spec_is_positive_zero() {
        1int
    } else {
        0int
    }) + (if f.spec_is_negative_zero() {
        1int
    } else {
        0int
    }) + (if f.spec_is_positive_subnormal() {
        1int
    } else {
        0int
    }) + (if f.spec_is_negative_subnormal() {
        1int
    } else {
        0int
    }) + (if f.spec_is_positive_normal() {
        1int
    } else {
        0int
    }) + (if f.spec_is_negative_normal() {
        1int
    } else {
        0int
    }) + (if f.spec_is_positive_infinity() {
        1int
    } else {
        0int
    }) + (if f.spec_is_negative_infinity() {
        1int
    } else {
        0int
    }) + (if f.spec_is_nan() {
        1int
    } else {
        0int
    })
}

/// Every bit pattern belongs to exactly one of the nine classes.
pub proof fn lemma_classification_partition(f: F64)
    ensures
        spec_classification_count(f) == 1,
{
    lemma_field_bounds(f@);
}

/// A signaling NaN is in particular a NaN.
pub proof fn lemma_signaling_nan_is_nan(f: F64)
    ensures
        f.spec_is_signaling_nan() ==> f.spec_is_nan(),
{
}

} // verus!
