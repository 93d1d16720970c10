use softfloat_wrapper::{RoundingMode, F16};
use std::cmp::Ordering;

#[test]
fn f16_round_trip() {
    let patterns: [u16; 9] = [0x0000, 0x0001, 0x1234, 0x7bff, 0x7c00, 0x7e00, 0x8000, 0xfc00, 0xffff];
    for b in patterns {
        assert_eq!(F16::from_bits(b).bits(), b);
        assert_eq!(F16::from_bits(b).to_bits(), b);
    }
}

#[test]
fn f16_fields() {
    let f = F16::from_bits(0x7bff);
    assert_eq!(f.sign(), 0);
    assert_eq!(f.exponent(), 0x1e);
    assert_eq!(f.fraction(), 0x3ff);

    let f = F16::from_bits(0xc234);
    assert_eq!(f.sign(), 1);
    assert_eq!(f.exponent(), 0x10);
    assert_eq!(f.fraction(), 0x234);
}

#[test]
fn f16_classification_partition() {
    for b in 0..=u16::MAX {
        let f = F16::from_bits(b);
        let classes = [
            f.is_positive_zero(),
            f.is_negative_zero(),
            f.is_positive_subnormal(),
            f.is_negative_subnormal(),
            f.is_positive_normal(),
            f.is_negative_normal(),
            f.is_positive_infinity(),
            f.is_negative_infinity(),
            f.is_nan(),
        ];
        assert_eq!(classes.iter().filter(|&&c| c).count(), 1);
    }
}

#[test]
fn f16_classification_cases() {
    assert!(F16::from_bits(0x0000).is_positive_zero());
    assert!(F16::from_bits(0x8000).is_negative_zero());
    assert!(F16::from_bits(0x0001).is_positive_subnormal());
    assert!(F16::from_bits(0x83ff).is_negative_subnormal());
    assert!(F16::from_bits(0x3c00).is_positive_normal());
    assert!(F16::from_bits(0xbc00).is_negative_normal());
    assert!(F16::from_bits(0x7c00).is_positive_infinity());
    assert!(F16::from_bits(0xfc00).is_negative_infinity());
    assert!(F16::from_bits(0x7c01).is_nan());
    assert!(F16::from_bits(0xfe00).is_nan());
    assert!(F16::from_bits(0x0000).is_zero());
    assert!(F16::from_bits(0x8000).is_zero());
    assert!(!F16::from_bits(0x0001).is_zero());
    assert!(F16::from_bits(0x0001).is_subnormal());
    assert!(F16::from_bits(0x83ff).is_subnormal());
    assert!(!F16::from_bits(0x0000).is_subnormal());
    assert!(!F16::from_bits(0x8000).is_subnormal());
    assert!(!F16::from_bits(0x3c00).is_subnormal());
}

#[test]
fn f16_set_fields_masking() {
    let mut f = F16::from_bits(0x0000);
    f.set_sign(0xffff);
    assert_eq!(f.bits(), 0x8000);
    f.set_sign(0x0002);
    assert_eq!(f.bits(), 0x0000);

    let mut f = F16::from_bits(0xffff);
    f.set_exponent(0x0000);
    assert_eq!(f.bits(), 0x83ff);
    f.set_exponent(0xffe1);
    assert_eq!(f.bits(), 0x87ff);

    let mut f = F16::from_bits(0x0000);
    f.set_fraction(0xffff);
    assert_eq!(f.bits(), 0x03ff);
    f.set_fraction(0x0400);
    assert_eq!(f.bits(), 0x0000);

    let mut f = F16::from_bits(0x1234);
    f.set_payload(0x4321);
    assert_eq!(f.bits(), 0x4321);
}

#[test]
fn f16_neg_abs() {
    assert_eq!(F16::from_bits(0x1234).neg().bits(), 0x9234);
    assert_eq!(F16::from_bits(0x9234).neg().bits(), 0x1234);
    assert_eq!(F16::from_bits(0x9234).abs().bits(), 0x1234);
    assert_eq!(F16::from_bits(0x1234).abs().bits(), 0x1234);
}

#[test]
fn f16_special_values() {
    assert_eq!(F16::positive_infinity().bits(), 0x7c00);
    assert_eq!(F16::negative_infinity().bits(), 0xfc00);
    assert_eq!(F16::positive_zero().bits(), 0x0000);
    assert_eq!(F16::negative_zero().bits(), 0x8000);
    assert_eq!(F16::quiet_nan().bits(), 0x7e00);
    assert!(F16::quiet_nan().is_nan());
}

#[test]
fn f16_to_f16_identity() {
    let f = F16::from_bits(0x1234);
    assert_eq!(f.to_f16(RoundingMode::TiesToEven).bits(), 0x1234);
    assert_eq!(f.to_f16(RoundingMode::TowardZero).bits(), 0x1234);
}

#[test]
fn f16_compare_from() {
    let a = F16::from_bits(0x7654);
    let b = F16::from_bits(0x1234);
    assert_eq!(a.compare_from(&b, false, false), Some(Ordering::Greater));
    assert_eq!(b.compare_from(&a, false, true), Some(Ordering::Less));
    assert_eq!(b.compare_from(&b, true, false), Some(Ordering::Equal));

    let n = F16::from_bits(0x7e00);
    assert_eq!(n.compare_from(&b, false, false), None);
    assert_eq!(b.compare_from(&n, true, true), None);
    assert_eq!(n.compare_from(&n, true, false), None);
}
