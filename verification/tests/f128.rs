use softfloat_wrapper::{RoundingMode, F128};
use std::cmp::Ordering;

#[test]
fn f128_round_trip() {
    let patterns: [u128; 9] = [
        0x0000_0000_0000_0000_0000_0000_0000_0000,
        0x0000_0000_0000_0000_0000_0000_0000_0001,
        0x1234_5678_ffff_ffff_ffff_ffff_ffff_ffff,
        0x7ffe_ffff_ffff_ffff_ffff_ffff_ffff_ffff,
        0x7fff_0000_0000_0000_0000_0000_0000_0000,
        0x7fff_8000_0000_0000_0000_0000_0000_0000,
        0x8000_0000_0000_0000_0000_0000_0000_0000,
        0xffff_0000_0000_0000_0000_0000_0000_0000,
        0xffff_ffff_ffff_ffff_ffff_ffff_ffff_ffff,
    ];
    for b in patterns {
        assert_eq!(F128::from_bits(b).bits(), b);
        assert_eq!(F128::from_bits(b).to_bits(), b);
    }
}

#[test]
fn f128_fields() {
    let f = F128::from_bits(0x7ffe_ffff_ffff_ffff_ffff_ffff_ffff_ffff);
    assert_eq!(f.sign(), 0);
    assert_eq!(f.exponent(), 0x7ffe);
    assert_eq!(f.fraction(), 0xffff_ffff_ffff_ffff_ffff_ffff_ffff);

    let f = F128::from_bits(0xc234_5678_0000_0000_0000_0000_0000_0001);
    assert_eq!(f.sign(), 1);
    assert_eq!(f.exponent(), 0x4234);
    assert_eq!(f.fraction(), 0x5678_0000_0000_0000_0000_0000_0001);
}

#[test]
fn f128_classification_cases() {
    assert!(F128::from_bits(0).is_positive_zero());
    assert!(F128::from_bits(0x8000_0000_0000_0000_0000_0000_0000_0000).is_negative_zero());
    assert!(F128::from_bits(1).is_positive_subnormal());
    assert!(F128::from_bits(0x8000_ffff_ffff_ffff_ffff_ffff_ffff_ffff).is_negative_subnormal());
    assert!(F128::from_bits(0x3fff_0000_0000_0000_0000_0000_0000_0000).is_positive_normal());
    assert!(F128::from_bits(0xbfff_0000_0000_0000_0000_0000_0000_0000).is_negative_normal());
    assert!(F128::from_bits(0x7fff_0000_0000_0000_0000_0000_0000_0000).is_positive_infinity());
    assert!(F128::from_bits(0xffff_0000_0000_0000_0000_0000_0000_0000).is_negative_infinity());
    assert!(F128::from_bits(0x7fff_0000_0000_0000_0000_0000_0000_0001).is_nan());
    assert!(F128::from_bits(0xffff_8000_0000_0000_0000_0000_0000_0000).is_nan());
}

#[test]
fn f128_classification_partition_sampled() {
    let mut b: u128 = 0;
    loop {
        let f = F128::from_bits(b);
        let classes = [
            f.is_positive_zero(),
            f.is_negative_zero(),
            f.is_positive_subnormal(),
            f.is_negative_subnormal(),
            f.is_positive_normal(),
            f.is_negative_normal(),
            f.is_positive_infinity(),
            f.is_negative_infinity(),
            f.is_nan(),
        ];
        assert_eq!(classes.iter().filter(|&&c| c).count(), 1);
        match b.checked_add(0x0010_0802_0010_0802_0010_0802_0010_0801) {
            Some(next) => b = next,
            None => break,
        }
    }
}

#[test]
fn f128_set_fields_masking() {
    let mut f = F128::from_bits(0);
    f.set_sign(0xffff_ffff_ffff_ffff_ffff_ffff_ffff_ffff);
    assert_eq!(f.bits(), 0x8000_0000_0000_0000_0000_0000_0000_0000);
    f.set_sign(2);
    assert_eq!(f.bits(), 0);

    let mut f = F128::from_bits(0xffff_ffff_ffff_ffff_ffff_ffff_ffff_ffff);
    f.set_exponent(0);
    assert_eq!(f.bits(), 0x8000_ffff_ffff_ffff_ffff_ffff_ffff_ffff);
    f.set_exponent(0xffff_ffff_ffff_ffff_ffff_ffff_ffff_8001);
    assert_eq!(f.bits(), 0x8001_ffff_ffff_ffff_ffff_ffff_ffff_ffff);

    let mut f = F128::from_bits(0);
    f.set_fraction(0xffff_ffff_ffff_ffff_ffff_ffff_ffff_ffff);
    assert_eq!(f.bits(), 0x0000_ffff_ffff_ffff_ffff_ffff_ffff_ffff);
    f.set_fraction(0x0001_0000_0000_0000_0000_0000_0000_0000);
    assert_eq!(f.bits(), 0);
}

#[test]
fn f128_neg_abs() {
    let pos: u128 = 0x1234_5678_0000_0000_0000_0000_0000_0000;
    let neg: u128 = 0x9234_5678_0000_0000_0000_0000_0000_0000;
    assert_eq!(F128::from_bits(pos).neg().bits(), neg);
    assert_eq!(F128::from_bits(neg).neg().bits(), pos);
    assert_eq!(F128::from_bits(neg).abs().bits(), pos);
    assert_eq!(F128::from_bits(pos).abs().bits(), pos);
}

#[test]
fn f128_special_values() {
    assert_eq!(
        F128::positive_infinity().bits(),
        0x7fff_0000_0000_0000_0000_0000_0000_0000
    );
    assert_eq!(
        F128::negative_infinity().bits(),
        0xffff_0000_0000_0000_0000_0000_0000_0000
    );
    assert_eq!(F128::positive_zero().bits(), 0);
    assert_eq!(
        F128::negative_zero().bits(),
        0x8000_0000_0000_0000_0000_0000_0000_0000
    );
    assert_eq!(
        F128::quiet_nan().bits(),
        0x7fff_8000_0000_0000_0000_0000_0000_0000
    );
    assert!(F128::quiet_nan().is_nan());
    assert!(!F128::quiet_nan().is_signaling_nan());
}

#[test]
fn f128_signaling_nan_bits() {
    let a = F128::from_bits(0x7fff_0000_0000_0000_0000_0000_0000_0001);
    let b = F128::from_bits(0x7fff_8000_0000_0000_0000_0000_0000_0001);
    assert_eq!(a.is_signaling_nan(), true);
    assert_eq!(b.is_signaling_nan(), false);
    assert!(a.is_nan());
    assert!(b.is_nan());
}

#[test]
fn f128_words() {
    let f = F128::from_words(0x1111_2222_3333_4444, 0x5555_6666_7777_8888);
    assert_eq!(f.bits(), 0x5555_6666_7777_8888_1111_2222_3333_4444);
    let (lo, hi) = f.to_words();
    assert_eq!(lo, 0x1111_2222_3333_4444);
    assert_eq!(hi, 0x5555_6666_7777_8888);

    let f = F128::from_bits(0x7fff_0000_0000_0000_0000_0000_0000_0001);
    let (lo, hi) = f.to_words();
    assert_eq!(lo, 1);
    assert_eq!(hi, 0x7fff_0000_0000_0000);
    assert_eq!(F128::from_words(lo, hi).bits(), f.bits());
}

#[test]
fn f128_to_f128_identity() {
    let b: u128 = 0x1234_5678_ffff_ffff_ffff_ffff_ffff_ffff;
    assert_eq!(F128::from_bits(b).to_f128(RoundingMode::TowardZero).bits(), b);
}

#[test]
fn f128_compare_from() {
    let a = F128::from_bits(0x7654_6410_aaaa_aaaa_ffff_ffff_ffff_ffff);
    let b = F128::from_bits(0x1234_5678_ffff_ffff_ffff_ffff_ffff_ffff);
    assert_eq!(a.compare_from(&b, false, false), Some(Ordering::Greater));
    assert_eq!(b.compare_from(&a, false, true), Some(Ordering::Less));
    assert_eq!(b.compare_from(&b, true, false), Some(Ordering::Equal));

    let n = F128::from_bits(0x7fff_8000_0000_0000_0000_0000_0000_0000);
    assert_eq!(n.compare_from(&b, false, false), None);
    assert_eq!(b.compare_from(&n, true, true), None);
}
