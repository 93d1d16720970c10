use softfloat_wrapper::{RoundingMode, F32};
use std::cmp::Ordering;

#[test]
fn f32_round_trip() {
    let patterns: [u32; 9] = [
        0x0000_0000,
        0x0000_0001,
        0x1234_5678,
        0x7f7f_ffff,
        0x7f80_0000,
        0x7fc0_0000,
        0x8000_0000,
        0xff80_0000,
        0xffff_ffff,
    ];
    for b in patterns {
        assert_eq!(F32::from_bits(b).bits(), b);
        assert_eq!(F32::from_bits(b).to_bits(), b);
    }
}

#[test]
fn f32_fields() {
    let f = F32::from_bits(0x7f7f_ffff);
    assert_eq!(f.sign(), 0);
    assert_eq!(f.exponent(), 0xfe);
    assert_eq!(f.fraction(), 0x7f_ffff);

    let f = F32::from_bits(0xc234_5678);
    assert_eq!(f.sign(), 1);
    assert_eq!(f.exponent(), 0x84);
    assert_eq!(f.fraction(), 0x34_5678);
}

#[test]
fn f32_classification_cases() {
    assert!(F32::from_bits(0x0000_0000).is_positive_zero());
    assert!(F32::from_bits(0x8000_0000).is_negative_zero());
    assert!(F32::from_bits(0x0000_0001).is_positive_subnormal());
    assert!(F32::from_bits(0x807f_ffff).is_negative_subnormal());
    assert!(F32::from_bits(0x3f80_0000).is_positive_normal());
    assert!(F32::from_bits(0xbf80_0000).is_negative_normal());
    assert!(F32::from_bits(0x7f80_0000).is_positive_infinity());
    assert!(F32::from_bits(0xff80_0000).is_negative_infinity());
    assert!(F32::from_bits(0x7f80_0001).is_nan());
    assert!(F32::from_bits(0xffc0_0000).is_nan());
}

#[test]
fn f32_classification_partition_sampled() {
    let mut b: u32 = 0;
    loop {
        let f = F32::from_bits(b);
        let classes = [
            f.is_positive_zero(),
            f.is_negative_zero(),
            f.is_positive_subnormal(),
            f.is_negative_subnormal(),
            f.is_positive_normal(),
            f.is_negative_normal(),
            f.is_positive_infinity(),
            f.is_negative_infinity(),
            f.is_nan(),
        ];
        assert_eq!(classes.iter().filter(|&&c| c).count(), 1);
        match b.checked_add(0x0001_0101) {
            Some(next) => b = next,
            None => break,
        }
    }
}

#[test]
fn f32_set_fields_masking() {
    let mut f = F32::from_bits(0x0000_0000);
    f.set_sign(0xffff_ffff);
    assert_eq!(f.bits(), 0x8000_0000);
    f.set_sign(0x0000_0002);
    assert_eq!(f.bits(), 0x0000_0000);

    let mut f = F32::from_bits(0xffff_ffff);
    f.set_exponent(0x0000_0000);
    assert_eq!(f.bits(), 0x807f_ffff);
    f.set_exponent(0xffff_ff01);
    assert_eq!(f.bits(), 0x80ff_ffff);

    let mut f = F32::from_bits(0x0000_0000);
    f.set_fraction(0xffff_ffff);
    assert_eq!(f.bits(), 0x007f_ffff);
    f.set_fraction(0x0080_0000);
    assert_eq!(f.bits(), 0x0000_0000);
}

#[test]
fn f32_neg_abs() {
    assert_eq!(F32::from_bits(0x1234_5678).neg().bits(), 0x9234_5678);
    assert_eq!(F32::from_bits(0x9234_5678).neg().bits(), 0x1234_5678);
    assert_eq!(F32::from_bits(0x9234_5678).abs().bits(), 0x1234_5678);
    assert_eq!(F32::from_bits(0x1234_5678).abs().bits(), 0x1234_5678);
}

#[test]
fn f32_special_values() {
    assert_eq!(F32::positive_infinity().bits(), 0x7f80_0000);
    assert_eq!(F32::negative_infinity().bits(), 0xff80_0000);
    assert_eq!(F32::positive_zero().bits(), 0x0000_0000);
    assert_eq!(F32::negative_zero().bits(), 0x8000_0000);
    assert_eq!(F32::quiet_nan().bits(), 0x7fc0_0000);
    assert!(F32::quiet_nan().is_nan());
    assert!(!F32::quiet_nan().is_signaling_nan());
}

#[test]
fn f32_signaling_nan_bits() {
    let a = F32::from_bits(0x7f80_0001);
    let b = F32::from_bits(0x7fc0_0001);
    assert_eq!(a.is_signaling_nan(), true);
    assert_eq!(b.is_signaling_nan(), false);
    assert!(a.is_nan());
    assert!(b.is_nan());
    assert!(!F32::from_bits(0x7f80_0000).is_signaling_nan());
}

#[test]
fn f32_to_bf16_truncates() {
    assert_eq!(
        F32::from_bits(0x3dcc_cccd).to_bf16(RoundingMode::TiesToEven).bits(),
        0x3dcc
    );
    assert_eq!(
        F32::from_bits(0x3dcc_ffff).to_bf16(RoundingMode::TiesToEven).bits(),
        0x3dcc
    );
    assert_eq!(
        F32::from_bits(0xffff_ffff).to_bf16(RoundingMode::TowardPositive).bits(),
        0xffff
    );
    assert_eq!(
        F32::from_bits(0x0000_ffff).to_bf16(RoundingMode::TiesToEven).bits(),
        0x0000
    );
    let mut x: u32 = 0;
    loop {
        let expected = (x >> 16) as u16;
        assert_eq!(F32::from_bits(x).to_bf16(RoundingMode::TiesToEven).bits(), expected);
        match x.checked_add(0x0001_0007) {
            Some(next) => x = next,
            None => break,
        }
    }
}

#[test]
fn f32_to_f32_identity() {
    let f = F32::from_bits(0x1234_5678);
    assert_eq!(f.to_f32(RoundingMode::TowardNegative).bits(), 0x1234_5678);
}

#[test]
fn f32_compare_from() {
    let a = F32::from_bits(0x7654_3210);
    let b = F32::from_bits(0x1234_5678);
    assert_eq!(a.compare_from(&b, false, false), Some(Ordering::Greater));
    assert_eq!(b.compare_from(&a, false, true), Some(Ordering::Less));
    assert_eq!(b.compare_from(&b, true, false), Some(Ordering::Equal));

    let n = F32::from_bits(0x7fc0_0000);
    assert_eq!(n.compare_from(&b, false, false), None);
    assert_eq!(b.compare_from(&n, true, true), None);
}
