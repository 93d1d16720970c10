use softfloat_wrapper::{ExceptionFlags, RoundingMode};

#[test]
fn rounding_mode_codes() {
    assert_eq!(RoundingMode::TiesToEven.to_softfloat(), 0);
    assert_eq!(RoundingMode::TowardZero.to_softfloat(), 1);
    assert_eq!(RoundingMode::TowardNegative.to_softfloat(), 2);
    assert_eq!(RoundingMode::TowardPositive.to_softfloat(), 3);
    assert_eq!(RoundingMode::TiesToAway.to_softfloat(), 4);
}

#[test]
fn flags_round_trip() {
    for b in 0..=u8::MAX {
        assert_eq!(ExceptionFlags::from_bits(b).bits(), b);
    }
}

#[test]
fn flags_default_clear() {
    let f = ExceptionFlags::default();
    assert_eq!(f.bits(), 0);
    assert!(!f.is_inexact());
    assert!(!f.is_infinite());
    assert!(!f.is_invalid());
    assert!(!f.is_overflow());
    assert!(!f.is_underflow());
}

#[test]
fn flags_single_bits() {
    let f = ExceptionFlags::from_bits(0x01);
    assert!(f.is_inexact());
    assert!(!f.is_infinite() && !f.is_invalid() && !f.is_overflow() && !f.is_underflow());

    let f = ExceptionFlags::from_bits(0x02);
    assert!(f.is_underflow());
    assert!(!f.is_inexact() && !f.is_infinite() && !f.is_invalid() && !f.is_overflow());

    let f = ExceptionFlags::from_bits(0x04);
    assert!(f.is_overflow());
    assert!(!f.is_inexact() && !f.is_infinite() && !f.is_invalid() && !f.is_underflow());

    let f = ExceptionFlags::from_bits(0x08);
    assert!(f.is_infinite());
    assert!(!f.is_inexact() && !f.is_invalid() && !f.is_overflow() && !f.is_underflow());

    let f = ExceptionFlags::from_bits(0x10);
    assert!(f.is_invalid());
    assert!(!f.is_inexact() && !f.is_infinite() && !f.is_overflow() && !f.is_underflow());
}

#[test]
fn flags_inexact_overflow_together() {
    // The sticky register after an operation that overflows: the engine
    // raises inexact and overflow in one go, and nothing else.
    let f = ExceptionFlags::from_bits(0x05);
    assert!(f.is_inexact());
    assert!(f.is_overflow());
    assert!(!f.is_infinite());
    assert!(!f.is_invalid());
    assert!(!f.is_underflow());
}

#[test]
fn flags_invalid_alone() {
    // The sticky register after an invalid operation on cleared flags.
    let f = ExceptionFlags::from_bits(0x10);
    assert!(f.is_invalid());
    assert!(!f.is_inexact());
    assert!(!f.is_infinite());
    assert!(!f.is_overflow());
    assert!(!f.is_underflow());
}

#[test]
fn flags_inexact_underflow_together() {
    // The sticky register after an operation that underflows to a tiny
    // inexact result: inexact and underflow together.
    let f = ExceptionFlags::from_bits(0x03);
    assert!(f.is_inexact());
    assert!(f.is_underflow());
    assert!(!f.is_infinite());
    assert!(!f.is_invalid());
    assert!(!f.is_overflow());
}

#[test]
fn flags_all_set() {
    let f = ExceptionFlags::from_bits(0x1f);
    assert!(f.is_inexact());
    assert!(f.is_infinite());
    assert!(f.is_invalid());
    assert!(f.is_overflow());
    assert!(f.is_underflow());
}
