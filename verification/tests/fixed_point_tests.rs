use risk_engine::errors::DomainError;
use risk_engine::fixed_point::{from_decimal, to_decimal, MICRO};

#[test]
fn test_u256_to_f64() {
    // 1 USDC in raw units at 6 decimals is exactly 1.0
    let result = to_decimal(1_000_000, 6);
    assert_eq!(result, MICRO);
}

#[test]
fn test_u256_to_f64_and_back() {
    // 123.456 in micros
    let original: i128 = 123_456_000;
    let decimals = 6;
    let raw = from_decimal(original, decimals).unwrap();
    let back = to_decimal(raw, decimals);
    assert!((original - back as i128).abs() < 1);
}

#[test]
fn test_round_trip_eighteen_decimals() {
    let original: i128 = 123_456_000;
    let raw = from_decimal(original, 18).unwrap();
    assert_eq!(raw, 123_456_000_000_000_000_000);
    assert_eq!(to_decimal(raw, 18) as i128, original);
}

#[test]
fn test_round_trip_oracle_decimals() {
    // an oracle price at 8 decimals
    let original: i128 = 2_000_000_000;
    let raw = from_decimal(original, 8).unwrap();
    assert_eq!(raw, 200_000_000_000);
    assert_eq!(to_decimal(raw, 8) as i128, original);
}

#[test]
fn test_round_trip_zero_decimals_needs_whole_units() {
    // a whole number of units survives a zero-decimal round trip
    let original: i128 = 42_000_000;
    let raw = from_decimal(original, 0).unwrap();
    assert_eq!(raw, 42);
    assert_eq!(to_decimal(raw, 0) as i128, original);
}

#[test]
fn test_from_decimal_rounds_half_away_from_zero() {
    // 1.5 at zero decimals rounds to 2
    assert_eq!(from_decimal(1_500_000, 0).unwrap(), 2);
    // 1.4999995 at 6 decimals rounds to 1_500_000 raw units
    assert_eq!(from_decimal(1_499_999, 6).unwrap(), 1_499_999);
    // half a micro at zero decimals rounds up to a whole raw unit at 6 decimals
    assert_eq!(from_decimal(500_000, 0).unwrap(), 1);
}

#[test]
fn test_from_decimal_rejects_negative() {
    assert_eq!(from_decimal(-1, 6), Err(DomainError::NegativeValue));
    assert_eq!(from_decimal(-1_000_000, 0), Err(DomainError::NegativeValue));
}

#[test]
fn test_to_decimal_full_range() {
    // the widest machine amount converts without loss beyond a micro
    assert_eq!(
        to_decimal(u128::MAX, 18),
        340_282_366_920_938_463_463_374_607
    );
    assert_eq!(
        to_decimal(u128::MAX, 12),
        340_282_366_920_938_463_463_374_607_431_768
    );
    assert_eq!(to_decimal(u128::MAX, 6), u128::MAX);
}

#[test]
fn test_to_decimal_truncates_below_one_micro() {
    // 1 raw unit at 18 decimals is below one micro and truncates to zero
    assert_eq!(to_decimal(1, 18), 0);
    // 1.5 raw units' worth at 6 decimals keeps every micro
    assert_eq!(to_decimal(1_500_000, 6), 1_500_000);
}
