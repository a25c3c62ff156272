use display_link::time::{from_secs_bits, NanoDuration, TimeError, NANOS_PER_SEC};

#[test]
fn negative_input_underflows() {
    assert_eq!(from_secs_bits((-0.001f64).to_bits()), Err(TimeError::Underflow));
    assert_eq!(from_secs_bits((-1.0f64).to_bits()), Err(TimeError::Underflow));
}

#[test]
fn non_finite_input_is_rejected() {
    assert_eq!(from_secs_bits(f64::INFINITY.to_bits()), Err(TimeError::NonFinite));
    assert_eq!(from_secs_bits(f64::NEG_INFINITY.to_bits()), Err(TimeError::NonFinite));
    assert_eq!(from_secs_bits(f64::NAN.to_bits()), Err(TimeError::NonFinite));
}

#[test]
fn one_and_a_half_seconds_is_exact() {
    let d = from_secs_bits((1.5f64).to_bits()).unwrap();
    assert_eq!(d.secs, 1);
    assert_eq!(d.subsec_nanos, 500_000_000);
}

#[test]
fn zero_and_negative_zero_convert_to_zero() {
    let d = from_secs_bits((0.0f64).to_bits()).unwrap();
    assert_eq!((d.secs, d.subsec_nanos), (0, 0));
    let d = from_secs_bits((-0.0f64).to_bits()).unwrap();
    assert_eq!((d.secs, d.subsec_nanos), (0, 0));
}

#[test]
fn sub_nanosecond_values_floor_to_zero() {
    // the smallest positive binary64 value is far below one nanosecond
    let d = from_secs_bits(1u64).unwrap();
    assert_eq!((d.secs, d.subsec_nanos), (0, 0));
    let d = from_secs_bits((1.0e-10f64).to_bits()).unwrap();
    assert_eq!((d.secs, d.subsec_nanos), (0, 0));
}

#[test]
fn sixteen_milliseconds_floor_to_whole_nanoseconds() {
    let d = from_secs_bits((0.016f64).to_bits()).unwrap();
    assert_eq!(d.secs, 0);
    assert_eq!(d.subsec_nanos, 16_000_000);
}

#[test]
fn ten_seconds_is_exact() {
    let d = from_secs_bits((10.0f64).to_bits()).unwrap();
    assert_eq!(d.secs, 10);
    assert_eq!(d.subsec_nanos, 0);
    assert_eq!(d.total_nanos(), 10_000_000_000u128);
}

#[test]
fn large_value_below_the_limit_converts() {
    // 1.8e19 seconds is exactly representable and below 2^64 seconds
    let d = from_secs_bits((1.8e19f64).to_bits()).unwrap();
    assert_eq!(d.secs, 18_000_000_000_000_000_000);
    assert_eq!(d.subsec_nanos, 0);
}

#[test]
fn values_of_two_to_the_sixty_four_seconds_overflow() {
    // 1.9e19 seconds is past the 2^64-second limit
    assert_eq!(from_secs_bits((1.9e19f64).to_bits()), Err(TimeError::Overflow));
    assert_eq!(from_secs_bits((1.0e300f64).to_bits()), Err(TimeError::Overflow));
}

#[test]
fn duration_parts_and_total_agree() {
    let d = NanoDuration::new(2, 250_000_000);
    assert_eq!(d.total_nanos(), 2_250_000_000u128);
    let z = NanoDuration::zero();
    assert_eq!(z.total_nanos(), 0);
    assert!(d.subsec_nanos < NANOS_PER_SEC);
}
