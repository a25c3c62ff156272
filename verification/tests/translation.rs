use display_link::anchor::{MonotonicInstant, TranslationAnchor};
use display_link::callback::CallbackState;
use display_link::time::TimeError;
use display_link::{BackendOp, DisplayLink};

#[test]
fn establish_with_native_now_ahead_of_report() {
    let a = TranslationAnchor::establish(
        10_000_000_000,
        12_000_000_000,
        MonotonicInstant::from_nanos(50_000_000_000),
    )
    .unwrap();
    assert_eq!(a.native_reference, 10_000_000_000);
    assert_eq!(a.monotonic_reference.nanos, 48_000_000_000);
}

#[test]
fn establish_with_report_ahead_of_native_now() {
    let a = TranslationAnchor::establish(
        12_000_000_000,
        10_000_000_000,
        MonotonicInstant::from_nanos(50_000_000_000),
    )
    .unwrap();
    assert_eq!(a.native_reference, 12_000_000_000);
    assert_eq!(a.monotonic_reference.nanos, 52_000_000_000);
}

#[test]
fn establish_fails_before_the_monotonic_epoch() {
    let r = TranslationAnchor::establish(0, 10_000_000_000, MonotonicInstant::from_nanos(5));
    assert_eq!(r, Err(TimeError::Underflow));
}

#[test]
fn establish_fails_past_the_monotonic_range() {
    let r = TranslationAnchor::establish(u128::MAX, 0, MonotonicInstant::from_nanos(1));
    assert_eq!(r, Err(TimeError::Overflow));
}

#[test]
fn translate_is_exact_relative_to_anchor() {
    let a = TranslationAnchor::establish(
        10_000_000_000,
        10_000_000_000,
        MonotonicInstant::from_nanos(48_000_000_000),
    )
    .unwrap();
    let inst = a.translate(10_500_000_000, 16_000_000).unwrap();
    // monotonic_reference + (reported + frame_duration - native_reference)
    assert_eq!(inst.nanos, 48_000_000_000 + (10_500_000_000 + 16_000_000 - 10_000_000_000));
}

#[test]
fn translate_fails_before_the_anchor_point() {
    let a = TranslationAnchor::establish(
        10_000_000_000,
        10_000_000_000,
        MonotonicInstant::from_nanos(48_000_000_000),
    )
    .unwrap();
    assert_eq!(a.translate(1_000_000_000, 0), Err(TimeError::Underflow));
}

#[test]
fn translate_fails_past_the_monotonic_range() {
    let a = TranslationAnchor::establish(0, 0, MonotonicInstant::from_nanos(u128::MAX)).unwrap();
    assert_eq!(a.translate(1, 0), Err(TimeError::Overflow));
}

#[test]
fn anchor_is_established_once_across_firings() {
    let mut cb = CallbackState::new();
    assert!(!cb.has_anchor());
    let now = MonotonicInstant::from_nanos(5_000_000_000);
    let first = cb
        .handle_fire(
            (10.0f64).to_bits(),
            (0.25f64).to_bits(),
            (10.0f64).to_bits(),
            now,
        )
        .unwrap();
    assert_eq!(first.nanos, 5_250_000_000);
    let anchor = cb.anchor().unwrap();
    assert_eq!(anchor.native_reference, 10_000_000_000);
    assert_eq!(anchor.monotonic_reference.nanos, 5_000_000_000);

    // later firings hand in other clock readings, which must be ignored:
    // the anchor stays as established and keeps translating
    let second = cb
        .handle_fire(
            (10.25f64).to_bits(),
            (0.25f64).to_bits(),
            (999.0f64).to_bits(),
            MonotonicInstant::from_nanos(777),
        )
        .unwrap();
    assert_eq!(cb.anchor().unwrap(), anchor);
    assert_eq!(second.nanos, 5_500_000_000);

    let third = cb
        .handle_fire(
            (10.5f64).to_bits(),
            (0.25f64).to_bits(),
            (0.0f64).to_bits(),
            MonotonicInstant::from_nanos(0),
        )
        .unwrap();
    assert_eq!(cb.anchor().unwrap(), anchor);
    assert_eq!(third.nanos, 5_750_000_000);
}

#[test]
fn fatal_conversion_leaves_no_anchor() {
    let mut cb = CallbackState::new();
    let now = MonotonicInstant::from_nanos(5_000_000_000);
    let r = cb.handle_fire(
        f64::NAN.to_bits(),
        (0.016f64).to_bits(),
        (10.0f64).to_bits(),
        now,
    );
    assert_eq!(r, Err(TimeError::NonFinite));
    assert!(!cb.has_anchor());
    let r = cb.handle_fire(
        (10.0f64).to_bits(),
        (-0.016f64).to_bits(),
        (10.0f64).to_bits(),
        now,
    );
    assert_eq!(r, Err(TimeError::Underflow));
    assert!(!cb.has_anchor());
}

#[test]
fn full_timer_scenario() {
    let mut log: Vec<BackendOp> = Vec::new();
    let mut dl = DisplayLink::new();
    assert!(dl.is_paused());

    log.push(dl.resume().unwrap());
    assert!(!dl.is_paused());

    let mut cb = CallbackState::new();
    let now = MonotonicInstant::from_nanos(5_000_000_000);
    let inst = cb
        .handle_fire(
            (10.0f64).to_bits(),
            (0.016f64).to_bits(),
            (10.0f64).to_bits(),
            now,
        )
        .unwrap();
    let anchor = cb.anchor().unwrap();
    assert_eq!(anchor.native_reference, 10_000_000_000);
    assert_eq!(anchor.monotonic_reference.nanos, 5_000_000_000);
    assert_eq!(inst.nanos, 5_000_000_000 + 16_000_000);

    log.push(dl.pause().unwrap());
    assert!(dl.is_paused());

    log.extend(dl.shutdown_ops());
    assert_eq!(log, vec![BackendOp::Start, BackendOp::Stop, BackendOp::Teardown]);
}
