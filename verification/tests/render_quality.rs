use pulsebridge::quality::{AdaptiveQuality, MAX_TIER};

/// A frame time in seconds as whole microseconds.
fn micros(seconds: f64) -> u64 {
    (seconds * 1_000_000.0).round() as u64
}

#[test]
fn sustained_overload_falls_back_and_recovers_slowly() {
    let mut quality = AdaptiveQuality::new();
    quality.observe(micros(0.080));
    assert_eq!(quality.detail_percent(0), 100);
    for _ in 0..120 {
        quality.observe(micros(0.03));
    }
    assert_eq!(quality.render_size(3840, 2160, 0), (960, 540));
    for _ in 0..600 {
        quality.observe(micros(1.0 / 60.0));
    }
    assert_eq!(quality.detail_percent(0), 0);
    for _ in 0..650 {
        quality.observe(micros(1.0 / 60.0));
    }
    assert_eq!(quality.detail_percent(0), 50);
    assert_eq!(quality.render_size(3840, 2160, 0), (1280, 720));
}

#[test]
fn transitions_bound_work_and_invalid_timing_cannot_change_quality() {
    let mut quality = AdaptiveQuality::new();
    // Not a number, infinity, negative and ten seconds are not plausible
    // frame times: none of them reaches the tracker as a plausible interval.
    for value in [0, u64::MAX, 999, 10_000_000] {
        quality.observe(value);
    }
    assert_eq!(quality.tier(), 0);
    assert_eq!(quality.detail_percent(1), 50);
    assert_eq!(quality.detail_percent(2), 0);
    assert_eq!(quality.render_size(3840, 2160, 2), (960, 540));
    assert_eq!(quality.render_size(3840, 2160, 1), (1280, 720));
    assert_eq!(quality.render_size(1920, 1080, 0), (1920, 1080));
    assert_eq!(quality.render_size(0, 0, 0), (1, 1));
}

#[test]
fn one_slow_frame_does_not_lower_quality() {
    let mut quality = AdaptiveQuality::new();
    quality.observe(micros(0.5));
    assert_eq!(quality.tier(), 0);
    for _ in 0..15 {
        quality.observe(micros(0.1));
    }
    assert_eq!(quality.tier(), 1);
    for _ in 0..100 {
        quality.observe(micros(0.2));
    }
    assert_eq!(quality.tier(), MAX_TIER);
}

#[test]
fn odd_sides_round_to_the_nearest_pixel() {
    let mut quality = AdaptiveQuality::new();
    for _ in 0..15 {
        quality.observe(100_000);
    }
    assert_eq!(quality.render_size(1001, 7, 0), (667, 5));
    assert_eq!(quality.render_size(1, 1, 0), (1, 1));
    assert_eq!(quality.render_size(1001, 7, 2), (501, 4));
}
