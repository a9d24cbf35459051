use pulsebridge::spectacle::SpectacleTrigger;

/// The facts of a frame: energy 0.9 throughout; `impact` and the beat
/// confidence vary, and `chill` or a reactivity of zero disable the gesture.
fn frame(impact: f32, beat_confidence: f32, reactivity: f32, chill: bool) -> (bool, bool, bool) {
    let energy = 0.9_f32;
    (
        impact < 0.25,
        !(reactivity < 0.2 || chill),
        impact > 0.72 && energy > 0.55 && beat_confidence >= 0.5,
    )
}

fn update(trigger: &mut SpectacleTrigger, now_ms: i64, facts: (bool, bool, bool)) -> Option<i64> {
    trigger.update(now_ms, facts.0, facts.1, facts.2)
}

#[test]
fn spectacle_requires_confidence_rearms_and_obeys_cooldown() {
    let mut event = SpectacleTrigger::new();
    assert_eq!(update(&mut event, 0, frame(1.0, 0.1, 1.0, false)), None);
    assert_eq!(update(&mut event, 1_000, frame(1.0, 0.9, 1.0, false)), Some(1_000));
    assert_eq!(update(&mut event, 2_000, frame(1.0, 0.9, 1.0, false)), Some(1_000));
    // A sustained impact does not fire again: the gesture of 1 s has ended.
    assert_eq!(update(&mut event, 30_000, frame(1.0, 0.9, 1.0, false)), Some(1_000));
    update(&mut event, 31_000, frame(0.0, 0.9, 1.0, false));
    assert_eq!(update(&mut event, 32_000, frame(1.0, 0.9, 1.0, false)), Some(32_000));
    assert_eq!(update(&mut event, 33_000, frame(1.0, 0.9, 1.0, false)), Some(32_000));
    update(&mut event, 34_000, frame(0.0, 0.9, 1.0, false));
    // Re-armed, but within the cooldown.
    assert_eq!(update(&mut event, 40_000, frame(1.0, 0.9, 1.0, false)), Some(32_000));
    assert_eq!(update(&mut event, 60_000, frame(1.0, 0.9, 1.0, true)), None);
    assert_eq!(update(&mut event, 61_000, frame(1.0, 0.9, 0.0, false)), None);
}

#[test]
fn a_disabled_gesture_can_fire_again_once_enabled() {
    let mut event = SpectacleTrigger::new();
    assert_eq!(update(&mut event, 0, frame(1.0, 0.9, 1.0, true)), None);
    assert_eq!(update(&mut event, 100, frame(1.0, 0.9, 1.0, false)), Some(100));
}

#[test]
fn a_disabled_frame_cancels_the_gesture_in_progress() {
    let mut trigger = SpectacleTrigger::new();
    assert_eq!(trigger.update(1_000, false, true, true), Some(1_000));
    assert_eq!(trigger.update(2_000, false, true, false), Some(1_000));
    assert_eq!(trigger.update(3_000, true, false, true), None);
    assert_eq!(trigger.update(4_000, false, true, false), None);
}
