use pulsebridge::music_state::{
    dwell_ms, ImpactPhase, MusicStateMachine, TrendBits, HISTORY_FRAMES, IMPACT_HOLD_MS,
};
use pulsebridge::phrase::MusicState;

fn point(energy: f32, highs: f32, onset: f32) -> TrendBits {
    TrendBits { energy: energy.to_bits(), highs: highs.to_bits(), onset: onset.to_bits() }
}

// A frame of energy 0.5 over a slow 0.48 with beat 0.2 suggests a groove and
// scores far below the impact threshold.
#[test]
fn state_changes_require_dwell_time() {
    let mut tracker = MusicStateMachine::new();
    assert_eq!(tracker.step(0, false, MusicState::Groove).0, MusicState::Quiet);
    assert_eq!(tracker.step(400, false, MusicState::Groove).0, MusicState::Quiet);
    assert_eq!(tracker.step(900, false, MusicState::Groove).0, MusicState::Groove);
}

// A full-strength onset inside a build scores past the impact threshold.
#[test]
fn impact_has_a_cooldown() {
    let mut tracker = MusicStateMachine::new();
    let (state, phase) = tracker.step(2_000, true, MusicState::Build);
    assert_eq!(state, MusicState::Impact);
    assert_eq!(phase, ImpactPhase::Triggered);
    let (_, phase) = tracker.step(2_500, true, MusicState::Build);
    assert_eq!(phase, ImpactPhase::Quiet);
}

#[test]
fn musical_history_is_bounded() {
    let mut tracker = MusicStateMachine::new();
    for index in 0..1_000 {
        tracker.record(point(0.4, 0.3, 0.2));
        tracker.step(index * 20, false, MusicState::Flow);
    }
    assert_eq!(tracker.history_len(), HISTORY_FRAMES);
}

#[test]
fn an_impact_holds_and_then_releases() {
    let mut tracker = MusicStateMachine::new();
    assert_eq!(tracker.step(1_000, true, MusicState::Peak).1, ImpactPhase::Triggered);
    assert_eq!(
        tracker.step(1_100, false, MusicState::Peak),
        (MusicState::Impact, ImpactPhase::Holding(IMPACT_HOLD_MS - 100))
    );
    let (state, phase) = tracker.step(1_420, false, MusicState::Peak);
    assert_eq!(phase, ImpactPhase::Quiet);
    assert_eq!(state, MusicState::Impact);
    assert_eq!(tracker.current(), MusicState::Impact);
}

#[test]
fn a_second_impact_needs_more_than_the_cooldown() {
    let mut tracker = MusicStateMachine::new();
    assert_eq!(tracker.step(0, true, MusicState::Peak).1, ImpactPhase::Triggered);
    assert_eq!(tracker.step(1_250, true, MusicState::Peak).1, ImpactPhase::Quiet);
    assert_eq!(tracker.step(1_251, true, MusicState::Peak).1, ImpactPhase::Triggered);
}

#[test]
fn each_state_has_its_own_dwell() {
    assert_eq!(dwell_ms(MusicState::Quiet), 550);
    assert_eq!(dwell_ms(MusicState::Build), 900);
    assert_eq!(dwell_ms(MusicState::Breakdown), 650);
    assert_eq!(dwell_ms(MusicState::Peak), 550);
    assert_eq!(dwell_ms(MusicState::Groove), 800);
    assert_eq!(dwell_ms(MusicState::Flow), 800);
}

#[test]
fn a_changing_suggestion_restarts_the_dwell() {
    let mut tracker = MusicStateMachine::new();
    tracker.step(0, false, MusicState::Build);
    tracker.step(800, false, MusicState::Peak);
    assert_eq!(tracker.step(1_000, false, MusicState::Peak).0, MusicState::Quiet);
    assert_eq!(tracker.step(1_350, false, MusicState::Peak).0, MusicState::Peak);
}

#[test]
fn trend_history_drops_its_oldest_frame() {
    let mut tracker = MusicStateMachine::new();
    for index in 0..HISTORY_FRAMES + 1 {
        tracker.record(point(index as f32, 0.0, 0.0));
    }
    assert_eq!(tracker.history_at(0).energy, 1.0_f32.to_bits());
    assert_eq!(tracker.history_at(HISTORY_FRAMES - 1).energy, (HISTORY_FRAMES as f32).to_bits());
}
