use pulsebridge::phrase::{
    phrase_for_state, phrase_is_stale, status_message, MusicState, ObservationBits, PhraseKind,
    PhraseProvenance, PhraseRouter, PhraseTracker, MAX_OBSERVATIONS,
};

fn sample(energy: f32) -> ObservationBits {
    ObservationBits {
        energy: energy.to_bits(),
        onset: 0.7_f32.to_bits(),
        bass: 0.8_f32.to_bits(),
        mids: 0.45_f32.to_bits(),
        highs: 0.3_f32.to_bits(),
    }
}

#[test]
fn inferred_provider_uses_bounded_history_and_dwell() {
    let mut tracker = PhraseTracker::with_dwell(0, 2_000, 8_000);
    tracker.observe(1_000, sample(0.8));
    tracker.advance(1_000, MusicState::Build, 3, true, false, false);
    assert_eq!(tracker.current_kind(), PhraseKind::Intro);
    tracker.observe(3_000, sample(0.8));
    let changed = tracker.advance(3_000, MusicState::Build, 4, true, true, false);
    assert!(changed);
    assert_eq!(tracker.current_kind(), PhraseKind::Up);
    for index in 0..400 {
        let now = 4_000 + index * 250;
        tracker.observe(now, sample(0.8));
        tracker.advance(now, MusicState::Build, 3, true, false, false);
    }
    assert_eq!(tracker.observation_count(), MAX_OBSERVATIONS);
}

#[test]
fn structure_model_locks_without_claiming_a_rekordbox_track_identity() {
    let mut tracker = PhraseTracker::new(0);
    for index in 0..40 {
        let now = index * 250;
        if tracker.observe(now, sample(0.7)) && tracker.signature_due() {
            tracker.record_signature(&[22, 16, 25, 14, 9, 19]);
        }
    }
    assert!(tracker.structure_signature().is_some());
    let first = tracker.structure_signature();
    tracker.record_signature(&[0, 0, 0, 0, 0, 0]);
    assert_eq!(tracker.structure_signature(), first);
    assert_eq!(
        status_message(PhraseProvenance::AudioInferred, phrase_is_stale(0), true),
        "Live structure model ready"
    );
}

#[test]
fn observations_are_sampled_at_most_every_quarter_second() {
    let mut tracker = PhraseTracker::new(0);
    assert!(tracker.observe(0, sample(0.1)));
    assert!(!tracker.observe(100, sample(0.2)));
    assert!(tracker.observe(250, sample(0.3)));
    assert_eq!(tracker.observation_count(), 2);
    assert_eq!(tracker.observation(1), sample(0.3));
}

#[test]
fn phrases_hold_for_the_minimum_dwell() {
    let mut tracker = PhraseTracker::with_dwell(0, 8_000, 28_000);
    assert!(!tracker.advance(1_000, MusicState::Impact, 4, true, true, true));
    assert_eq!(tracker.current_kind(), PhraseKind::Intro);
    assert!(tracker.advance(9_000, MusicState::Impact, 8, true, true, true));
    assert_eq!(tracker.current_kind(), PhraseKind::Chorus);
    assert_eq!(tracker.phrase_index(), 1);
    assert_eq!(tracker.phrase_start_ms(), 9_000);
}

#[test]
fn the_longest_dwell_forces_a_change_without_a_steady_beat() {
    let mut tracker = PhraseTracker::with_dwell(0, 8_000, 28_000);
    assert!(tracker.advance(28_000, MusicState::Quiet, 1, false, false, false));
    assert_eq!(tracker.phrase_index(), 1);
}

#[test]
fn quiet_passages_open_and_close_and_breakdowns_bridge() {
    assert_eq!(phrase_for_state(MusicState::Quiet, 0), PhraseKind::Intro);
    assert_eq!(phrase_for_state(MusicState::Quiet, 2), PhraseKind::Down);
    assert_eq!(phrase_for_state(MusicState::Breakdown, 3), PhraseKind::Bridge);
    assert_eq!(phrase_for_state(MusicState::Breakdown, 4), PhraseKind::Down);
}

#[test]
fn stale_external_metadata_degrades_to_inferred() {
    let external = ("external", PhraseProvenance::Rekordbox, 8_000);
    assert_eq!(PhraseRouter::select(Some(external), "inferred"), "inferred");
    let fresh = ("external", PhraseProvenance::Rekordbox, 1_000);
    assert_eq!(PhraseRouter::select(Some(fresh), "inferred"), "external");
    let unavailable = ("external", PhraseProvenance::Unavailable, 0);
    assert_eq!(PhraseRouter::select(Some(unavailable), "inferred"), "inferred");
}

#[test]
fn status_messages_name_the_phrase_source() {
    assert_eq!(
        status_message(PhraseProvenance::Rekordbox, false, false),
        "Live Rekordbox phrase metadata"
    );
    assert_eq!(
        status_message(PhraseProvenance::CueMarkers, true, false),
        "Phrase source is stale; holding the current scene briefly"
    );
    assert_eq!(
        status_message(PhraseProvenance::Unavailable, true, false),
        "Phrase direction unavailable"
    );
    assert!(phrase_is_stale(2_001));
    assert!(!phrase_is_stale(2_000));
}
