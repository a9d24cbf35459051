use std::collections::HashSet;

use pulsebridge::director::{
    all_illusions, candidates_for_phrase, mix_seed, modifier_compatible, modifier_for_phrase,
    palette_for_music, phrase_for_music_state, stable_hash, ModifierKind, SceneReason,
    SceneSelection, VisualFamily,
};
use pulsebridge::phrase::{MusicState, PhraseKind, PhraseProvenance};
use pulsebridge::scene_director::{
    envelope_stage, modifier_expired, modifier_slots, total_order_key, transition_duration_ms,
    ActiveModifier, Direction, EnvelopeStage, FrameFacts, PhraseInput, SceneDirector, SceneStep,
    HISTORY_LIMIT,
};
use pulsebridge::visual_settings::{IntensityProfile, PaletteName, VisualStyle};

fn quiet_facts() -> FrameFacts {
    FrameFacts {
        state: MusicState::Quiet,
        steady_beat: false,
        transition_moment: false,
        drop_energy: false,
        modifier_trigger: false,
        impact_over_wild: false,
        impact_over_balanced: false,
    }
}

fn no_phrase() -> PhraseInput {
    PhraseInput {
        provenance: PhraseProvenance::Unavailable,
        segment: None,
        confident: false,
        age_ms: 0,
        stable_track_id: None,
        structure_signature: None,
    }
}

fn inferred(kind: PhraseKind, index: u64) -> PhraseInput {
    PhraseInput {
        provenance: PhraseProvenance::AudioInferred,
        segment: Some((kind, index)),
        confident: true,
        age_ms: 0,
        stable_track_id: None,
        structure_signature: None,
    }
}

/// Ordering keys for the candidates of a direction when every scene fits
/// the music equally well: only the deterministic tie-break separates them.
fn tie_keys(director: &SceneDirector, direction: &Direction) -> Vec<i64> {
    candidates_for_phrase(direction.kind)
        .iter()
        .map(|family| {
            let score = director.tiebreak(direction.key, *family) as f32 * 0.00018;
            total_order_key(score.to_bits())
        })
        .collect()
}

fn update(
    director: &mut SceneDirector,
    now_ms: i64,
    facts: &FrameFacts,
    phrase: &PhraseInput,
    style: VisualStyle,
    intensity: IntensityProfile,
) -> SceneStep {
    let direction = director.direct(now_ms, facts.state, phrase, style);
    let keys = tie_keys(director, &direction);
    let desired = director.choose_scene(&direction, style, &keys);
    director.step(now_ms, &direction, desired, style, facts, intensity, 1)
}

#[test]
fn recent_scene_history_is_bounded() {
    let mut director = SceneDirector::new(1);
    for index in 0..32 {
        director.remember(VisualFamily::LiquidCircuit, None, index);
    }
    assert_eq!(director.recent_len(), HISTORY_LIMIT);
}

#[test]
fn repeated_scenes_are_remembered_once() {
    let mut director = SceneDirector::new(1);
    director.remember(VisualFamily::LiquidCircuit, None, 7);
    director.remember(VisualFamily::LiquidCircuit, None, 7);
    assert_eq!(director.recent_len(), 1);
}

#[test]
fn auto_library_contains_thirty_two_distinct_scenes() {
    let library = all_illusions();
    let distinct = library.iter().copied().collect::<HashSet<_>>();
    assert_eq!(library.len(), 32);
    assert_eq!(distinct.len(), library.len());
    assert!(library.iter().all(|family| family.number() < 32));
}

#[test]
fn a_primary_is_not_selected_for_a_third_consecutive_phrase() {
    let mut director = SceneDirector::new(33);
    let direction = Direction {
        kind: PhraseKind::Intro,
        key: 19,
        reason: SceneReason::InferredState,
        manual: false,
        palette_key: 0,
    };
    let keys = tie_keys(&director, &direction);
    let repeated = director.choose_primary(PhraseKind::Intro, &keys);
    director.remember(repeated, None, 1);
    director.remember(repeated, None, 2);
    assert_ne!(director.choose_primary(PhraseKind::Intro, &keys), repeated);
}

#[test]
fn library_is_reachable_and_composition_varies() {
    let mut reachable = HashSet::new();
    for kind in [
        PhraseKind::Intro,
        PhraseKind::Verse,
        PhraseKind::Up,
        PhraseKind::Chorus,
        PhraseKind::Down,
        PhraseKind::Bridge,
    ] {
        reachable.extend(candidates_for_phrase(kind).iter().copied());
    }
    assert_eq!(reachable.len(), 32);
    let mut director = SceneDirector::new(71);
    director.remember(VisualFamily::LiquidRelic, None, 1);
    for key in 0..50 {
        let direction = Direction {
            kind: PhraseKind::Chorus,
            key,
            reason: SceneReason::InferredState,
            manual: false,
            palette_key: 0,
        };
        let keys = tie_keys(&director, &direction);
        assert_ne!(
            director.choose_primary(PhraseKind::Chorus, &keys).composition(),
            VisualFamily::LiquidRelic.composition()
        );
    }
    for family in all_illusions().into_iter().filter(|family| family.is_spatial()) {
        assert!(!modifier_compatible(family, ModifierKind::MirrorFold));
        assert!(!modifier_compatible(family, ModifierKind::ChromaticSplit));
        assert!(modifier_compatible(family, ModifierKind::PaletteDrift));
    }
}

#[test]
fn the_best_score_wins_and_ties_go_to_the_later_candidate() {
    let director = SceneDirector::new(5);
    let count = candidates_for_phrase(PhraseKind::Bridge).len();
    let mut keys = vec![0_i64; count];
    keys[2] = 10;
    assert_eq!(
        director.choose_primary(PhraseKind::Bridge, &keys),
        candidates_for_phrase(PhraseKind::Bridge)[2]
    );
    let equal = vec![3_i64; count];
    assert_eq!(
        director.choose_primary(PhraseKind::Bridge, &equal),
        candidates_for_phrase(PhraseKind::Bridge)[count - 1]
    );
}

#[test]
fn tron_selections_round_trip_and_remain_held() {
    let choices = [
        (SceneSelection::Tron, "tron"),
        (SceneSelection::TronGridHighway, "tronGridHighway"),
        (SceneSelection::TronLightTrails, "tronLightTrails"),
        (SceneSelection::TronLaserGates, "tronLaserGates"),
        (SceneSelection::TronHexCorridor, "tronHexCorridor"),
        (SceneSelection::TronIdentityDiscs, "tronIdentityDiscs"),
        (SceneSelection::TronCircuitBoard, "tronCircuitBoard"),
        (SceneSelection::TronNeonArena, "tronNeonArena"),
        (SceneSelection::TronSolarSails, "tronSolarSails"),
        (SceneSelection::TronDigitalCity, "tronDigitalCity"),
        (SceneSelection::TronHelixDrive, "tronHelixDrive"),
        (SceneSelection::TronDataRain, "tronDataRain"),
        (SceneSelection::TronReactorIris, "tronReactorIris"),
    ];
    for (index, (selection, key)) in choices.iter().enumerate() {
        assert_eq!(selection.wire_name(), *key);
        let mut director = SceneDirector::new(45);
        director.set_focus(*selection);
        for time in [0, 20_000, 100_000] {
            let plan = update(
                &mut director,
                time,
                &quiet_facts(),
                &no_phrase(),
                VisualStyle::Auto,
                IntensityProfile::Balanced,
            );
            assert_eq!(plan.primary.number(), 32 + index as u32);
            assert!(plan.secondary.is_none());
        }
        director.set_focus(SceneSelection::Auto);
        assert!(director.focus().is_none());
    }
}

#[test]
fn held_scene_survives_phrases_and_can_return_to_auto() {
    let facts = quiet_facts();
    let phrase = no_phrase();
    let mut director = SceneDirector::new(45);
    director.set_focus(SceneSelection::LiquidRelic);
    for time in [0, 10_000, 100_000] {
        let plan = update(&mut director, time, &facts, &phrase, VisualStyle::Auto, IntensityProfile::Balanced);
        assert_eq!(plan.primary, VisualFamily::LiquidRelic);
        assert!(plan.secondary.is_none());
    }
    director.set_focus(SceneSelection::MagneticSwarm);
    update(&mut director, 101_000, &facts, &phrase, VisualStyle::Auto, IntensityProfile::Balanced);
    let plan = update(&mut director, 105_000, &facts, &phrase, VisualStyle::Auto, IntensityProfile::Balanced);
    assert_eq!(plan.primary, VisualFamily::MagneticSwarm);
    director.set_focus(SceneSelection::Auto);
    update(&mut director, 130_000, &facts, &phrase, VisualStyle::Auto, IntensityProfile::Balanced);
    let plan = update(&mut director, 135_000, &facts, &phrase, VisualStyle::Auto, IntensityProfile::Balanced);
    assert!(!matches!(plan.reason, SceneReason::ManualOverride));
    assert_ne!(plan.primary, VisualFamily::MagneticSwarm);
}

#[test]
fn pending_scene_does_not_change_the_outgoing_seed_or_budgets() {
    let mut director = SceneDirector::new(51);
    let facts = FrameFacts {
        steady_beat: true,
        ..quiet_facts()
    };
    let before = update(
        &mut director,
        0,
        &facts,
        &inferred(PhraseKind::Intro, 0),
        VisualStyle::Auto,
        IntensityProfile::Balanced,
    );
    let waiting = update(
        &mut director,
        9_000,
        &facts,
        &inferred(PhraseKind::Chorus, 1),
        VisualStyle::Auto,
        IntensityProfile::Balanced,
    );
    assert!(waiting.secondary.is_none());
    assert_eq!(before.variation_seed, waiting.variation_seed);
    assert_eq!(before.committed_kind, waiting.committed_kind);
}

#[test]
fn automatic_scene_stays_stable_until_the_musical_phrase_changes() {
    let phrase = inferred(PhraseKind::Verse, 0);
    let mut director = SceneDirector::new(17);
    let facts = FrameFacts {
        state: MusicState::Flow,
        modifier_trigger: true,
        ..quiet_facts()
    };
    let first = update(&mut director, 0, &facts, &phrase, VisualStyle::Auto, IntensityProfile::Balanced);
    let same_phrase = update(&mut director, 60_000, &facts, &phrase, VisualStyle::Auto, IntensityProfile::Balanced);
    assert_eq!(same_phrase.primary, first.primary);
    assert!(same_phrase.secondary.is_none());
    let next_phrase = inferred(PhraseKind::Chorus, 1);
    let changed = update(&mut director, 60_100, &facts, &next_phrase, VisualStyle::Auto, IntensityProfile::Balanced);
    assert!(changed.secondary.is_some() || changed.primary != first.primary);
}

#[test]
fn dissolves_finish_after_their_duration() {
    let phrase = inferred(PhraseKind::Verse, 0);
    let mut director = SceneDirector::new(17);
    let facts = quiet_facts();
    update(&mut director, 0, &facts, &phrase, VisualStyle::Auto, IntensityProfile::Balanced);
    let started = update(
        &mut director,
        20_000,
        &facts,
        &inferred(PhraseKind::Chorus, 1),
        VisualStyle::Auto,
        IntensityProfile::Balanced,
    );
    let transition = started.transition.expect("a dissolve starts at the new phrase");
    assert_eq!(transition.start_ms, 20_000);
    let incoming = started.secondary.unwrap();
    let done = update(
        &mut director,
        20_000 + transition.duration_ms,
        &facts,
        &inferred(PhraseKind::Chorus, 1),
        VisualStyle::Auto,
        IntensityProfile::Balanced,
    );
    assert_eq!(done.primary, incoming);
    assert!(done.secondary.is_none());
}

#[test]
fn modifiers_are_bounded_compatible_and_do_not_create_a_second_base() {
    let phrase = inferred(PhraseKind::Chorus, 2);
    let facts = FrameFacts {
        state: MusicState::Peak,
        modifier_trigger: true,
        impact_over_wild: true,
        impact_over_balanced: true,
        ..quiet_facts()
    };
    let mut director = SceneDirector::new(71);
    update(&mut director, 16_000, &facts, &phrase, VisualStyle::Auto, IntensityProfile::Wild);
    let plan = update(&mut director, 16_500, &facts, &phrase, VisualStyle::Auto, IntensityProfile::Wild);
    assert!(plan.secondary.is_none());
    assert!(plan.modifiers.len() <= 2);
    let audible = vec![true; plan.modifiers.len()];
    let slots = modifier_slots(&plan.modifiers, &audible, plan.primary, plan.secondary);
    for slot in [slots.0, slots.1] {
        assert!(slot.map_or(true, |kind| modifier_compatible(plan.primary, kind)));
    }
}

#[test]
fn chill_and_held_scenes_carry_no_modifiers() {
    let phrase = inferred(PhraseKind::Chorus, 2);
    let facts = FrameFacts {
        modifier_trigger: true,
        impact_over_wild: true,
        impact_over_balanced: true,
        ..quiet_facts()
    };
    let mut director = SceneDirector::new(71);
    let plan = update(&mut director, 0, &facts, &phrase, VisualStyle::Auto, IntensityProfile::Chill);
    assert!(plan.modifiers.is_empty());
    let plan = update(&mut director, 100, &facts, &phrase, VisualStyle::Pulse, IntensityProfile::Wild);
    assert!(plan.modifiers.is_empty());
}

#[test]
fn inaudible_modifiers_leave_their_slot() {
    let active = vec![ActiveModifier {
        kind: ModifierKind::PaletteDrift,
        started_ms: 0,
        attack_ms: 10,
        hold_ms: 10,
        release_ms: 10,
        peak_permille: 620,
    }];
    let slots = modifier_slots(&active, &vec![false], VisualFamily::WarpSpiral, None);
    assert_eq!(slots, (None, None));
    let slots = modifier_slots(&active, &vec![true], VisualFamily::WarpSpiral, None);
    assert_eq!(slots, (Some(ModifierKind::PaletteDrift), None));
}

#[test]
fn transition_lengths_follow_phrase_intensity_and_beat() {
    assert_eq!(transition_duration_ms(PhraseKind::Chorus, IntensityProfile::Balanced, true, false), 1_200);
    assert_eq!(transition_duration_ms(PhraseKind::Chorus, IntensityProfile::Balanced, false, false), 2_400);
    assert_eq!(transition_duration_ms(PhraseKind::Intro, IntensityProfile::Chill, true, false), 3_000);
    assert_eq!(transition_duration_ms(PhraseKind::Up, IntensityProfile::Wild, true, true), 2_000);
}

#[test]
fn total_order_keys_follow_float_order() {
    let values = [-2.5_f32, -0.0, 0.0, 0.25, 3.0];
    for pair in values.windows(2) {
        assert!(total_order_key(pair[0].to_bits()) < total_order_key(pair[1].to_bits()));
    }
}

#[test]
fn stable_hash_is_fnv_1a() {
    assert_eq!(stable_hash(""), 0xcbf2_9ce4_8422_2325);
    assert_eq!(stable_hash("a"), 0xaf63_dc4c_8601_ec8c);
}

#[test]
fn mix_seed_is_splitmix() {
    assert_eq!(mix_seed(0, 0), 0xe220_a839_7b1d_cdaf);
    assert_ne!(mix_seed(1, 2), mix_seed(2, 1));
}

#[test]
fn phrase_and_palette_choices_follow_the_tables() {
    assert_eq!(phrase_for_music_state(MusicState::Breakdown), PhraseKind::Down);
    let palette = palette_for_music(PhraseKind::Up, 5, 1);
    assert!(palette == PaletteName::Sunset || palette == PaletteName::Warm);
    let expected = if mix_seed(5, 0xc010_1234) % 2 == 0 { PaletteName::Sunset } else { PaletteName::Warm };
    assert_eq!(palette, expected);
    let modifier = modifier_for_phrase(PhraseKind::Fill, 3);
    assert_eq!(modifier, ModifierKind::BeatZoom);
}

#[test]
fn automatic_dissolves_wait_for_the_minimum_stay() {
    let facts = quiet_facts();
    let mut director = SceneDirector::new(9);
    update(&mut director, 0, &facts, &inferred(PhraseKind::Verse, 0), VisualStyle::Auto, IntensityProfile::Balanced);
    update(&mut director, 1_000, &facts, &inferred(PhraseKind::Verse, 0), VisualStyle::Auto, IntensityProfile::Balanced);
    let early = update(&mut director, 5_000, &facts, &inferred(PhraseKind::Chorus, 1), VisualStyle::Auto, IntensityProfile::Balanced);
    assert!(early.transition.is_none());
    let later = update(&mut director, 13_000, &facts, &inferred(PhraseKind::Chorus, 1), VisualStyle::Auto, IntensityProfile::Balanced);
    assert!(later.transition.is_some());
    assert!(later.transition.unwrap().duration_ms >= 1_200);
}

#[test]
fn dwell_and_crossfade_prevent_abrupt_phrase_switches() {
    let facts = quiet_facts();
    let mut director = SceneDirector::new(7);
    update(&mut director, 0, &facts, &inferred(PhraseKind::Intro, 0), VisualStyle::Auto, IntensityProfile::Balanced);
    let chorus = inferred(PhraseKind::Chorus, 1);
    let held = update(&mut director, 1_000, &facts, &chorus, VisualStyle::Auto, IntensityProfile::Balanced);
    assert!(held.transition.is_none());
    let changing = update(&mut director, 14_000, &facts, &chorus, VisualStyle::Auto, IntensityProfile::Balanced);
    let transition = changing.transition.expect("the dissolve starts once the stay is over");
    assert_eq!(transition.start_ms, 14_000);
    let middle = update(&mut director, 14_400, &facts, &chorus, VisualStyle::Auto, IntensityProfile::Balanced);
    assert_eq!(middle.transition, Some(transition));
    assert!(middle.secondary.is_some());
    assert!(400 < transition.duration_ms);
}

#[test]
fn mixed_scenes_get_a_longer_residence_and_gentle_dissolve() {
    let mut director = SceneDirector::new(51);
    director.set_focus(SceneSelection::LiquidRelic);
    update(&mut director, 0, &quiet_facts(), &inferred(PhraseKind::Intro, 0), VisualStyle::Auto, IntensityProfile::Balanced);
    director.set_focus(SceneSelection::Auto);
    // A confident beat on the downbeat of a bar.
    let facts = FrameFacts { steady_beat: true, transition_moment: true, ..quiet_facts() };
    let next = inferred(PhraseKind::Intro, 1);
    // Without audio the musical fit favours the calm original (flat) scenes.
    let calm = |director: &mut SceneDirector, now_ms: i64| {
        let direction = director.direct(now_ms, facts.state, &next, VisualStyle::Auto);
        let keys: Vec<i64> = candidates_for_phrase(direction.kind)
            .iter()
            .map(|family| {
                let fit = if family.is_spatial() { 0.0_f32 } else { 0.5 };
                let score = fit + director.tiebreak(direction.key, *family) as f32 * 0.00018;
                total_order_key(score.to_bits())
            })
            .collect();
        let desired = director.choose_scene(&direction, VisualStyle::Auto, &keys);
        director.step(now_ms, &direction, desired, VisualStyle::Auto, &facts, IntensityProfile::Balanced, 1)
    };
    let early = calm(&mut director, 9_000);
    assert!(early.secondary.is_none());
    let start = calm(&mut director, 12_000);
    let transition = start.transition.unwrap();
    assert!(transition.duration_ms >= 2_800);
    let opening = calm(&mut director, 12_050);
    assert_eq!(opening.transition, Some(transition));
    assert_eq!(transition.start_ms, 12_000);
}

/// A frame whose strongest band is the bass, or (otherwise) the mids.
fn update_band(
    director: &mut SceneDirector,
    now_ms: i64,
    facts: &FrameFacts,
    phrase: &PhraseInput,
    bass_heavy: bool,
) -> SceneStep {
    let direction = director.direct(now_ms, facts.state, phrase, VisualStyle::Auto);
    let keys: Vec<i64> = candidates_for_phrase(direction.kind)
        .iter()
        .enumerate()
        .map(|(index, family)| {
            let fit = if (index % 2 == 0) == bass_heavy { 0.4_f32 } else { 0.0 };
            let score = fit + director.tiebreak(direction.key, *family) as f32 * 0.00018;
            total_order_key(score.to_bits())
        })
        .collect();
    let desired = director.choose_scene(&direction, VisualStyle::Auto, &keys);
    let band = if bass_heavy { 0 } else { 1 };
    director.step(now_ms, &direction, desired, VisualStyle::Auto, facts, IntensityProfile::Balanced, band)
}

#[test]
fn queued_choice_waits_for_the_bar_and_survives_a_brief_band_change() {
    let mut director = SceneDirector::new(51);
    let facts = FrameFacts { state: MusicState::Groove, steady_beat: true, ..quiet_facts() };
    update_band(&mut director, 0, &facts, &inferred(PhraseKind::Intro, 0), true);
    let next = inferred(PhraseKind::Verse, 1);
    let waiting = update_band(&mut director, 12_000, &facts, &next, true);
    assert!(waiting.secondary.is_none());
    let chosen = director.pending_choice().unwrap().1;
    let downbeat = FrameFacts { transition_moment: true, ..facts };
    let changing = update_band(&mut director, 12_500, &downbeat, &next, false);
    assert_eq!(changing.secondary, Some(chosen));
}

#[test]
fn confirmed_drop_can_resolve_a_recent_build_but_weak_timing_cannot() {
    let build = FrameFacts { state: MusicState::Build, steady_beat: true, ..quiet_facts() };
    for confident_beat in [false, true] {
        let mut director = SceneDirector::new(71);
        update(&mut director, 0, &build, &inferred(PhraseKind::Up, 0), VisualStyle::Auto, IntensityProfile::Balanced);
        // An impact of 0.95 at full energy and bass, with beat confidence
        // 0.2 or 0.9.
        let drop = FrameFacts {
            state: MusicState::Impact,
            steady_beat: confident_beat,
            transition_moment: true,
            drop_energy: confident_beat,
            modifier_trigger: true,
            impact_over_wild: true,
            impact_over_balanced: true,
        };
        let plan = update(&mut director, 4_000, &drop, &inferred(PhraseKind::Chorus, 1), VisualStyle::Auto, IntensityProfile::Balanced);
        assert_eq!(plan.secondary.is_some(), confident_beat);
    }
}

#[test]
fn held_geometry_still_gets_section_colors_and_weak_phrases_fall_back() {
    let facts = quiet_facts();
    let mut director = SceneDirector::new(51);
    director.set_focus(SceneSelection::LiquidRelic);
    let quiet = update(&mut director, 0, &facts, &inferred(PhraseKind::Down, 0), VisualStyle::Auto, IntensityProfile::Balanced);
    let peak = update(&mut director, 12_000, &facts, &inferred(PhraseKind::Chorus, 1), VisualStyle::Auto, IntensityProfile::Balanced);
    assert_eq!(quiet.primary, peak.primary);
    assert_ne!(quiet.palette, peak.palette);
    director.set_focus(SceneSelection::Auto);
    let weak = PhraseInput {
        provenance: PhraseProvenance::Rekordbox,
        confident: false,
        ..inferred(PhraseKind::Chorus, 2)
    };
    let fallback = update(&mut director, 24_000, &facts, &weak, VisualStyle::Auto, IntensityProfile::Balanced);
    assert_eq!(fallback.reason, SceneReason::InferredState);
}

#[test]
fn plans_are_deterministic_normalized_and_use_at_most_two_families() {
    let facts = FrameFacts {
        state: MusicState::Peak,
        transition_moment: true,
        modifier_trigger: true,
        impact_over_wild: true,
        impact_over_balanced: true,
        ..quiet_facts()
    };
    let phrase = inferred(PhraseKind::Chorus, 3);
    let mut first = SceneDirector::new(42);
    let mut second = SceneDirector::new(42);
    let a = update(&mut first, 8_000, &facts, &phrase, VisualStyle::Auto, IntensityProfile::Balanced);
    let b = update(&mut second, 8_000, &facts, &phrase, VisualStyle::Auto, IntensityProfile::Balanced);
    assert_eq!((a.primary, a.secondary, a.transition, a.variation_seed), (b.primary, b.secondary, b.transition, b.variation_seed));
    assert_eq!((a.palette, a.reason, a.committed_kind, a.manual), (b.palette, b.reason, b.committed_kind, b.manual));
    assert_eq!(a.modifiers, b.modifiers);
    assert!(a.secondary.map_or(true, |secondary| secondary != a.primary));
}

#[test]
fn stale_phrase_uses_inferred_state_and_manual_styles_stay_fixed() {
    let stale = PhraseInput {
        provenance: PhraseProvenance::Rekordbox,
        age_ms: 8_000,
        ..inferred(PhraseKind::Chorus, 4)
    };
    let facts = FrameFacts { state: MusicState::Breakdown, ..quiet_facts() };
    let mut director = SceneDirector::new(9);
    let inferred_plan = update(&mut director, 8_000, &facts, &stale, VisualStyle::Auto, IntensityProfile::Chill);
    assert_eq!(inferred_plan.reason, SceneReason::InferredState);
    let manual = update(&mut director, 9_000, &facts, &stale, VisualStyle::Tunnel, IntensityProfile::Wild);
    assert!(manual.secondary.is_some(), "manual changes use a safe crossfade");
    let settled = update(&mut director, 12_000, &facts, &stale, VisualStyle::Tunnel, IntensityProfile::Wild);
    assert_eq!(settled.primary, VisualFamily::WarpSpiral);
    assert!(settled.secondary.is_none());
}

#[test]
fn modifier_envelopes_attack_hold_and_release_cleanly() {
    let modifier = ActiveModifier {
        kind: ModifierKind::BeatZoom,
        started_ms: 10_000,
        attack_ms: 500,
        hold_ms: 1_000,
        release_ms: 500,
        peak_permille: 800,
    };
    assert_eq!(envelope_stage(modifier, 10_000), EnvelopeStage::Attack { elapsed: 0, length: 500 });
    assert_eq!(envelope_stage(modifier, 10_500), EnvelopeStage::Hold);
    assert_eq!(envelope_stage(modifier, 11_250), EnvelopeStage::Hold);
    assert_eq!(envelope_stage(modifier, 11_750), EnvelopeStage::Release { elapsed: 250, length: 500 });
    assert_eq!(envelope_stage(modifier, 12_000), EnvelopeStage::Release { elapsed: 500, length: 500 });
    assert!(!modifier_expired(modifier, 11_999));
    assert!(modifier_expired(modifier, 12_000));
    assert_eq!(envelope_stage(modifier, 9_000), EnvelopeStage::Attack { elapsed: 0, length: 500 });
}
