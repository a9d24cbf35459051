//! The scene director's decisions on a clock of milliseconds: which phrase
//! directs the scene, which scene is wanted, when a dissolve may start, when
//! it ends, which modifiers are layered, and the bounded scene history.
//! Blending weights, envelopes and musical scores stay with the caller,
//! which hands their outcome in as facts and ordering keys.
use vstd::prelude::*;

use std::collections::VecDeque;

use crate::director::{
    candidates_for_phrase, manual_family, mix_seed, modifier_compatible, modifier_for_phrase,
    palette_for_music, phrase_for_music_state, phrase_kind_id, music_state_id, rotate_left,
    spec_candidates, spec_composition, spec_family_number, spec_focus_for_selection,
    spec_is_spatial, spec_manual_family, spec_mix_seed, spec_modifier_candidates,
    spec_modifier_compatible, spec_music_state_id, spec_palette_for_music,
    spec_phrase_for_music_state, spec_phrase_kind_id, spec_rotate_left, spec_stable_hash,
    focus_for_selection, stable_hash, ModifierKind, SceneReason, SceneSelection, VisualFamily,
};
use crate::music_state::CLOCK_LIMIT_MS;
use crate::phrase::{MusicState, PhraseKind, PhraseProvenance};
use crate::visual_settings::{IntensityProfile, PaletteName, VisualStyle};

verus! {

/// The director remembers this many recent scenes.
pub const HISTORY_LIMIT: usize = 8;

/// The shortest stay on a scene, in milliseconds.
pub const MIN_DWELL_MS: i64 = 8000;

/// The stay before switching between a flat and a spatial scene.
pub const MIXED_DWELL_MS: i64 = 12000;

/// A confirmed drop may cut the stay short after this long.
pub const DROP_DWELL_MS: i64 = 3000;

/// Phrase metadata older than this no longer directs scenes.
pub const PHRASE_STALE_AFTER_MS: u64 = 5000;

/// One remembered scene: the primary, the secondary, and the seed it used.
#[derive(Clone, Copy, Debug, PartialEq, Eq, Structural)]
pub struct RecentScene {
    pub primary: VisualFamily,
    pub secondary: Option<VisualFamily>,
    pub seed: u64,
}

/// A dissolve in progress from one scene to another.
#[derive(Clone, Copy, Debug, PartialEq, Eq, Structural)]
pub struct ActiveTransition {
    pub from: VisualFamily,
    pub to: VisualFamily,
    pub start_ms: i64,
    pub duration_ms: i64,
}

/// The timing of a dissolve, as reported in a scene plan.
#[derive(Clone, Copy, Debug, PartialEq, Eq, Structural)]
pub struct SceneTransition {
    pub start_ms: i64,
    pub duration_ms: i64,
}

/// A modifier's envelope: attack, hold and release from its start, and its
/// peak strength in thousandths.
#[derive(Clone, Copy, Debug, PartialEq, Eq, Structural)]
pub struct ActiveModifier {
    pub kind: ModifierKind,
    pub started_ms: i64,
    pub attack_ms: i64,
    pub hold_ms: i64,
    pub release_ms: i64,
    pub peak_permille: u32,
}

/// The phrase metadata the director reads. `confident` says whether the
/// segment's confidence is at least 0.45; `age_ms` is its age.
pub struct PhraseInput {
    pub provenance: PhraseProvenance,
    pub segment: Option<(PhraseKind, u64)>,
    pub confident: bool,
    pub age_ms: u64,
    pub stable_track_id: Option<String>,
    pub structure_signature: Option<u64>,
}

/// What the caller measured of the current audio frame:
/// `steady_beat`: beat confidence at least 0.5;
/// `transition_moment`: impact over 0.65 or bar phase under 0.10;
/// `drop_energy`: reactivity over 0.5, impact over 0.82, beat confidence at
/// least 0.6, energy over 0.55 and bass over 0.48;
/// `modifier_trigger`: impact over 0.42, onset over 0.54, or beat pulse over
/// 0.58 with energy over 0.48;
/// `impact_over_wild` and `impact_over_balanced`: impact over 0.56 and 0.72.
#[derive(Clone, Copy, Debug, PartialEq, Eq, Structural)]
pub struct FrameFacts {
    pub state: MusicState,
    pub steady_beat: bool,
    pub transition_moment: bool,
    pub drop_energy: bool,
    pub modifier_trigger: bool,
    pub impact_over_wild: bool,
    pub impact_over_balanced: bool,
}

/// The phrase that directs the scene and the key of that direction.
#[derive(Clone, Copy, Debug, PartialEq, Eq, Structural)]
pub struct Direction {
    pub kind: PhraseKind,
    pub key: u64,
    pub reason: SceneReason,
    pub manual: bool,
    pub palette_key: u64,
}

/// What the director decided for one frame.
pub struct SceneStep {
    pub primary: VisualFamily,
    pub secondary: Option<VisualFamily>,
    pub transition: Option<SceneTransition>,
    pub variation_seed: u64,
    pub palette: PaletteName,
    pub reason: SceneReason,
    pub committed_kind: PhraseKind,
    pub manual: bool,
    pub modifiers: Vec<ActiveModifier>,
}

/// The director's state as values.
pub struct DirectorView {
    pub session_seed: u64,
    pub current_primary: VisualFamily,
    pub focus: Option<VisualFamily>,
    pub last_switch_ms: i64,
    pub active_transition: Option<ActiveTransition>,
    pub last_phrase_key: Option<u64>,
    pub last_style: VisualStyle,
    pub fallback_state: MusicState,
    pub fallback_counter: u64,
    pub recent: Seq<RecentScene>,
    pub active_modifiers: Seq<ActiveModifier>,
    pub last_modifier_key: Option<u64>,
    pub pending_choice: Option<(u64, VisualFamily)>,
    pub palette_key: Option<u64>,
    pub current_palette: PaletteName,
    pub last_direction_kind: PhraseKind,
}

/// The history after remembering `entry`: the oldest entry leaves a full
/// history, and `entry` is added unless it is already the newest.
pub open spec fn spec_remember(recent: Seq<RecentScene>, entry: RecentScene) -> Seq<RecentScene> {
    let kept = if recent.len() == HISTORY_LIMIT {
        recent.drop_first()
    } else {
        recent
    };
    if kept.len() > 0 && kept.last() == entry {
        kept
    } else {
        kept.push(entry)
    }
}

/// Whether metadata may direct the scene: available, with a confident
/// segment, and at most five seconds old.
pub open spec fn spec_phrase_fresh(p: PhraseInput) -> bool {
    p.provenance != PhraseProvenance::Unavailable && p.segment is Some && p.confident && p.age_ms
        <= PHRASE_STALE_AFTER_MS
}

/// The track's identity: its stable id hashed, else its structure
/// signature, else the session seed.
pub open spec fn spec_track_hash(p: PhraseInput, seed: u64) -> u64 {
    match p.stable_track_id {
        Some(id) => spec_stable_hash(vstd::utf8::encode_utf8(id@)),
        None => match p.structure_signature {
            Some(signature) => signature,
            None => seed,
        },
    }
}

pub open spec fn spec_manual(v: DirectorView, style: VisualStyle) -> bool {
    v.focus is Some || style != VisualStyle::Auto
}

/// The scene held by the performer: the focus, else the style's scene.
pub open spec fn spec_held_scene(v: DirectorView, style: VisualStyle) -> VisualFamily {
    match v.focus {
        Some(f) => f,
        None => spec_manual_family(style),
    }
}

/// Whether the fallback musical state moves on: it changed, and the
/// current scene has stayed its minimum.
pub open spec fn spec_fallback_advances(v: DirectorView, now_ms: i64, state: MusicState) -> bool {
    state != v.fallback_state && now_ms - v.last_switch_ms >= MIN_DWELL_MS
}

pub open spec fn spec_fallback_counter(v: DirectorView, now_ms: i64, state: MusicState) -> u64 {
    if spec_fallback_advances(v, now_ms, state) {
        if v.fallback_counter == u64::MAX {
            u64::MAX
        } else {
            (v.fallback_counter + 1) as u64
        }
    } else {
        v.fallback_counter
    }
}

/// The direction for a frame: a held scene keeps its own key; fresh
/// metadata directs by track and phrase; otherwise the musical state does.
pub open spec fn spec_direction(
    v: DirectorView,
    now_ms: i64,
    state: MusicState,
    p: PhraseInput,
    style: VisualStyle,
) -> Direction {
    let fresh = spec_phrase_fresh(p);
    let kind = if spec_manual(v, style) {
        if fresh {
            (p.segment->0).0
        } else {
            spec_phrase_for_music_state(state)
        }
    } else if fresh {
        (p.segment->0).0
    } else {
        spec_phrase_for_music_state(state)
    };
    let key = if spec_manual(v, style) {
        spec_family_number(spec_held_scene(v, style)) as u64
    } else if fresh {
        spec_track_hash(p, v.session_seed) ^ spec_rotate_left((p.segment->0).1, 17) ^ spec_phrase_kind_id(
            kind,
        )
    } else {
        v.session_seed ^ spec_rotate_left(spec_fallback_counter(v, now_ms, state), 11)
            ^ spec_music_state_id(state)
    };
    let reason = if spec_manual(v, style) {
        SceneReason::ManualOverride
    } else if fresh && p.provenance != PhraseProvenance::AudioInferred {
        SceneReason::Phrase
    } else {
        SceneReason::InferredState
    };
    let palette_key = (if fresh {
        spec_rotate_left((p.segment->0).1, 17)
    } else {
        0
    }) ^ spec_phrase_kind_id(kind);
    Direction { kind, key, reason, manual: spec_manual(v, style), palette_key }
}

/// Why the scene is what it is. With no focus and the automatic style, a
/// fresh phrase from Rekordbox's metadata or from cue markers (a known,
/// confident segment no older than the staleness limit) directs the scene
/// as a phrase, and its segment's kind is the phrase shown; a phrase the
/// audio analysis inferred, or no fresh phrase at all, leaves the musical
/// state in charge. A focus or a chosen style always overrides, whatever the
/// phrase.
pub proof fn law_scene_reasons(
    v: DirectorView,
    now_ms: i64,
    state: MusicState,
    p: PhraseInput,
    style: VisualStyle,
)
    ensures
        (v.focus is Some || style != VisualStyle::Auto) ==> spec_direction(
            v,
            now_ms,
            state,
            p,
            style,
        ).reason == SceneReason::ManualOverride,
        v.focus is None && style == VisualStyle::Auto && (p.provenance == PhraseProvenance::Rekordbox
            || p.provenance == PhraseProvenance::CueMarkers) && p.segment is Some && p.confident
            && p.age_ms <= PHRASE_STALE_AFTER_MS ==> spec_direction(
            v,
            now_ms,
            state,
            p,
            style,
        ).reason == SceneReason::Phrase,
        v.focus is None && style == VisualStyle::Auto && (p.provenance
            == PhraseProvenance::AudioInferred || p.provenance == PhraseProvenance::Unavailable
            || p.segment is None || !p.confident || p.age_ms > PHRASE_STALE_AFTER_MS)
            ==> spec_direction(v, now_ms, state, p, style).reason == SceneReason::InferredState,
        p.provenance != PhraseProvenance::Unavailable && p.confident && p.age_ms
            <= PHRASE_STALE_AFTER_MS ==> (p.segment matches Some(seg) ==> spec_direction(
            v,
            now_ms,
            state,
            p,
            style,
        ).kind == seg.0),
        p.provenance == PhraseProvenance::Unavailable || p.segment is None || !p.confident
            || p.age_ms > PHRASE_STALE_AFTER_MS ==> spec_direction(v, now_ms, state, p, style).kind
            == spec_phrase_for_music_state(state),
        spec_direction(v, now_ms, state, p, style).manual == (v.focus is Some || style
            != VisualStyle::Auto),
{
}

/// Fresh metadata directs the scene on its own: while the phrase is fresh,
/// the musical state and the time change neither the phrase shown, the
/// scene key, the reason nor the palette key. A held scene's key is its own
/// number whatever the phrase and the state. Without fresh metadata, two
/// phrases that are not fresh direct alike.
pub proof fn law_fresh_metadata_directs_alone(
    v: DirectorView,
    now_ms: i64,
    later_ms: i64,
    state: MusicState,
    other_state: MusicState,
    p: PhraseInput,
    q: PhraseInput,
    style: VisualStyle,
)
    ensures
        spec_phrase_fresh(p) ==> {
            let a = spec_direction(v, now_ms, state, p, style);
            let b = spec_direction(v, later_ms, other_state, p, style);
            &&& a.kind == b.kind
            &&& a.key == b.key
            &&& a.reason == b.reason
            &&& a.palette_key == b.palette_key
        },
        spec_manual(v, style) ==> spec_direction(v, now_ms, state, p, style).key
            == spec_family_number(spec_held_scene(v, style)) as u64 && spec_direction(
            v,
            now_ms,
            state,
            p,
            style,
        ).key == spec_direction(v, later_ms, other_state, q, style).key,
        !spec_phrase_fresh(p) && !spec_phrase_fresh(q) ==> spec_direction(
            v,
            now_ms,
            state,
            p,
            style,
        ) == spec_direction(v, now_ms, state, q, style),
{
}

/// Whether `family` was the primary of one of the last four scenes.
pub open spec fn spec_recently_shown(recent: Seq<RecentScene>, family: VisualFamily) -> bool {
    exists|j: int| recent.len() - 4 <= j < recent.len() && 0 <= j && recent[j].primary == family
}

/// Whether `family` may be chosen at a relaxation level: level 0 wants a
/// composition other than the last scene's and a scene not shown recently,
/// level 1 only the latter, level 2 anything.
pub open spec fn spec_admissible(recent: Seq<RecentScene>, level: int, family: VisualFamily) -> bool {
    (level >= 1 || !(recent.len() > 0 && spec_composition(recent.last().primary)
        == spec_composition(family))) && (level >= 2 || !spec_recently_shown(recent, family))
}

/// Among the first `n` candidates, the index of the admissible one with the
/// highest key, the later one on a tie; -1 if none is admissible.
pub open spec fn spec_best_index(
    candidates: Seq<VisualFamily>,
    keys: Seq<i64>,
    recent: Seq<RecentScene>,
    level: int,
    n: int,
) -> int
    decreases n,
{
    if n <= 0 {
        -1
    } else {
        let best = spec_best_index(candidates, keys, recent, level, n - 1);
        if spec_admissible(recent, level, candidates[n - 1]) && (best < 0 || keys[n - 1]
            >= keys[best]) {
            n - 1
        } else {
            best
        }
    }
}

/// The scene chosen for a phrase: the best admissible candidate at the
/// strictest level that admits one.
pub open spec fn spec_choose_primary(
    recent: Seq<RecentScene>,
    kind: PhraseKind,
    keys: Seq<i64>,
) -> VisualFamily {
    let candidates = spec_candidates(kind);
    let n = candidates.len() as int;
    let b0 = spec_best_index(candidates, keys, recent, 0, n);
    let b1 = spec_best_index(candidates, keys, recent, 1, n);
    let b2 = spec_best_index(candidates, keys, recent, 2, n);
    if b0 >= 0 {
        candidates[b0]
    } else if b1 >= 0 {
        candidates[b1]
    } else if b2 >= 0 {
        candidates[b2]
    } else {
        VisualFamily::AuroraVeil
    }
}

/// The best index is admissible and holds the highest key among the
/// admissible candidates; it is -1 exactly when none is admissible.
pub proof fn lemma_best_index(
    candidates: Seq<VisualFamily>,
    keys: Seq<i64>,
    recent: Seq<RecentScene>,
    level: int,
    n: int,
)
    requires
        0 <= n <= candidates.len(),
        candidates.len() == keys.len(),
    ensures
        -1 <= spec_best_index(candidates, keys, recent, level, n) < n,
        spec_best_index(candidates, keys, recent, level, n) >= 0 ==> spec_admissible(
            recent,
            level,
            candidates[spec_best_index(candidates, keys, recent, level, n)],
        ),
        spec_best_index(candidates, keys, recent, level, n) >= 0 ==> forall|j: int|
            0 <= j < n && spec_admissible(recent, level, #[trigger] candidates[j]) ==> keys[j]
                <= keys[spec_best_index(candidates, keys, recent, level, n)],
        spec_best_index(candidates, keys, recent, level, n) < 0 <==> forall|j: int|
            0 <= j < n ==> !spec_admissible(recent, level, #[trigger] candidates[j]),
    decreases n,
{
    if n > 0 {
        lemma_best_index(candidates, keys, recent, level, n - 1);
    }
}

/// The scene chosen for a phrase is one of the phrase's candidates with the
/// highest key among those allowed at the strictest level that allows any:
/// first a scene unlike the last one's composition and not among the last
/// four, then any scene not among the last four, then any candidate.
pub proof fn law_chosen_scene_is_the_best_allowed_candidate(
    recent: Seq<RecentScene>,
    kind: PhraseKind,
    keys: Seq<i64>,
    level: int,
)
    requires
        keys.len() == spec_candidates(kind).len(),
        0 <= level <= 2,
        exists|j: int|
            0 <= j < spec_candidates(kind).len() && spec_admissible(
                recent,
                level,
                #[trigger] spec_candidates(kind)[j],
            ),
        forall|l: int, j: int|
            0 <= l < level && 0 <= j < spec_candidates(kind).len() ==> !#[trigger] spec_admissible(
                recent,
                l,
                spec_candidates(kind)[j],
            ),
    ensures
        exists|i: int|
            0 <= i < spec_candidates(kind).len() && #[trigger] spec_candidates(kind)[i]
                == spec_choose_primary(recent, kind, keys) && spec_admissible(
                recent,
                level,
                spec_candidates(kind)[i],
            ) && (forall|j: int|
                0 <= j < spec_candidates(kind).len() && spec_admissible(
                    recent,
                    level,
                    #[trigger] spec_candidates(kind)[j],
                ) ==> keys[j] <= keys[i]),
{
    let c = spec_candidates(kind);
    let n = c.len() as int;
    lemma_best_index(c, keys, recent, 0, n);
    lemma_best_index(c, keys, recent, 1, n);
    lemma_best_index(c, keys, recent, 2, n);
    let w = choose|j: int| 0 <= j < n && spec_admissible(recent, level, #[trigger] c[j]);
    if level >= 1 {
        assert(!spec_admissible(recent, 0, c[w]));
    }
    if level >= 2 {
        assert(!spec_admissible(recent, 1, c[w]));
    }
    let b = spec_best_index(c, keys, recent, level, n);
    assert(c[b] == spec_choose_primary(recent, kind, keys));
}

/// A dissolve never lasts less than 1.2 s, nor less than 2.4 s without a
/// steady beat, nor less than the longer minimum between a flat and a
/// spatial scene; a wilder intensity never makes it longer, and at one
/// intensity a chorus or fill dissolves no slower than a build or bridge,
/// which dissolve no slower than a verse, which dissolves no slower than an
/// intro, breakdown or outro.
pub proof fn law_dissolve_lengths(kind: PhraseKind, steady_beat: bool, mixed: bool)
    ensures
        forall|i: IntensityProfile|
            #[trigger] spec_transition_duration_ms(kind, i, steady_beat, mixed) >= 1200,
        forall|i: IntensityProfile|
            !steady_beat ==> #[trigger] spec_transition_duration_ms(kind, i, steady_beat, mixed)
                >= 2400,
        mixed ==> spec_transition_duration_ms(kind, IntensityProfile::Chill, steady_beat, mixed)
            >= 3600 && spec_transition_duration_ms(
            kind,
            IntensityProfile::Balanced,
            steady_beat,
            mixed,
        ) >= 2800 && spec_transition_duration_ms(kind, IntensityProfile::Wild, steady_beat, mixed)
            >= 2000,
        spec_transition_duration_ms(kind, IntensityProfile::Wild, steady_beat, mixed)
            <= spec_transition_duration_ms(kind, IntensityProfile::Balanced, steady_beat, mixed),
        spec_transition_duration_ms(kind, IntensityProfile::Balanced, steady_beat, mixed)
            <= spec_transition_duration_ms(kind, IntensityProfile::Chill, steady_beat, mixed),
        forall|i: IntensityProfile|
            #![trigger spec_phrase_transition_ms(PhraseKind::Chorus, i)]
            spec_phrase_transition_ms(PhraseKind::Chorus, i) == spec_phrase_transition_ms(
                PhraseKind::Fill,
                i,
            ) && spec_phrase_transition_ms(PhraseKind::Chorus, i) <= spec_phrase_transition_ms(
                PhraseKind::Up,
                i,
            ) && spec_phrase_transition_ms(PhraseKind::Up, i) == spec_phrase_transition_ms(
                PhraseKind::Bridge,
                i,
            ) && spec_phrase_transition_ms(PhraseKind::Up, i) <= spec_phrase_transition_ms(
                PhraseKind::Verse,
                i,
            ) && spec_phrase_transition_ms(PhraseKind::Verse, i) <= spec_phrase_transition_ms(
                PhraseKind::Intro,
                i,
            ) && spec_phrase_transition_ms(PhraseKind::Intro, i) == spec_phrase_transition_ms(
                PhraseKind::Down,
                i,
            ) && spec_phrase_transition_ms(PhraseKind::Intro, i) == spec_phrase_transition_ms(
                PhraseKind::Outro,
                i,
            ),
{
}

/// Level 2 admits every candidate.
proof fn lemma_level_two_admits(recent: Seq<RecentScene>, family: VisualFamily)
    ensures
        spec_admissible(recent, 2, family),
{
}

/// The scene wanted now: the held scene when manual; the committed or
/// incoming scene while the direction is unchanged; the scene already
/// queued for this direction; otherwise a fresh choice.
pub open spec fn spec_desired(
    v: DirectorView,
    d: Direction,
    style: VisualStyle,
    keys: Seq<i64>,
) -> VisualFamily {
    if d.manual {
        spec_held_scene(v, style)
    } else if v.last_phrase_key == Some(d.key) && v.last_style == style {
        match v.active_transition {
            Some(t) => t.to,
            None => v.current_primary,
        }
    } else if v.pending_choice matches Some(choice) && choice.0 == d.key {
        (v.pending_choice->0).1
    } else {
        spec_choose_primary(v.recent, d.kind, keys)
    }
}

/// Whether `desired` was a fresh choice that is now queued.
pub open spec fn spec_chooses_fresh(v: DirectorView, d: Direction, style: VisualStyle) -> bool {
    !d.manual && !(v.last_phrase_key == Some(d.key) && v.last_style == style) && !(
    v.pending_choice matches Some(choice) && choice.0 == d.key)
}

/// The palette phase: a new palette key picks a new palette.
pub open spec fn phase_palette(v: DirectorView, d: Direction, band: usize) -> DirectorView {
    if v.palette_key != Some(d.palette_key) {
        DirectorView {
            current_palette: spec_palette_for_music(d.kind, d.palette_key, band),
            palette_key: Some(d.palette_key),
            ..v
        }
    } else {
        v
    }
}

/// The first plan commits the wanted scene at once.
pub open spec fn phase_first_plan(
    v: DirectorView,
    d: Direction,
    desired: VisualFamily,
    now_ms: i64,
    style: VisualStyle,
) -> DirectorView {
    if v.last_phrase_key is None {
        DirectorView {
            current_primary: desired,
            last_switch_ms: now_ms,
            last_phrase_key: Some(d.key),
            last_style: style,
            last_direction_kind: d.kind,
            recent: spec_remember(
                v.recent,
                RecentScene {
                    primary: desired,
                    secondary: None,
                    seed: spec_mix_seed(v.session_seed, d.key),
                },
            ),
            ..v
        }
    } else {
        v
    }
}

pub open spec fn spec_key_changed(v: DirectorView, d: Direction, style: VisualStyle) -> bool {
    v.last_phrase_key != Some(d.key) || v.last_style != style
}

/// How long a dissolve into a phrase lasts at an intensity.
pub open spec fn spec_phrase_transition_ms(kind: PhraseKind, intensity: IntensityProfile) -> i64 {
    match kind {
        PhraseKind::Chorus | PhraseKind::Fill => match intensity {
            IntensityProfile::Chill => 1000,
            IntensityProfile::Balanced => 800,
            IntensityProfile::Wild => 464,
        },
        PhraseKind::Up | PhraseKind::Bridge => match intensity {
            IntensityProfile::Chill => 1750,
            IntensityProfile::Balanced => 1400,
            IntensityProfile::Wild => 812,
        },
        PhraseKind::Intro | PhraseKind::Down | PhraseKind::Outro => match intensity {
            IntensityProfile::Chill => 3000,
            IntensityProfile::Balanced => 2400,
            IntensityProfile::Wild => 1392,
        },
        _ => match intensity {
            IntensityProfile::Chill => 2250,
            IntensityProfile::Balanced => 1800,
            IntensityProfile::Wild => 1044,
        },
    }
}

/// A dissolve's length: the phrase's length, at least 2.4 s without a
/// steady beat, and at least the minimum for the pair of scenes (longer
/// between a flat and a spatial scene).
pub open spec fn spec_transition_duration_ms(
    kind: PhraseKind,
    intensity: IntensityProfile,
    steady_beat: bool,
    mixed: bool,
) -> i64 {
    let base = spec_phrase_transition_ms(kind, intensity);
    let beat = if !steady_beat && base < 2400 {
        2400
    } else {
        base
    };
    let minimum = if mixed {
        match intensity {
            IntensityProfile::Chill => 3600,
            IntensityProfile::Balanced => 2800,
            IntensityProfile::Wild => 2000,
        }
    } else {
        1200
    };
    if beat < minimum {
        minimum
    } else {
        beat
    }
}

/// Whether a dissolve toward `desired` starts now.
pub open spec fn spec_transition_starts(
    v: DirectorView,
    d: Direction,
    desired: VisualFamily,
    now_ms: i64,
    style: VisualStyle,
    facts: FrameFacts,
) -> bool {
    let elapsed = now_ms - v.last_switch_ms;
    let residence = if spec_is_spatial(v.current_primary) != spec_is_spatial(desired) {
        MIXED_DWELL_MS
    } else {
        MIN_DWELL_MS
    };
    let confirmed_drop = v.last_direction_kind == PhraseKind::Up && d.kind == PhraseKind::Chorus
        && facts.drop_energy && facts.state == MusicState::Impact && elapsed >= DROP_DWELL_MS;
    &&& desired != v.current_primary
    &&& spec_key_changed(v, d, style)
    &&& v.active_transition is None
    &&& (d.manual || !facts.steady_beat || facts.transition_moment)
    &&& (elapsed >= residence || confirmed_drop || d.manual || v.recent.len() == 0)
}

/// The switch phase: a dissolve starts, or a direction that keeps the same
/// scene is committed and remembered.
pub open spec fn phase_switch(
    v: DirectorView,
    d: Direction,
    desired: VisualFamily,
    now_ms: i64,
    style: VisualStyle,
    facts: FrameFacts,
    intensity: IntensityProfile,
    first: bool,
) -> DirectorView {
    if !first && spec_transition_starts(v, d, desired, now_ms, style, facts) {
        DirectorView {
            active_transition: Some(
                ActiveTransition {
                    from: v.current_primary,
                    to: desired,
                    start_ms: now_ms,
                    duration_ms: spec_transition_duration_ms(
                        d.kind,
                        intensity,
                        facts.steady_beat,
                        spec_is_spatial(v.current_primary) != spec_is_spatial(desired),
                    ),
                },
            ),
            last_switch_ms: now_ms,
            last_phrase_key: Some(d.key),
            last_style: style,
            last_direction_kind: d.kind,
            ..v
        }
    } else if spec_key_changed(v, d, style) && desired == v.current_primary {
        DirectorView {
            last_phrase_key: Some(d.key),
            last_style: style,
            last_direction_kind: d.kind,
            recent: spec_remember(
                v.recent,
                RecentScene {
                    primary: desired,
                    secondary: None,
                    seed: spec_mix_seed(v.session_seed, d.key),
                },
            ),
            ..v
        }
    } else {
        v
    }
}

/// The key of the committed direction; a queued scene does not change it.
pub open spec fn spec_committed_key(v: DirectorView, d: Direction) -> u64 {
    match v.last_phrase_key {
        Some(key) => key,
        None => d.key,
    }
}

pub open spec fn spec_transition_finished(t: ActiveTransition, now_ms: i64) -> bool {
    now_ms - t.start_ms >= t.duration_ms
}

/// The settle phase: a finished dissolve commits its incoming scene.
pub open spec fn phase_settle(v: DirectorView, now_ms: i64, seed: u64) -> DirectorView {
    match v.active_transition {
        Some(t) => if spec_transition_finished(t, now_ms) {
            DirectorView {
                current_primary: t.to,
                active_transition: None,
                recent: spec_remember(v.recent, RecentScene { primary: t.to, secondary: None, seed }),
                ..v
            }
        } else {
            v
        },
        None => v,
    }
}

/// The scenes shown: the outgoing and incoming scenes while a dissolve
/// runs, otherwise the current scene alone.
pub open spec fn spec_shown(v: DirectorView, now_ms: i64) -> (
    VisualFamily,
    Option<VisualFamily>,
    Option<SceneTransition>,
) {
    match v.active_transition {
        Some(t) => if spec_transition_finished(t, now_ms) {
            (t.to, None, None)
        } else {
            (
                t.from,
                Some(t.to),
                Some(SceneTransition { start_ms: t.start_ms, duration_ms: t.duration_ms }),
            )
        },
        None => (v.current_primary, None, None),
    }
}

pub open spec fn spec_expired(m: ActiveModifier, now_ms: i64) -> bool {
    now_ms >= m.started_ms + m.attack_ms + m.hold_ms + m.release_ms
}

/// The modifiers whose envelope has not ended, in order.
pub open spec fn spec_live_modifiers(mods: Seq<ActiveModifier>, now_ms: i64) -> Seq<ActiveModifier>
    decreases mods.len(),
{
    if mods.len() == 0 {
        mods
    } else {
        let kept = spec_live_modifiers(mods.drop_last(), now_ms);
        if !spec_expired(mods.last(), now_ms) {
            kept.push(mods.last())
        } else {
            kept
        }
    }
}

pub proof fn lemma_live_modifiers_len(mods: Seq<ActiveModifier>, now_ms: i64)
    ensures
        spec_live_modifiers(mods, now_ms).len() <= mods.len(),
    decreases mods.len(),
{
    if mods.len() > 0 {
        lemma_live_modifiers_len(mods.drop_last(), now_ms);
    }
}

pub open spec fn spec_has_kind(mods: Seq<ActiveModifier>, kind: ModifierKind) -> bool {
    exists|i: int| 0 <= i < mods.len() && mods[i].kind == kind
}

/// The phrase modifier started now for `kind`.
pub open spec fn spec_phrase_modifier(
    kind: ModifierKind,
    now_ms: i64,
    phrase: PhraseKind,
    intensity: IntensityProfile,
) -> ActiveModifier {
    let wild = intensity == IntensityProfile::Wild;
    ActiveModifier {
        kind,
        started_ms: now_ms,
        attack_ms: if wild {
            160
        } else {
            450
        },
        hold_ms: if wild {
            7500
        } else if phrase == PhraseKind::Chorus {
            10000
        } else {
            12000
        },
        release_ms: if wild {
            900
        } else {
            1800
        },
        peak_permille: if wild {
            1000
        } else {
            620
        },
    }
}

/// The impact bloom started now.
pub open spec fn spec_impact_bloom(now_ms: i64, intensity: IntensityProfile) -> ActiveModifier {
    let wild = intensity == IntensityProfile::Wild;
    ActiveModifier {
        kind: ModifierKind::ImpactBloom,
        started_ms: now_ms,
        attack_ms: 40,
        hold_ms: if wild {
            260
        } else {
            160
        },
        release_ms: if wild {
            340
        } else {
            500
        },
        peak_permille: if wild {
            1000
        } else {
            680
        },
    }
}

/// The modifier phase: ended envelopes drop out; a held scene or the chill
/// profile clears them; otherwise a new direction with a musical trigger
/// offers its phrase modifier, and a strong impact offers a bloom, each
/// only when compatible with the base, not already active, and with fewer
/// than two active.
pub open spec fn phase_modifiers(
    v: DirectorView,
    now_ms: i64,
    phrase: PhraseKind,
    key: u64,
    intensity: IntensityProfile,
    facts: FrameFacts,
    base: VisualFamily,
    manual: bool,
) -> DirectorView {
    let live = spec_live_modifiers(v.active_modifiers, now_ms);
    if manual || intensity == IntensityProfile::Chill {
        DirectorView { active_modifiers: Seq::empty(), ..v }
    } else {
        let trigger = facts.modifier_trigger || phrase == PhraseKind::Up || phrase
            == PhraseKind::Chorus || phrase == PhraseKind::Fill;
        let due = v.last_modifier_key != Some(key) && trigger;
        let candidates = spec_modifier_candidates(phrase);
        let candidate = candidates[(spec_mix_seed(v.session_seed, key) % (candidates.len() as u64)) as int];
        let with_phrase = if due && spec_modifier_compatible(base, candidate) && !spec_has_kind(
            live,
            candidate,
        ) && live.len() < 2 {
            live.push(spec_phrase_modifier(candidate, now_ms, phrase, intensity))
        } else {
            live
        };
        let impact = if intensity == IntensityProfile::Wild {
            facts.impact_over_wild
        } else {
            facts.impact_over_balanced
        };
        let with_bloom = if impact && spec_modifier_compatible(base, ModifierKind::ImpactBloom)
            && !spec_has_kind(with_phrase, ModifierKind::ImpactBloom) && with_phrase.len() < 2 {
            with_phrase.push(spec_impact_bloom(now_ms, intensity))
        } else {
            with_phrase
        };
        DirectorView {
            active_modifiers: with_bloom,
            last_modifier_key: if due {
                Some(key)
            } else {
                v.last_modifier_key
            },
            ..v
        }
    }
}

/// The modifier in slot `i`: the `i`-th active modifier when it is audible
/// and compatible with the base scene and with any incoming scene.
pub open spec fn spec_modifier_slot(
    active: Seq<ActiveModifier>,
    audible: Seq<bool>,
    base: VisualFamily,
    incoming: Option<VisualFamily>,
    i: int,
) -> Option<ModifierKind> {
    if i < active.len() && i < audible.len() && audible[i] && spec_modifier_compatible(
        base,
        active[i].kind,
    ) && (incoming matches Some(f) ==> spec_modifier_compatible(f, active[i].kind)) {
        Some(active[i].kind)
    } else {
        None
    }
}

/// The order of a 32-bit float's bit pattern under IEEE total ordering, as
/// an integer: non-negative patterns keep their value, negative ones
/// reverse their magnitude below zero.
pub open spec fn spec_total_order_key(bits: u32) -> int {
    if bits < 0x8000_0000 {
        bits as int
    } else {
        -((bits - 0x8000_0000) as int) - 1
    }
}

/// The ordering key of a float score's bit pattern: keys compare as the
/// scores do under the IEEE total order.
pub fn total_order_key(bits: u32) -> (r: i64)
    ensures
        r == spec_total_order_key(bits),
{
    if bits < 0x8000_0000 {
        bits as i64
    } else {
        -((bits - 0x8000_0000) as i64) - 1
    }
}

/// The slots of the two modifiers layered over `base`.
pub fn modifier_slots(
    active: &Vec<ActiveModifier>,
    audible: &Vec<bool>,
    base: VisualFamily,
    incoming: Option<VisualFamily>,
) -> (r: (Option<ModifierKind>, Option<ModifierKind>))
    ensures
        r.0 == spec_modifier_slot(active@, audible@, base, incoming, 0),
        r.1 == spec_modifier_slot(active@, audible@, base, incoming, 1),
        r.0 matches Some(k) ==> spec_modifier_compatible(base, k),
        r.1 matches Some(k) ==> spec_modifier_compatible(base, k),
{
    let first = slot_at(active, audible, base, incoming, 0);
    let second = slot_at(active, audible, base, incoming, 1);
    (first, second)
}

fn slot_at(
    active: &Vec<ActiveModifier>,
    audible: &Vec<bool>,
    base: VisualFamily,
    incoming: Option<VisualFamily>,
    i: usize,
) -> (r: Option<ModifierKind>)
    ensures
        r == spec_modifier_slot(active@, audible@, base, incoming, i as int),
{
    if i < active.len() && i < audible.len() && audible[i] {
        let kind = active[i].kind;
        let fits_incoming = match incoming {
            Some(f) => modifier_compatible(f, kind),
            None => true,
        };
        if modifier_compatible(base, kind) && fits_incoming {
            Some(kind)
        } else {
            None
        }
    } else {
        None
    }
}

/// The scene history never exceeds its limit, and what was remembered is
/// the newest entry.
pub proof fn law_history_is_bounded(recent: Seq<RecentScene>, entry: RecentScene)
    requires
        recent.len() <= HISTORY_LIMIT,
    ensures
        spec_remember(recent, entry).len() <= HISTORY_LIMIT,
        spec_remember(recent, entry).len() > 0,
        spec_remember(recent, entry).last() == entry,
{
}

/// While a chosen scene waits for its moment, the committed direction, and
/// with it the visible scene's seed and budgets, stays as it was.
pub proof fn law_queued_scene_keeps_the_committed_direction(
    v: DirectorView,
    d: Direction,
    desired: VisualFamily,
    now_ms: i64,
    style: VisualStyle,
    facts: FrameFacts,
    intensity: IntensityProfile,
)
    requires
        v.last_phrase_key is Some,
        desired != v.current_primary,
        !spec_transition_starts(v, d, desired, now_ms, style, facts),
    ensures
        phase_switch(v, d, desired, now_ms, style, facts, intensity, false).last_phrase_key
            == v.last_phrase_key,
        phase_switch(v, d, desired, now_ms, style, facts, intensity, false).last_direction_kind
            == v.last_direction_kind,
        phase_switch(v, d, desired, now_ms, style, facts, intensity, false).current_primary
            == v.current_primary,
        spec_committed_key(phase_switch(v, d, desired, now_ms, style, facts, intensity, false), d)
            == spec_committed_key(v, d),
{
}

/// An automatic dissolve starts only after the outgoing scene has stayed
/// its minimum, or after three seconds on a confirmed drop, or before any
/// scene was remembered; and a dissolve lasts at least 1.2 seconds.
pub proof fn law_automatic_dissolves_wait_for_the_dwell(
    v: DirectorView,
    d: Direction,
    desired: VisualFamily,
    now_ms: i64,
    style: VisualStyle,
    facts: FrameFacts,
    intensity: IntensityProfile,
)
    requires
        !d.manual,
        v.active_transition is None,
        phase_switch(v, d, desired, now_ms, style, facts, intensity, false).active_transition
            is Some,
    ensures
        now_ms - v.last_switch_ms >= MIN_DWELL_MS || (now_ms - v.last_switch_ms >= DROP_DWELL_MS
            && d.kind == PhraseKind::Chorus) || v.recent.len() == 0,
        phase_switch(v, d, desired, now_ms, style, facts, intensity, false).active_transition->0.duration_ms
            >= 1200,
{
}

/// The modifier phase keeps at most two modifiers, and adds only modifiers
/// compatible with the scene shown.
pub proof fn law_modifiers_stay_bounded(
    v: DirectorView,
    now_ms: i64,
    phrase: PhraseKind,
    key: u64,
    intensity: IntensityProfile,
    facts: FrameFacts,
    base: VisualFamily,
    manual: bool,
)
    requires
        v.active_modifiers.len() <= 2,
    ensures
        phase_modifiers(v, now_ms, phrase, key, intensity, facts, base, manual).active_modifiers.len()
            <= 2,
        (manual || intensity == IntensityProfile::Chill) ==> phase_modifiers(
            v,
            now_ms,
            phrase,
            key,
            intensity,
            facts,
            base,
            manual,
        ).active_modifiers.len() == 0,
        forall|i: int|
            spec_live_modifiers(v.active_modifiers, now_ms).len() <= i < phase_modifiers(
                v,
                now_ms,
                phrase,
                key,
                intensity,
                facts,
                base,
                manual,
            ).active_modifiers.len() ==> spec_modifier_compatible(
                base,
                #[trigger] phase_modifiers(
                    v,
                    now_ms,
                    phrase,
                    key,
                    intensity,
                    facts,
                    base,
                    manual,
                ).active_modifiers[i].kind,
            ),
{
    lemma_live_modifiers_len(v.active_modifiers, now_ms);
}

/// Chooses scenes phrase by phrase, holds them for a musical stay, and
/// dissolves between them at musical moments.
pub struct SceneDirector {
    session_seed: u64,
    current_primary: VisualFamily,
    focus: Option<VisualFamily>,
    last_switch_ms: i64,
    active_transition: Option<ActiveTransition>,
    last_phrase_key: Option<u64>,
    last_style: VisualStyle,
    fallback_state: MusicState,
    fallback_counter: u64,
    recent: VecDeque<RecentScene>,
    active_modifiers: Vec<ActiveModifier>,
    last_modifier_key: Option<u64>,
    pending_choice: Option<(u64, VisualFamily)>,
    palette_key: Option<u64>,
    current_palette: PaletteName,
    last_direction_kind: PhraseKind,
}

impl View for SceneDirector {
    type V = DirectorView;

    closed spec fn view(&self) -> DirectorView {
        DirectorView {
            session_seed: self.session_seed,
            current_primary: self.current_primary,
            focus: self.focus,
            last_switch_ms: self.last_switch_ms,
            active_transition: self.active_transition,
            last_phrase_key: self.last_phrase_key,
            last_style: self.last_style,
            fallback_state: self.fallback_state,
            fallback_counter: self.fallback_counter,
            recent: self.recent@,
            active_modifiers: self.active_modifiers@,
            last_modifier_key: self.last_modifier_key,
            pending_choice: self.pending_choice,
            palette_key: self.palette_key,
            current_palette: self.current_palette,
            last_direction_kind: self.last_direction_kind,
        }
    }
}

/// The director's state after directing a frame: without a held scene or
/// fresh phrase metadata, the musical-state fallback may advance.
pub open spec fn spec_after_direct(
    v: DirectorView,
    now_ms: i64,
    state: MusicState,
    phrase: PhraseInput,
    style: VisualStyle,
) -> DirectorView {
    if !spec_manual(v, style) && !spec_phrase_fresh(phrase) {
        DirectorView {
            fallback_state: if spec_fallback_advances(v, now_ms, state) {
                state
            } else {
                v.fallback_state
            },
            fallback_counter: spec_fallback_counter(v, now_ms, state),
            ..v
        }
    } else {
        v
    }
}

/// A frame's plan as values.
pub struct PlanView {
    pub primary: VisualFamily,
    pub secondary: Option<VisualFamily>,
    pub transition: Option<SceneTransition>,
    pub variation_seed: u64,
    pub palette: PaletteName,
    pub reason: SceneReason,
    pub committed_kind: PhraseKind,
    pub manual: bool,
    pub modifiers: Seq<ActiveModifier>,
}

pub open spec fn plan_view(step: SceneStep) -> PlanView {
    PlanView {
        primary: step.primary,
        secondary: step.secondary,
        transition: step.transition,
        variation_seed: step.variation_seed,
        palette: step.palette,
        reason: step.reason,
        committed_kind: step.committed_kind,
        manual: step.manual,
        modifiers: step.modifiers@,
    }
}

/// What a step decides: the plan and the director's state afterwards.
pub open spec fn spec_step_plan(
    v: DirectorView,
    d: Direction,
    desired: VisualFamily,
    now_ms: i64,
    style: VisualStyle,
    facts: FrameFacts,
    intensity: IntensityProfile,
    band: usize,
) -> (PlanView, DirectorView) {
    let v1 = phase_palette(v, d, band);
    let first = v.last_phrase_key is None;
    let v2 = phase_first_plan(v1, d, desired, now_ms, style);
    let v3 = phase_switch(v2, d, desired, now_ms, style, facts, intensity, first);
    let key = spec_committed_key(v3, d);
    let seed = spec_mix_seed(v3.session_seed, key);
    let shown = spec_shown(v3, now_ms);
    let v4 = phase_settle(v3, now_ms, seed);
    let v5 = phase_modifiers(v4, now_ms, v4.last_direction_kind, key, intensity, facts, shown.0, d.manual);
    (
        PlanView {
            primary: shown.0,
            secondary: shown.1,
            transition: shown.2,
            variation_seed: seed,
            palette: v1.current_palette,
            reason: d.reason,
            committed_kind: v4.last_direction_kind,
            manual: d.manual,
            modifiers: v5.active_modifiers,
        },
        v5,
    )
}

/// The state of a new director for `session_seed`.
pub open spec fn spec_new_view(session_seed: u64) -> DirectorView {
    DirectorView {
        session_seed: if session_seed == 0 {
            1
        } else {
            session_seed
        },
        current_primary: VisualFamily::WarpSpiral,
        focus: None,
        last_switch_ms: (-MIN_DWELL_MS) as i64,
        active_transition: None,
        last_phrase_key: None,
        last_style: VisualStyle::Auto,
        fallback_state: MusicState::Quiet,
        fallback_counter: 0,
        recent: Seq::empty(),
        active_modifiers: Seq::empty(),
        last_modifier_key: None,
        pending_choice: None,
        palette_key: None,
        current_palette: PaletteName::Ocean,
        last_direction_kind: PhraseKind::Unknown,
    }
}

/// What a caller hands the director for one frame: an optional held-scene
/// selection made before it, then the arguments of `direct`,
/// `choose_scene` and `step` (the frame's musical state is `facts.state`).
pub struct FrameInput {
    pub selection: Option<SceneSelection>,
    pub now_ms: i64,
    pub phrase: PhraseInput,
    pub style: VisualStyle,
    pub score_keys: Seq<i64>,
    pub facts: FrameFacts,
    pub intensity: IntensityProfile,
    pub band: usize,
}

/// One frame through `set_focus`, `direct`, `choose_scene` and `step`: its
/// plan and the director's state afterwards.
pub open spec fn spec_frame(v: DirectorView, f: FrameInput) -> (PlanView, DirectorView) {
    let v0 = match f.selection {
        Some(selection) => DirectorView { focus: spec_focus_for_selection(selection), ..v },
        None => v,
    };
    let d = spec_direction(v0, f.now_ms, f.facts.state, f.phrase, f.style);
    let v1 = spec_after_direct(v0, f.now_ms, f.facts.state, f.phrase, f.style);
    let desired = spec_desired(v1, d, f.style, f.score_keys);
    let v2 = if spec_chooses_fresh(v1, d, f.style) {
        DirectorView { pending_choice: Some((d.key, desired)), ..v1 }
    } else {
        v1
    };
    spec_step_plan(v2, d, desired, f.now_ms, f.style, f.facts, f.intensity, f.band)
}

/// The plans of a sequence of frames from the state `v`.
pub open spec fn spec_plans(v: DirectorView, frames: Seq<FrameInput>) -> Seq<PlanView>
    decreases frames.len(),
{
    if frames.len() == 0 {
        Seq::empty()
    } else {
        let (plan, next) = spec_frame(v, frames[0]);
        seq![plan] + spec_plans(next, frames.drop_first())
    }
}

proof fn lemma_plans_prefix(v: DirectorView, frames: Seq<FrameInput>, k: int)
    requires
        0 <= k <= frames.len(),
    ensures
        spec_plans(v, frames).len() == frames.len(),
        spec_plans(v, frames.take(k)) == spec_plans(v, frames).take(k),
    decreases frames.len(),
{
    if frames.len() > 0 {
        let next = spec_frame(v, frames[0]).1;
        lemma_plans_prefix(next, frames.drop_first(), if k > 0 { k - 1 } else { 0 });
        if k > 0 {
            assert(frames.take(k).drop_first() =~= frames.drop_first().take(k - 1));
            assert(frames.take(k)[0] == frames[0]);
        }
        assert(spec_plans(v, frames.take(k)) =~= spec_plans(v, frames).take(k));
    } else {
        assert(frames.take(k) =~= frames);
    }
}

/// Direction is deterministic and causal: two directors made with the same
/// seed and handed the same frames give the same plans, and the plan of
/// each frame depends only on the seed and the frames up to it.
pub proof fn law_plans_depend_only_on_seed_and_frames(
    seed: u64,
    frames: Seq<FrameInput>,
    other_frames: Seq<FrameInput>,
    k: int,
)
    requires
        0 <= k <= frames.len(),
        k <= other_frames.len(),
        frames.take(k) == other_frames.take(k),
    ensures
        spec_plans(spec_new_view(seed), frames).len() == frames.len(),
        spec_plans(spec_new_view(seed), frames).take(k) == spec_plans(
            spec_new_view(seed),
            other_frames,
        ).take(k),
{
    lemma_plans_prefix(spec_new_view(seed), frames, k);
    lemma_plans_prefix(spec_new_view(seed), other_frames, k);
}

/// The director's invariant: a bounded history, at most two modifiers, a
/// non-zero seed, and dissolves of positive length between two different
/// scenes.
pub open spec fn director_invariant(v: DirectorView) -> bool {
    &&& v.recent.len() <= HISTORY_LIMIT
    &&& v.active_modifiers.len() <= 2
    &&& v.session_seed >= 1
    &&& (v.active_transition matches Some(t) ==> t.duration_ms > 0 && t.from != t.to)
}

impl SceneDirector {
    #[verifier::type_invariant]
    spec fn well_formed(self) -> bool {
        director_invariant(self@)
    }

    /// A director for a session; a zero seed counts as one.
    pub fn new(session_seed: u64) -> (r: Self)
        ensures
            r@.session_seed == (if session_seed == 0 {
                1
            } else {
                session_seed
            }),
            r@.current_primary == VisualFamily::WarpSpiral,
            r@.focus is None,
            r@.last_switch_ms == -MIN_DWELL_MS,
            r@.active_transition is None,
            r@.last_phrase_key is None,
            r@.last_style == VisualStyle::Auto,
            r@.fallback_state == MusicState::Quiet,
            r@.fallback_counter == 0,
            r@.recent.len() == 0,
            r@.active_modifiers.len() == 0,
            r@.last_modifier_key is None,
            r@.pending_choice is None,
            r@.palette_key is None,
            r@.current_palette == PaletteName::Ocean,
            r@.last_direction_kind == PhraseKind::Unknown,
            r@ == spec_new_view(session_seed),
    {
        SceneDirector {
            session_seed: if session_seed == 0 {
                1
            } else {
                session_seed
            },
            current_primary: VisualFamily::WarpSpiral,
            focus: None,
            last_switch_ms: -MIN_DWELL_MS,
            active_transition: None,
            last_phrase_key: None,
            last_style: VisualStyle::Auto,
            fallback_state: MusicState::Quiet,
            fallback_counter: 0,
            recent: VecDeque::new(),
            active_modifiers: Vec::new(),
            last_modifier_key: None,
            pending_choice: None,
            palette_key: None,
            current_palette: PaletteName::Ocean,
            last_direction_kind: PhraseKind::Unknown,
        }
    }

    /// Holds the scene of `selection`, or releases the hold for `Auto`.
    pub fn set_focus(&mut self, selection: SceneSelection)
        ensures
            final(self)@ == (DirectorView { focus: spec_focus_for_selection(selection), ..old(self)@ }),
    {
        proof {
            use_type_invariant(&*self);
        }
        self.focus = focus_for_selection(selection);
    }

    /// The held scene, if any.
    pub fn focus(&self) -> (r: Option<VisualFamily>)
        ensures
            r == self@.focus,
    {
        self.focus
    }

    /// The queued choice: the direction key it was made for and the scene.
    pub fn pending_choice(&self) -> (r: Option<(u64, VisualFamily)>)
        ensures
            r == self@.pending_choice,
    {
        self.pending_choice
    }

    /// The session seed.
    pub fn session_seed(&self) -> (r: u64)
        ensures
            r == self@.session_seed,
    {
        self.session_seed
    }

    /// The number of remembered scenes.
    pub fn recent_len(&self) -> (r: usize)
        ensures
            r == self@.recent.len(),
    {
        self.recent.len()
    }

    /// The deterministic tie-break, below 1000, of `family` under `key`.
    pub fn tiebreak(&self, key: u64, family: VisualFamily) -> (r: u64)
        ensures
            r == spec_mix_seed(key ^ self@.session_seed, spec_family_number(family) as u64) % 1000,
            r < 1000,
    {
        mix_seed(key ^ self.session_seed, family.number() as u64) % 1000
    }

    /// Remembers a scene in the bounded history.
    pub fn remember(&mut self, primary: VisualFamily, secondary: Option<VisualFamily>, seed: u64)
        ensures
            final(self)@ == (DirectorView {
                recent: spec_remember(old(self)@.recent, RecentScene { primary, secondary, seed }),
                ..old(self)@
            }),
            final(self)@.recent.len() <= HISTORY_LIMIT,
    {
        proof {
            use_type_invariant(&*self);
        }
        let entry = RecentScene { primary, secondary, seed };
        let mut history = VecDeque::new();
        std::mem::swap(&mut history, &mut self.recent);
        if history.len() == HISTORY_LIMIT {
            let _ = history.pop_front();
        }
        let n = history.len();
        let same = n > 0 && history[n - 1] == entry;
        if !same {
            history.push_back(entry);
        }
        proof {
            let kept = if old(self)@.recent.len() == HISTORY_LIMIT {
                old(self)@.recent.drop_first()
            } else {
                old(self)@.recent
            };
            assert(history@ =~= spec_remember(old(self)@.recent, entry));
        }
        self.recent = history;
    }

    /// The direction for this frame; a changed musical state without fresh
    /// metadata advances the fallback once the scene has stayed its minimum.
    pub fn direct(&mut self, now_ms: i64, state: MusicState, phrase: &PhraseInput, style: VisualStyle) -> (d: Direction)
        ensures
            d == spec_direction(old(self)@, now_ms, state, *phrase, style),
            final(self)@ == spec_after_direct(old(self)@, now_ms, state, *phrase, style),
    {
        proof {
            use_type_invariant(&*self);
        }
        let manual = self.focus.is_some() || style != VisualStyle::Auto;
        let fresh = phrase.provenance != PhraseProvenance::Unavailable && phrase.segment.is_some()
            && phrase.confident && phrase.age_ms <= PHRASE_STALE_AFTER_MS;
        let segment: (PhraseKind, u64) = match phrase.segment {
            Some(seg) => seg,
            None => (PhraseKind::Unknown, 0),
        };
        let kind = if fresh {
            segment.0
        } else {
            phrase_for_music_state(state)
        };
        let key = if manual {
            let held = match self.focus {
                Some(f) => f,
                None => manual_family(style),
            };
            held.number() as u64
        } else if fresh {
            let track_hash = match &phrase.stable_track_id {
                Some(id) => stable_hash(id.as_str()),
                None => match phrase.structure_signature {
                    Some(signature) => signature,
                    None => self.session_seed,
                },
            };
            track_hash ^ rotate_left(segment.1, 17) ^ phrase_kind_id(kind)
        } else {
            let elapsed: i128 = (now_ms as i128) - (self.last_switch_ms as i128);
            if state != self.fallback_state && elapsed >= MIN_DWELL_MS as i128 {
                self.fallback_state = state;
                self.fallback_counter = self.fallback_counter.saturating_add(1);
            }
            self.session_seed ^ rotate_left(self.fallback_counter, 11) ^ music_state_id(state)
        };
        let reason = if manual {
            SceneReason::ManualOverride
        } else if fresh && phrase.provenance != PhraseProvenance::AudioInferred {
            SceneReason::Phrase
        } else {
            SceneReason::InferredState
        };
        let section: u64 = if fresh {
            rotate_left(segment.1, 17)
        } else {
            0
        };
        Direction { kind, key, reason, manual, palette_key: section ^ phrase_kind_id(kind) }
    }

    /// Whether `family` was among the last four primaries.
    fn recently_shown(&self, family: VisualFamily) -> (r: bool)
        ensures
            r == spec_recently_shown(self@.recent, family),
    {
        let n = self.recent.len();
        let mut j: usize = if n >= 4 {
            n - 4
        } else {
            0
        };
        while j < n
            invariant
                n == self@.recent.len(),
                n >= 4 ==> n - 4 <= j,
                j <= n,
                forall|k: int|
                    n - 4 <= k < j && 0 <= k ==> self@.recent[k].primary != family,
            decreases n - j,
        {
            if self.recent[j].primary == family {
                return true;
            }
            j = j + 1;
        }
        false
    }

    fn admissible(&self, level: u8, family: VisualFamily) -> (r: bool)
        ensures
            r == spec_admissible(self@.recent, level as int, family),
    {
        let n = self.recent.len();
        let fresh_composition = level >= 1 || n == 0 || self.recent[n - 1].primary.composition()
            != family.composition();
        let fresh_scene = level >= 2 || !self.recently_shown(family);
        fresh_composition && fresh_scene
    }

    fn best_candidate(&self, candidates: &Vec<VisualFamily>, keys: &Vec<i64>, level: u8) -> (r:
        Option<usize>)
        requires
            candidates@.len() == keys@.len(),
        ensures
            spec_best_index(candidates@, keys@, self@.recent, level as int, candidates@.len() as int)
                >= 0 ==> r == Some(
                spec_best_index(
                    candidates@,
                    keys@,
                    self@.recent,
                    level as int,
                    candidates@.len() as int,
                ) as usize,
            ),
            spec_best_index(candidates@, keys@, self@.recent, level as int, candidates@.len() as int)
                < 0 ==> r is None,
    {
        let mut best: Option<usize> = None;
        let mut i: usize = 0;
        while i < candidates.len()
            invariant
                i <= candidates@.len(),
                candidates@.len() == keys@.len(),
                spec_best_index(candidates@, keys@, self@.recent, level as int, i as int) >= 0
                    ==> best == Some(
                    spec_best_index(candidates@, keys@, self@.recent, level as int, i as int)
                        as usize,
                ),
                spec_best_index(candidates@, keys@, self@.recent, level as int, i as int) < 0
                    ==> best is None,
            decreases candidates@.len() - i,
        {
            proof {
                lemma_best_index(candidates@, keys@, self@.recent, level as int, i as int);
            }
            if self.admissible(level, candidates[i]) {
                match best {
                    Some(b) => {
                        if keys[i] >= keys[b] {
                            best = Some(i);
                        }
                    },
                    None => {
                        best = Some(i);
                    },
                }
            }
            i = i + 1;
        }
        best
    }

    /// The best scene for a phrase, given ordering keys aligned with the
    /// phrase's candidates: a fresh composition and a scene not among the
    /// last four are preferred, then only the latter, then any.
    pub fn choose_primary(&self, phrase: PhraseKind, score_keys: &Vec<i64>) -> (r: VisualFamily)
        requires
            score_keys@.len() == spec_candidates(phrase).len(),
        ensures
            r == spec_choose_primary(self@.recent, phrase, score_keys@),
            spec_candidates(phrase).contains(r),
            (exists|i: int|
                0 <= i < spec_candidates(phrase).len() && spec_admissible(
                    self@.recent,
                    1,
                    #[trigger] spec_candidates(phrase)[i],
                )) ==> !spec_recently_shown(self@.recent, r),
            (exists|i: int|
                0 <= i < spec_candidates(phrase).len() && spec_admissible(
                    self@.recent,
                    0,
                    #[trigger] spec_candidates(phrase)[i],
                )) ==> spec_admissible(self@.recent, 0, r),
    {
        let candidates = candidates_for_phrase(phrase);
        let ghost n = candidates@.len() as int;
        proof {
            lemma_best_index(candidates@, score_keys@, self@.recent, 0, n);
            lemma_best_index(candidates@, score_keys@, self@.recent, 1, n);
            lemma_best_index(candidates@, score_keys@, self@.recent, 2, n);
            lemma_level_two_admits(self@.recent, candidates@[0]);
            assert(spec_admissible(self@.recent, 2, candidates@[0]));
        }
        match self.best_candidate(&candidates, score_keys, 0) {
            Some(i) => {
                return candidates[i];
            },
            None => {},
        }
        match self.best_candidate(&candidates, score_keys, 1) {
            Some(i) => {
                return candidates[i];
            },
            None => {},
        }
        match self.best_candidate(&candidates, score_keys, 2) {
            Some(i) => {
                return candidates[i];
            },
            None => {},
        }
        VisualFamily::AuroraVeil
    }

    /// The scene wanted now; a fresh choice is queued until the direction
    /// changes, so a brief change of band cannot make it oscillate.
    /// `score_keys` are ordering keys aligned with the phrase's candidates.
    pub fn choose_scene(&mut self, direction: &Direction, style: VisualStyle, score_keys: &Vec<i64>) -> (r: VisualFamily)
        requires
            score_keys@.len() == spec_candidates(direction.kind).len(),
            direction.manual == spec_manual(old(self)@, style),
        ensures
            r == spec_desired(old(self)@, *direction, style, score_keys@),
            final(self)@ == (if spec_chooses_fresh(old(self)@, *direction, style) {
                DirectorView { pending_choice: Some((direction.key, r)), ..old(self)@ }
            } else {
                old(self)@
            }),
            direction.manual ==> r == spec_held_scene(old(self)@, style),
    {
        proof {
            use_type_invariant(&*self);
        }
        if direction.manual {
            return match self.focus {
                Some(f) => f,
                None => manual_family(style),
            };
        }
        let same_direction = match self.last_phrase_key {
            Some(key) => key == direction.key,
            None => false,
        } && self.last_style == style;
        if same_direction {
            return match self.active_transition {
                Some(t) => t.to,
                None => self.current_primary,
            };
        }
        match self.pending_choice {
            Some((key, family)) => {
                if key == direction.key {
                    return family;
                }
            },
            None => {},
        }
        let family = self.choose_primary(direction.kind, score_keys);
        self.pending_choice = Some((direction.key, family));
        family
    }

    fn apply_palette(&mut self, direction: &Direction, band: usize)
        ensures
            final(self)@ == phase_palette(old(self)@, *direction, band),
    {
        proof {
            use_type_invariant(&*self);
        }
        let changed = match self.palette_key {
            Some(key) => key != direction.palette_key,
            None => true,
        };
        if changed {
            self.current_palette = palette_for_music(direction.kind, direction.palette_key, band);
            self.palette_key = Some(direction.palette_key);
        }
    }

    fn apply_first_plan(
        &mut self,
        direction: &Direction,
        desired: VisualFamily,
        now_ms: i64,
        style: VisualStyle,
    ) -> (first: bool)
        ensures
            first == (old(self)@.last_phrase_key is None),
            final(self)@ == phase_first_plan(old(self)@, *direction, desired, now_ms, style),
    {
        proof {
            use_type_invariant(&*self);
        }
        let first = self.last_phrase_key.is_none();
        if first {
            self.current_primary = desired;
            self.last_switch_ms = now_ms;
            self.last_phrase_key = Some(direction.key);
            self.last_style = style;
            self.last_direction_kind = direction.kind;
            let seed = mix_seed(self.session_seed, direction.key);
            self.remember(desired, None, seed);
        }
        first
    }

    fn apply_switch(
        &mut self,
        direction: &Direction,
        desired: VisualFamily,
        now_ms: i64,
        style: VisualStyle,
        facts: &FrameFacts,
        intensity: IntensityProfile,
        first: bool,
    )
        ensures
            final(self)@ == phase_switch(
                old(self)@,
                *direction,
                desired,
                now_ms,
                style,
                *facts,
                intensity,
                first,
            ),
    {
        proof {
            use_type_invariant(&*self);
        }
        let elapsed: i128 = (now_ms as i128) - (self.last_switch_ms as i128);
        let mixed = self.current_primary.is_spatial() != desired.is_spatial();
        let residence: i128 = if mixed {
            MIXED_DWELL_MS as i128
        } else {
            MIN_DWELL_MS as i128
        };
        let same_key = match self.last_phrase_key {
            Some(key) => key == direction.key,
            None => false,
        };
        let key_changed = !same_key || self.last_style != style;
        let confirmed_drop = self.last_direction_kind == PhraseKind::Up && direction.kind
            == PhraseKind::Chorus && facts.drop_energy && facts.state == MusicState::Impact
            && elapsed >= DROP_DWELL_MS as i128;
        let starts = !first && desired != self.current_primary && key_changed
            && self.active_transition.is_none() && (direction.manual || !facts.steady_beat
            || facts.transition_moment) && (elapsed >= residence || confirmed_drop
            || direction.manual || self.recent.len() == 0);
        if starts {
            let duration = transition_duration_ms(direction.kind, intensity, facts.steady_beat, mixed);
            self.active_transition = Some(
                ActiveTransition {
                    from: self.current_primary,
                    to: desired,
                    start_ms: now_ms,
                    duration_ms: duration,
                },
            );
            self.last_switch_ms = now_ms;
            self.last_phrase_key = Some(direction.key);
            self.last_style = style;
            self.last_direction_kind = direction.kind;
        } else if key_changed && desired == self.current_primary {
            self.last_phrase_key = Some(direction.key);
            self.last_style = style;
            self.last_direction_kind = direction.kind;
            let seed = mix_seed(self.session_seed, direction.key);
            self.remember(desired, None, seed);
        }
    }

    fn apply_settle(&mut self, now_ms: i64, seed: u64) -> (r: (
        VisualFamily,
        Option<VisualFamily>,
        Option<SceneTransition>,
    ))
        ensures
            r == spec_shown(old(self)@, now_ms),
            final(self)@ == phase_settle(old(self)@, now_ms, seed),
            r.1 matches Some(incoming) ==> incoming != r.0,
            r.1 is Some <==> r.2 is Some,
    {
        proof {
            use_type_invariant(&*self);
        }
        match self.active_transition {
            Some(t) => {
                let elapsed: i128 = (now_ms as i128) - (t.start_ms as i128);
                if elapsed >= t.duration_ms as i128 {
                    self.current_primary = t.to;
                    self.active_transition = None;
                    self.remember(t.to, None, seed);
                    (t.to, None, None)
                } else {
                    (
                        t.from,
                        Some(t.to),
                        Some(SceneTransition { start_ms: t.start_ms, duration_ms: t.duration_ms }),
                    )
                }
            },
            None => (self.current_primary, None, None),
        }
    }

    fn apply_modifiers(
        &mut self,
        now_ms: i64,
        phrase: PhraseKind,
        key: u64,
        intensity: IntensityProfile,
        facts: &FrameFacts,
        base: VisualFamily,
        manual: bool,
    )
        ensures
            final(self)@ == phase_modifiers(
                old(self)@,
                now_ms,
                phrase,
                key,
                intensity,
                *facts,
                base,
                manual,
            ),
    {
        proof {
            use_type_invariant(&*self);
        }
        let mut live: Vec<ActiveModifier> = Vec::new();
        let mut i: usize = 0;
        while i < self.active_modifiers.len()
            invariant
                i <= self@.active_modifiers.len(),
                live@ == spec_live_modifiers(self@.active_modifiers.take(i as int), now_ms),
            decreases self@.active_modifiers.len() - i,
        {
            let m = self.active_modifiers[i];
            proof {
                assert(self@.active_modifiers.take(i as int + 1).drop_last()
                    =~= self@.active_modifiers.take(i as int));
            }
            if !expired(m, now_ms) {
                live.push(m);
            }
            i = i + 1;
        }
        proof {
            assert(self@.active_modifiers.take(i as int) =~= self@.active_modifiers);
            lemma_live_modifiers_len(self@.active_modifiers, now_ms);
        }
        if manual || intensity == IntensityProfile::Chill {
            self.active_modifiers = Vec::new();
            return;
        }
        let trigger = facts.modifier_trigger || phrase == PhraseKind::Up || phrase
            == PhraseKind::Chorus || phrase == PhraseKind::Fill;
        let already = match self.last_modifier_key {
            Some(k) => k == key,
            None => false,
        };
        let due = !already && trigger;
        let wild = intensity == IntensityProfile::Wild;
        if due {
            let candidate = modifier_for_phrase(phrase, mix_seed(self.session_seed, key));
            if modifier_compatible(base, candidate) && !has_kind(&live, candidate) && live.len()
                < 2 {
                live.push(
                    ActiveModifier {
                        kind: candidate,
                        started_ms: now_ms,
                        attack_ms: if wild {
                            160
                        } else {
                            450
                        },
                        hold_ms: if wild {
                            7500
                        } else if phrase == PhraseKind::Chorus {
                            10000
                        } else {
                            12000
                        },
                        release_ms: if wild {
                            900
                        } else {
                            1800
                        },
                        peak_permille: if wild {
                            1000
                        } else {
                            620
                        },
                    },
                );
            }
        }
        let impact = if wild {
            facts.impact_over_wild
        } else {
            facts.impact_over_balanced
        };
        if impact && modifier_compatible(base, ModifierKind::ImpactBloom) && !has_kind(
            &live,
            ModifierKind::ImpactBloom,
        ) && live.len() < 2 {
            live.push(
                ActiveModifier {
                    kind: ModifierKind::ImpactBloom,
                    started_ms: now_ms,
                    attack_ms: 40,
                    hold_ms: if wild {
                        260
                    } else {
                        160
                    },
                    release_ms: if wild {
                        340
                    } else {
                        500
                    },
                    peak_permille: if wild {
                        1000
                    } else {
                        680
                    },
                },
            );
        }
        self.active_modifiers = live;
        if due {
            self.last_modifier_key = Some(key);
        }
    }

    /// Commits this frame's scene decision: the palette follows the
    /// direction's section, the first plan shows the wanted scene at once, a
    /// dissolve starts at a musical moment once the scene has stayed long
    /// enough, a finished dissolve commits its scene, and the modifiers are
    /// updated over the scene shown.
    pub fn step(
        &mut self,
        now_ms: i64,
        direction: &Direction,
        desired: VisualFamily,
        style: VisualStyle,
        facts: &FrameFacts,
        intensity: IntensityProfile,
        band: usize,
    ) -> (r: SceneStep)
        ensures
            ({
                let v1 = phase_palette(old(self)@, *direction, band);
                let first = old(self)@.last_phrase_key is None;
                let v2 = phase_first_plan(v1, *direction, desired, now_ms, style);
                let v3 = phase_switch(v2, *direction, desired, now_ms, style, *facts, intensity, first);
                let key = spec_committed_key(v3, *direction);
                let seed = spec_mix_seed(v3.session_seed, key);
                let shown = spec_shown(v3, now_ms);
                let v4 = phase_settle(v3, now_ms, seed);
                let v5 = phase_modifiers(
                    v4,
                    now_ms,
                    v4.last_direction_kind,
                    key,
                    intensity,
                    *facts,
                    shown.0,
                    direction.manual,
                );
                &&& final(self)@ == v5
                &&& r.primary == shown.0
                &&& r.secondary == shown.1
                &&& r.transition == shown.2
                &&& r.variation_seed == seed
                &&& r.palette == v1.current_palette
                &&& r.reason == direction.reason
                &&& r.committed_kind == v4.last_direction_kind
                &&& r.manual == direction.manual
                &&& r.modifiers@ == v5.active_modifiers
            }),
            (plan_view(r), final(self)@) == spec_step_plan(
                old(self)@,
                *direction,
                desired,
                now_ms,
                style,
                *facts,
                intensity,
                band,
            ),
            r.secondary matches Some(incoming) ==> incoming != r.primary,
            r.secondary is Some <==> r.transition is Some,
    {
        self.apply_palette(direction, band);
        let palette = self.current_palette;
        let first = self.apply_first_plan(direction, desired, now_ms, style);
        self.apply_switch(direction, desired, now_ms, style, facts, intensity, first);
        let key = match self.last_phrase_key {
            Some(k) => k,
            None => direction.key,
        };
        let seed = mix_seed(self.session_seed, key);
        let shown = self.apply_settle(now_ms, seed);
        let committed_kind = self.last_direction_kind;
        self.apply_modifiers(
            now_ms,
            committed_kind,
            key,
            intensity,
            facts,
            shown.0,
            direction.manual,
        );
        let modifiers = self.active_modifiers.clone();
        SceneStep {
            primary: shown.0,
            secondary: shown.1,
            transition: shown.2,
            variation_seed: seed,
            palette,
            reason: direction.reason,
            committed_kind,
            manual: direction.manual,
            modifiers,
        }
    }
}

/// Where a modifier's envelope stands at a moment.
#[derive(Clone, Copy, Debug, PartialEq, Eq, Structural)]
pub enum EnvelopeStage {
    /// Rising, `elapsed` milliseconds into an attack of `length`.
    Attack { elapsed: i64, length: i64 },
    /// At its peak.
    Hold,
    /// Falling, `elapsed` milliseconds into a release of `length`.
    Release { elapsed: i64, length: i64 },
}

/// The stage of `m`'s envelope at `now_ms`; a moment before the start
/// counts as the start.
pub open spec fn spec_envelope_stage(m: ActiveModifier, now_ms: i64) -> EnvelopeStage {
    let age = if now_ms < m.started_ms { 0 } else { now_ms - m.started_ms };
    if age < m.attack_ms {
        EnvelopeStage::Attack { elapsed: age as i64, length: m.attack_ms }
    } else if age < m.attack_ms + m.hold_ms {
        EnvelopeStage::Hold
    } else {
        EnvelopeStage::Release { elapsed: (age - m.attack_ms - m.hold_ms) as i64, length: m.release_ms }
    }
}

/// The stage of `m`'s envelope at `now_ms`, for a modifier whose times lie
/// within the clock's range.
pub fn envelope_stage(m: ActiveModifier, now_ms: i64) -> (r: EnvelopeStage)
    requires
        -CLOCK_LIMIT_MS <= now_ms <= CLOCK_LIMIT_MS,
        -CLOCK_LIMIT_MS <= m.started_ms <= CLOCK_LIMIT_MS,
        0 <= m.attack_ms <= CLOCK_LIMIT_MS,
        0 <= m.hold_ms <= CLOCK_LIMIT_MS,
    ensures
        r == spec_envelope_stage(m, now_ms),
{
    let age = if now_ms < m.started_ms { 0 } else { now_ms - m.started_ms };
    if age < m.attack_ms {
        EnvelopeStage::Attack { elapsed: age, length: m.attack_ms }
    } else if age < m.attack_ms + m.hold_ms {
        EnvelopeStage::Hold
    } else {
        EnvelopeStage::Release { elapsed: age - m.attack_ms - m.hold_ms, length: m.release_ms }
    }
}

/// Whether `m`'s envelope has run its course at `now_ms`.
pub fn modifier_expired(m: ActiveModifier, now_ms: i64) -> (r: bool)
    ensures
        r == spec_expired(m, now_ms),
{
    expired(m, now_ms)
}

fn expired(m: ActiveModifier, now_ms: i64) -> (r: bool)
    ensures
        r == spec_expired(m, now_ms),
{
    (now_ms as i128) >= (m.started_ms as i128) + (m.attack_ms as i128) + (m.hold_ms as i128)
        + (m.release_ms as i128)
}

fn has_kind(mods: &Vec<ActiveModifier>, kind: ModifierKind) -> (r: bool)
    ensures
        r == spec_has_kind(mods@, kind),
{
    let mut i: usize = 0;
    while i < mods.len()
        invariant
            i <= mods@.len(),
            forall|j: int| 0 <= j < i ==> mods@[j].kind != kind,
        decreases mods@.len() - i,
    {
        if mods[i].kind == kind {
            return true;
        }
        i = i + 1;
    }
    false
}

/// The length of a dissolve, in milliseconds.
pub fn transition_duration_ms(
    kind: PhraseKind,
    intensity: IntensityProfile,
    steady_beat: bool,
    mixed: bool,
) -> (r: i64)
    ensures
        r == spec_transition_duration_ms(kind, intensity, steady_beat, mixed),
        r >= 1200,
{
    let base: i64 = match kind {
        PhraseKind::Chorus | PhraseKind::Fill => match intensity {
            IntensityProfile::Chill => 1000,
            IntensityProfile::Balanced => 800,
            IntensityProfile::Wild => 464,
        },
        PhraseKind::Up | PhraseKind::Bridge => match intensity {
            IntensityProfile::Chill => 1750,
            IntensityProfile::Balanced => 1400,
            IntensityProfile::Wild => 812,
        },
        PhraseKind::Intro | PhraseKind::Down | PhraseKind::Outro => match intensity {
            IntensityProfile::Chill => 3000,
            IntensityProfile::Balanced => 2400,
            IntensityProfile::Wild => 1392,
        },
        _ => match intensity {
            IntensityProfile::Chill => 2250,
            IntensityProfile::Balanced => 1800,
            IntensityProfile::Wild => 1044,
        },
    };
    let beat: i64 = if !steady_beat && base < 2400 {
        2400
    } else {
        base
    };
    let minimum: i64 = if mixed {
        match intensity {
            IntensityProfile::Chill => 3600,
            IntensityProfile::Balanced => 2800,
            IntensityProfile::Wild => 2000,
        }
    } else {
        1200
    };
    if beat < minimum {
        minimum
    } else {
        beat
    }
}

} // verus!
