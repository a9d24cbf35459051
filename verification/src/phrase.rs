//! Musical phrase vocabulary, the audio-inferred phrase tracker's decisions,
//! the choice between external and inferred phrase metadata, and the status
//! line shown to the performer.
use vstd::prelude::*;

use std::collections::VecDeque;

use crate::diagnostics::push_bounded;
use crate::director::{spec_stable_hash, stable_hash_bytes};

verus! {

/// The coarse musical state derived from the analysed audio.
#[derive(Clone, Copy, Debug, PartialEq, Eq, Structural)]
pub enum MusicState {
    Quiet,
    Flow,
    Groove,
    Build,
    Impact,
    Peak,
    Breakdown,
}

impl Default for MusicState {
    fn default() -> (r: Self)
        ensures
            r == MusicState::Quiet,
    {
        MusicState::Quiet
    }
}

/// A section of a track as DJs name them.
#[derive(Clone, Copy, Debug, PartialEq, Eq, Structural)]
pub enum PhraseKind {
    Intro,
    Verse,
    Up,
    Chorus,
    Down,
    Bridge,
    Outro,
    Fill,
    Unknown,
}

impl Default for PhraseKind {
    fn default() -> (r: Self)
        ensures
            r == PhraseKind::Unknown,
    {
        PhraseKind::Unknown
    }
}

/// Where phrase metadata came from.
#[derive(Clone, Copy, Debug, PartialEq, Eq, Structural)]
pub enum PhraseProvenance {
    Rekordbox,
    CueMarkers,
    AudioInferred,
    Unavailable,
}

impl Default for PhraseProvenance {
    fn default() -> (r: Self)
        ensures
            r == PhraseProvenance::Unavailable,
    {
        PhraseProvenance::Unavailable
    }
}

pub open spec fn spec_phrase_kind_wire(kind: PhraseKind) -> Seq<char> {
    match kind {
        PhraseKind::Intro => "intro"@,
        PhraseKind::Verse => "verse"@,
        PhraseKind::Up => "up"@,
        PhraseKind::Chorus => "chorus"@,
        PhraseKind::Down => "down"@,
        PhraseKind::Bridge => "bridge"@,
        PhraseKind::Outro => "outro"@,
        PhraseKind::Fill => "fill"@,
        PhraseKind::Unknown => "unknown"@,
    }
}

pub open spec fn spec_provenance_wire(provenance: PhraseProvenance) -> Seq<char> {
    match provenance {
        PhraseProvenance::Rekordbox => "rekordbox"@,
        PhraseProvenance::CueMarkers => "cueMarkers"@,
        PhraseProvenance::AudioInferred => "audioInferred"@,
        PhraseProvenance::Unavailable => "unavailable"@,
    }
}

impl PhraseKind {
    /// The camel-case name used on the wire.
    pub fn wire_name(self) -> (r: &'static str)
        ensures
            r@ == spec_phrase_kind_wire(self),
    {
        match self {
            PhraseKind::Intro => "intro",
            PhraseKind::Verse => "verse",
            PhraseKind::Up => "up",
            PhraseKind::Chorus => "chorus",
            PhraseKind::Down => "down",
            PhraseKind::Bridge => "bridge",
            PhraseKind::Outro => "outro",
            PhraseKind::Fill => "fill",
            PhraseKind::Unknown => "unknown",
        }
    }
}

impl PhraseProvenance {
    /// The camel-case name used on the wire.
    pub fn wire_name(self) -> (r: &'static str)
        ensures
            r@ == spec_provenance_wire(self),
    {
        match self {
            PhraseProvenance::Rekordbox => "rekordbox",
            PhraseProvenance::CueMarkers => "cueMarkers",
            PhraseProvenance::AudioInferred => "audioInferred",
            PhraseProvenance::Unavailable => "unavailable",
        }
    }
}

/// The phrase suggested by a musical state; quiet passages open a track and
/// close a section later on, and every third breakdown is read as a bridge.
pub open spec fn spec_phrase_for_state(state: MusicState, phrase_index: u64) -> PhraseKind {
    match state {
        MusicState::Quiet => if phrase_index == 0 {
            PhraseKind::Intro
        } else {
            PhraseKind::Down
        },
        MusicState::Flow | MusicState::Groove => PhraseKind::Verse,
        MusicState::Build => PhraseKind::Up,
        MusicState::Impact | MusicState::Peak => PhraseKind::Chorus,
        MusicState::Breakdown => if phrase_index % 3 == 0 {
            PhraseKind::Bridge
        } else {
            PhraseKind::Down
        },
    }
}

pub fn phrase_for_state(state: MusicState, phrase_index: u64) -> (r: PhraseKind)
    ensures
        r == spec_phrase_for_state(state, phrase_index),
{
    match state {
        MusicState::Quiet => {
            if phrase_index == 0 {
                PhraseKind::Intro
            } else {
                PhraseKind::Down
            }
        },
        MusicState::Flow | MusicState::Groove => PhraseKind::Verse,
        MusicState::Build => PhraseKind::Up,
        MusicState::Impact | MusicState::Peak => PhraseKind::Chorus,
        MusicState::Breakdown => {
            if phrase_index % 3 == 0 {
                PhraseKind::Bridge
            } else {
                PhraseKind::Down
            }
        },
    }
}

/// Phrase metadata older than this is reported as stale (milliseconds).
pub const FRESH_METADATA_MS: u64 = 2000;

/// External phrase metadata is preferred for this long (milliseconds).
pub const HOLD_METADATA_MS: u64 = 5000;

/// Audio observations are sampled at most this often (milliseconds).
pub const OBSERVATION_INTERVAL_MS: u64 = 250;

/// The observation history keeps at most this many samples.
pub const MAX_OBSERVATIONS: usize = 256;

/// A structure signature needs at least this many observations.
pub const SIGNATURE_OBSERVATIONS: usize = 32;

/// A candidate phrase must stay suggested this long before a bar boundary can
/// adopt it (milliseconds).
pub const CANDIDATE_STABLE_MS: u64 = 2000;

pub open spec fn spec_status_message(
    provenance: PhraseProvenance,
    stale: bool,
    structure_model_ready: bool,
) -> Seq<char> {
    match provenance {
        PhraseProvenance::Unavailable => "Phrase direction unavailable"@,
        _ => if stale {
            "Phrase source is stale; holding the current scene briefly"@
        } else {
            match provenance {
                PhraseProvenance::Rekordbox => "Live Rekordbox phrase metadata"@,
                PhraseProvenance::CueMarkers => "Cue-derived structure"@,
                _ => if structure_model_ready {
                    "Live structure model ready"@
                } else {
                    "Learning this song's structure from live audio"@
                },
            }
        },
    }
}

/// Whether phrase metadata `age_ms` old counts as stale.
pub fn phrase_is_stale(age_ms: u64) -> (r: bool)
    ensures
        r == (age_ms > FRESH_METADATA_MS),
{
    age_ms > FRESH_METADATA_MS
}

/// The status line for phrase metadata of `provenance`.
pub fn status_message(provenance: PhraseProvenance, stale: bool, structure_model_ready: bool) -> (r:
    &'static str)
    ensures
        r@ == spec_status_message(provenance, stale, structure_model_ready),
{
    match provenance {
        PhraseProvenance::Unavailable => "Phrase direction unavailable",
        _ => {
            if stale {
                "Phrase source is stale; holding the current scene briefly"
            } else {
                match provenance {
                    PhraseProvenance::Rekordbox => "Live Rekordbox phrase metadata",
                    PhraseProvenance::CueMarkers => "Cue-derived structure",
                    _ => {
                        if structure_model_ready {
                            "Live structure model ready"
                        } else {
                            "Learning this song's structure from live audio"
                        }
                    },
                }
            }
        },
    }
}

/// Chooses between external phrase metadata and the audio-inferred phrase.
pub struct PhraseRouter;

/// External metadata wins while it is available and at most five seconds old.
pub open spec fn external_is_usable(provenance: PhraseProvenance, age_ms: u64) -> bool {
    provenance != PhraseProvenance::Unavailable && age_ms <= HOLD_METADATA_MS
}

impl PhraseRouter {
    /// `external` carries a context with its provenance and its age in
    /// milliseconds; it is chosen while usable, otherwise `inferred` is.
    pub fn select<T>(external: Option<(T, PhraseProvenance, u64)>, inferred: T) -> (r: T)
        ensures
            r == (match external {
                Some(e) => if external_is_usable(e.1, e.2) {
                    e.0
                } else {
                    inferred
                },
                None => inferred,
            }),
    {
        match external {
            Some((context, provenance, age_ms)) => {
                if provenance != PhraseProvenance::Unavailable && age_ms <= HOLD_METADATA_MS {
                    context
                } else {
                    inferred
                }
            },
            None => inferred,
        }
    }
}

/// One audio observation, each feature held as the bit pattern of its
/// 32-bit float so that the history can be kept here exactly.
#[derive(Clone, Copy, Debug, PartialEq, Eq, Structural)]
pub struct ObservationBits {
    pub energy: u32,
    pub onset: u32,
    pub bass: u32,
    pub mids: u32,
    pub highs: u32,
}

pub open spec fn saturating_elapsed(now: u64, since: u64) -> u64 {
    if now >= since {
        (now - since) as u64
    } else {
        0
    }
}

/// Whether a bar boundary is seen: a confident beat that starts a bar, early
/// in the beat, and not the boundary already seen.
pub open spec fn spec_bar_boundary(
    last_bar_beat: Option<u64>,
    beat_index: u64,
    beat_confident: bool,
    early_in_beat: bool,
) -> bool {
    beat_confident && beat_index % 4 == 0 && early_in_beat && last_bar_beat != Some(beat_index)
}

/// Whether the tracker moves to the next phrase.
pub open spec fn spec_phrase_changes(
    dwell: u64,
    min_dwell: u64,
    max_dwell: u64,
    suggested: PhraseKind,
    current: PhraseKind,
    candidate_stable: bool,
    bar_boundary: bool,
    beat_confident: bool,
    impact_boundary: bool,
) -> bool {
    (dwell >= max_dwell && (bar_boundary || !beat_confident)) || (dwell >= min_dwell && suggested
        != current && (impact_boundary || (candidate_stable && bar_boundary)))
}

/// The phrase decisions of the audio-inferred phrase provider, on a clock
/// of milliseconds: a bounded observation history, a structure signature
/// computed once, and phrase changes held by a minimum and maximum dwell.
pub struct PhraseTracker {
    started_ms: u64,
    phrase_started_ms: u64,
    last_observation_ms: Option<u64>,
    current_kind: PhraseKind,
    candidate_kind: PhraseKind,
    candidate_since_ms: u64,
    phrase_index: u64,
    observations: VecDeque<ObservationBits>,
    structure_signature: Option<u64>,
    last_bar_boundary_beat: Option<u64>,
    min_dwell_ms: u64,
    max_dwell_ms: u64,
}

impl PhraseTracker {
    #[verifier::type_invariant]
    spec fn history_is_bounded(self) -> bool {
        self.observations@.len() <= MAX_OBSERVATIONS
    }

    pub closed spec fn started(self) -> u64 {
        self.started_ms
    }

    pub closed spec fn phrase_started(self) -> u64 {
        self.phrase_started_ms
    }

    pub closed spec fn last_observation(self) -> Option<u64> {
        self.last_observation_ms
    }

    pub closed spec fn kind(self) -> PhraseKind {
        self.current_kind
    }

    pub closed spec fn candidate(self) -> PhraseKind {
        self.candidate_kind
    }

    pub closed spec fn candidate_since(self) -> u64 {
        self.candidate_since_ms
    }

    pub closed spec fn index(self) -> u64 {
        self.phrase_index
    }

    pub closed spec fn history(self) -> Seq<ObservationBits> {
        self.observations@
    }

    pub closed spec fn signature(self) -> Option<u64> {
        self.structure_signature
    }

    pub closed spec fn last_bar_beat(self) -> Option<u64> {
        self.last_bar_boundary_beat
    }

    pub closed spec fn min_dwell(self) -> u64 {
        self.min_dwell_ms
    }

    pub closed spec fn max_dwell(self) -> u64 {
        self.max_dwell_ms
    }

    /// A tracker started at `now_ms` with the usual dwell of 8 to 28 seconds.
    pub fn new(now_ms: u64) -> (r: Self)
        ensures
            r.started() == now_ms,
            r.phrase_started() == now_ms,
            r.last_observation() is None,
            r.kind() == PhraseKind::Intro,
            r.candidate() == PhraseKind::Intro,
            r.candidate_since() == now_ms,
            r.index() == 0,
            r.history().len() == 0,
            r.signature() is None,
            r.last_bar_beat() is None,
            r.min_dwell() == 8000,
            r.max_dwell() == 28000,
    {
        Self::with_dwell(now_ms, 8000, 28000)
    }

    /// A tracker started at `now_ms` that holds each phrase at least
    /// `min_dwell_ms` and changes it at the next boundary after `max_dwell_ms`.
    pub fn with_dwell(now_ms: u64, min_dwell_ms: u64, max_dwell_ms: u64) -> (r: Self)
        ensures
            r.started() == now_ms,
            r.phrase_started() == now_ms,
            r.last_observation() is None,
            r.kind() == PhraseKind::Intro,
            r.candidate() == PhraseKind::Intro,
            r.candidate_since() == now_ms,
            r.index() == 0,
            r.history().len() == 0,
            r.signature() is None,
            r.last_bar_beat() is None,
            r.min_dwell() == min_dwell_ms,
            r.max_dwell() == max_dwell_ms,
    {
        PhraseTracker {
            started_ms: now_ms,
            phrase_started_ms: now_ms,
            last_observation_ms: None,
            current_kind: PhraseKind::Intro,
            candidate_kind: PhraseKind::Intro,
            candidate_since_ms: now_ms,
            phrase_index: 0,
            observations: VecDeque::new(),
            structure_signature: None,
            last_bar_boundary_beat: None,
            min_dwell_ms,
            max_dwell_ms,
        }
    }

    /// Records `sample` when an observation is due (none yet, or at least
    /// 250 ms since the last); the oldest is dropped when the history is full.
    pub fn observe(&mut self, now_ms: u64, sample: ObservationBits) -> (recorded: bool)
        ensures
            recorded == (old(self).last_observation() matches Some(t) ==> saturating_elapsed(
                now_ms,
                t,
            ) >= OBSERVATION_INTERVAL_MS),
            recorded ==> final(self).last_observation() == Some(now_ms),
            recorded && old(self).history().len() < MAX_OBSERVATIONS ==> final(self).history()
                == old(self).history().push(sample),
            recorded && old(self).history().len() == MAX_OBSERVATIONS ==> final(self).history()
                == old(self).history().drop_first().push(sample),
            !recorded ==> final(self).history() == old(self).history() && final(self).last_observation() == old(self).last_observation(),
            final(self).history().len() <= MAX_OBSERVATIONS,
            final(self).started() == old(self).started(),
            final(self).phrase_started() == old(self).phrase_started(),
            final(self).kind() == old(self).kind(),
            final(self).candidate() == old(self).candidate(),
            final(self).candidate_since() == old(self).candidate_since(),
            final(self).index() == old(self).index(),
            final(self).signature() == old(self).signature(),
            final(self).last_bar_beat() == old(self).last_bar_beat(),
            final(self).min_dwell() == old(self).min_dwell(),
            final(self).max_dwell() == old(self).max_dwell(),
    {
        proof {
            use_type_invariant(&*self);
        }
        let due = match self.last_observation_ms {
            Some(last) => {
                let elapsed: u64 = if now_ms >= last {
                    now_ms - last
                } else {
                    0
                };
                elapsed >= OBSERVATION_INTERVAL_MS
            },
            None => true,
        };
        if due {
            let mut history = VecDeque::new();
            std::mem::swap(&mut history, &mut self.observations);
            push_bounded(&mut history, sample, MAX_OBSERVATIONS);
            self.observations = history;
            self.last_observation_ms = Some(now_ms);
        }
        due
    }

    /// Whether the structure signature is still to be computed: none yet,
    /// and at least 32 observations recorded.
    pub fn signature_due(&self) -> (r: bool)
        ensures
            r == (self.signature() is None && self.history().len() >= SIGNATURE_OBSERVATIONS),
    {
        self.structure_signature.is_none() && self.observations.len() >= SIGNATURE_OBSERVATIONS
    }

    /// Locks the structure signature to the hash of the quantised features,
    /// unless a signature is already held.
    pub fn record_signature(&mut self, quantized: &[u8])
        ensures
            old(self).signature() is None ==> final(self).signature() == Some(
                spec_stable_hash(quantized@),
            ),
            old(self).signature() is Some ==> final(self).signature() == old(self).signature(),
            final(self).history() == old(self).history(),
            final(self).started() == old(self).started(),
            final(self).phrase_started() == old(self).phrase_started(),
            final(self).last_observation() == old(self).last_observation(),
            final(self).kind() == old(self).kind(),
            final(self).candidate() == old(self).candidate(),
            final(self).candidate_since() == old(self).candidate_since(),
            final(self).index() == old(self).index(),
            final(self).last_bar_beat() == old(self).last_bar_beat(),
            final(self).min_dwell() == old(self).min_dwell(),
            final(self).max_dwell() == old(self).max_dwell(),
    {
        proof {
            use_type_invariant(&*self);
        }
        if self.structure_signature.is_none() {
            self.structure_signature = Some(stable_hash_bytes(quantized));
        }
    }

    /// Advances the phrase at `now_ms`. The caller states whether the beat
    /// is confident (at least 0.42), whether the beat phase is early (under
    /// 0.22), and whether an impact marks a boundary (impact over 0.82 with
    /// novelty over 0.22). Returns whether a new phrase began.
    pub fn advance(
        &mut self,
        now_ms: u64,
        state: MusicState,
        beat_index: u64,
        beat_confident: bool,
        early_in_beat: bool,
        impact_boundary: bool,
    ) -> (changed: bool)
        ensures
            ({
                let suggested = spec_phrase_for_state(state, old(self).index());
                let candidate_since = if suggested != old(self).candidate() {
                    now_ms
                } else {
                    old(self).candidate_since()
                };
                let bar = spec_bar_boundary(
                    old(self).last_bar_beat(),
                    beat_index,
                    beat_confident,
                    early_in_beat,
                );
                let dwell = saturating_elapsed(now_ms, old(self).phrase_started());
                &&& final(self).candidate() == suggested
                &&& final(self).candidate_since() == candidate_since
                &&& final(self).last_bar_beat() == if bar {
                    Some(beat_index)
                } else {
                    old(self).last_bar_beat()
                }
                &&& changed == spec_phrase_changes(
                    dwell,
                    old(self).min_dwell(),
                    old(self).max_dwell(),
                    suggested,
                    old(self).kind(),
                    saturating_elapsed(now_ms, candidate_since) >= CANDIDATE_STABLE_MS,
                    bar,
                    beat_confident,
                    impact_boundary,
                )
                &&& changed ==> final(self).kind() == suggested && final(self).phrase_started()
                    == now_ms && final(self).index() == (if old(self).index() == u64::MAX {
                    u64::MAX
                } else {
                    (old(self).index() + 1) as u64
                })
                &&& !changed ==> final(self).kind() == old(self).kind() && final(self).phrase_started() == old(self).phrase_started() && final(self).index() == old(self).index()
            }),
            changed ==> saturating_elapsed(now_ms, old(self).phrase_started()) >= old(self).min_dwell() || saturating_elapsed(now_ms, old(self).phrase_started()) >= old(self).max_dwell(),
            final(self).history() == old(self).history(),
            final(self).signature() == old(self).signature(),
            final(self).started() == old(self).started(),
            final(self).last_observation() == old(self).last_observation(),
            final(self).min_dwell() == old(self).min_dwell(),
            final(self).max_dwell() == old(self).max_dwell(),
    {
        proof {
            use_type_invariant(&*self);
        }
        let suggested = phrase_for_state(state, self.phrase_index);
        if suggested != self.candidate_kind {
            self.candidate_kind = suggested;
            self.candidate_since_ms = now_ms;
        }
        let dwell: u64 = if now_ms >= self.phrase_started_ms {
            now_ms - self.phrase_started_ms
        } else {
            0
        };
        let candidate_age: u64 = if now_ms >= self.candidate_since_ms {
            now_ms - self.candidate_since_ms
        } else {
            0
        };
        let candidate_stable = candidate_age >= CANDIDATE_STABLE_MS;
        let bar_boundary = beat_confident && beat_index % 4 == 0 && early_in_beat && !(match self.last_bar_boundary_beat {
            Some(beat) => beat == beat_index,
            None => false,
        });
        if bar_boundary {
            self.last_bar_boundary_beat = Some(beat_index);
        }
        let timed_boundary = dwell >= self.max_dwell_ms && (bar_boundary || !beat_confident);
        let should_change = timed_boundary || (dwell >= self.min_dwell_ms && suggested
            != self.current_kind && (impact_boundary || (candidate_stable && bar_boundary)));
        if should_change {
            self.current_kind = suggested;
            self.phrase_started_ms = now_ms;
            self.phrase_index = self.phrase_index.saturating_add(1);
        }
        should_change
    }

    /// The current phrase.
    pub fn current_kind(&self) -> (r: PhraseKind)
        ensures
            r == self.kind(),
    {
        self.current_kind
    }

    /// The number of phrase changes so far.
    pub fn phrase_index(&self) -> (r: u64)
        ensures
            r == self.index(),
    {
        self.phrase_index
    }

    /// The structure signature, once computed.
    pub fn structure_signature(&self) -> (r: Option<u64>)
        ensures
            r == self.signature(),
    {
        self.structure_signature
    }

    /// The number of observations held.
    pub fn observation_count(&self) -> (r: usize)
        ensures
            r == self.history().len(),
    {
        self.observations.len()
    }

    /// The observation at `index`, oldest first.
    pub fn observation(&self, index: usize) -> (r: ObservationBits)
        requires
            index < self.history().len(),
        ensures
            r == self.history()[index as int],
    {
        self.observations[index]
    }

    /// Milliseconds since the tracker started, saturating at zero.
    pub fn position_ms(&self, now_ms: u64) -> (r: u64)
        ensures
            r == saturating_elapsed(now_ms, self.started()),
    {
        if now_ms >= self.started_ms {
            now_ms - self.started_ms
        } else {
            0
        }
    }

    /// When the current phrase began, in milliseconds since the start.
    pub fn phrase_start_ms(&self) -> (r: u64)
        ensures
            r == saturating_elapsed(self.phrase_started(), self.started()),
    {
        if self.phrase_started_ms >= self.started_ms {
            self.phrase_started_ms - self.started_ms
        } else {
            0
        }
    }

    /// How long the current phrase has lasted at `now_ms`.
    pub fn phrase_dwell_ms(&self, now_ms: u64) -> (r: u64)
        ensures
            r == saturating_elapsed(now_ms, self.phrase_started()),
    {
        if now_ms >= self.phrase_started_ms {
            now_ms - self.phrase_started_ms
        } else {
            0
        }
    }

    /// The longest dwell, in milliseconds.
    pub fn max_dwell_ms(&self) -> (r: u64)
        ensures
            r == self.max_dwell(),
    {
        self.max_dwell_ms
    }
}

/// When the phrase moves on. A confirmed impact ends the phrase as soon as
/// the minimum dwell has passed and the music suggests another phrase, on
/// any beat, bar start or not. A candidate that has held steady ends it on
/// the next bar boundary. At the maximum dwell the phrase ends on a bar
/// boundary, or at once when the beat is not confident. Nothing else ends a
/// phrase: before both dwells have passed, while the suggestion is the
/// current phrase (short of the maximum dwell's boundary), and without an
/// impact, a steady candidate on a bar, or the maximum dwell's boundary,
/// it stays.
pub proof fn law_phrase_boundaries(
    dwell: u64,
    min_dwell: u64,
    max_dwell: u64,
    suggested: PhraseKind,
    current: PhraseKind,
    candidate_stable: bool,
    bar_boundary: bool,
    beat_confident: bool,
    impact_boundary: bool,
)
    ensures
        impact_boundary && dwell >= min_dwell && suggested != current ==> spec_phrase_changes(
            dwell,
            min_dwell,
            max_dwell,
            suggested,
            current,
            candidate_stable,
            bar_boundary,
            beat_confident,
            impact_boundary,
        ),
        candidate_stable && bar_boundary && dwell >= min_dwell && suggested != current
            ==> spec_phrase_changes(
            dwell,
            min_dwell,
            max_dwell,
            suggested,
            current,
            candidate_stable,
            bar_boundary,
            beat_confident,
            impact_boundary,
        ),
        dwell >= max_dwell && (bar_boundary || !beat_confident) ==> spec_phrase_changes(
            dwell,
            min_dwell,
            max_dwell,
            suggested,
            current,
            candidate_stable,
            bar_boundary,
            beat_confident,
            impact_boundary,
        ),
        dwell < min_dwell && dwell < max_dwell ==> !spec_phrase_changes(
            dwell,
            min_dwell,
            max_dwell,
            suggested,
            current,
            candidate_stable,
            bar_boundary,
            beat_confident,
            impact_boundary,
        ),
        dwell < max_dwell && suggested == current ==> !spec_phrase_changes(
            dwell,
            min_dwell,
            max_dwell,
            suggested,
            current,
            candidate_stable,
            bar_boundary,
            beat_confident,
            impact_boundary,
        ),
        beat_confident && !bar_boundary && !impact_boundary ==> !spec_phrase_changes(
            dwell,
            min_dwell,
            max_dwell,
            suggested,
            current,
            candidate_stable,
            bar_boundary,
            beat_confident,
            impact_boundary,
        ),
        !(dwell >= max_dwell && (bar_boundary || !beat_confident)) && !impact_boundary
            && !candidate_stable ==> !spec_phrase_changes(
            dwell,
            min_dwell,
            max_dwell,
            suggested,
            current,
            candidate_stable,
            bar_boundary,
            beat_confident,
            impact_boundary,
        ),
        suggested == current && dwell >= max_dwell && beat_confident && !bar_boundary
            ==> !spec_phrase_changes(
            dwell,
            min_dwell,
            max_dwell,
            suggested,
            current,
            candidate_stable,
            bar_boundary,
            beat_confident,
            impact_boundary,
        ),
{
}

/// A bar boundary is a confident, early beat that starts a bar (every
/// fourth beat), seen once: the beat already taken as a boundary is not one
/// again, and a beat that does not start a bar, comes late, or is not
/// confident never is.
pub proof fn law_bar_boundaries_are_seen_once(
    last_bar_beat: Option<u64>,
    beat_index: u64,
    beat_confident: bool,
    early_in_beat: bool,
)
    ensures
        !spec_bar_boundary(Some(beat_index), beat_index, beat_confident, early_in_beat),
        beat_index % 4 != 0 ==> !spec_bar_boundary(
            last_bar_beat,
            beat_index,
            beat_confident,
            early_in_beat,
        ),
        !beat_confident || !early_in_beat ==> !spec_bar_boundary(
            last_bar_beat,
            beat_index,
            beat_confident,
            early_in_beat,
        ),
        beat_confident && early_in_beat && beat_index % 4 == 0 && last_bar_beat != Some(beat_index)
            ==> spec_bar_boundary(last_bar_beat, beat_index, beat_confident, early_in_beat),
{
}

/// The phrase the musical state suggests: every state but quiet and
/// breakdown suggests the same phrase however far the track has come;
/// quiet music opens the track as its intro and later suggests a down; a
/// breakdown is a bridge on every third phrase and a down otherwise; a
/// build is always an up and an impact or peak always a chorus.
pub proof fn law_suggested_phrases(state: MusicState, i: u64, j: u64)
    ensures
        state != MusicState::Quiet && state != MusicState::Breakdown ==> spec_phrase_for_state(
            state,
            i,
        ) == spec_phrase_for_state(state, j),
        spec_phrase_for_state(MusicState::Quiet, 0) == PhraseKind::Intro,
        i != 0 ==> spec_phrase_for_state(MusicState::Quiet, i) == PhraseKind::Down,
        i % 3 == 0 ==> spec_phrase_for_state(MusicState::Breakdown, i) == PhraseKind::Bridge,
        i % 3 != 0 ==> spec_phrase_for_state(MusicState::Breakdown, i) == PhraseKind::Down,
        spec_phrase_for_state(MusicState::Build, i) == PhraseKind::Up,
        spec_phrase_for_state(MusicState::Impact, i) == PhraseKind::Chorus,
        spec_phrase_for_state(MusicState::Peak, i) == PhraseKind::Chorus,
        spec_phrase_for_state(MusicState::Flow, i) == PhraseKind::Verse,
        spec_phrase_for_state(MusicState::Groove, i) == PhraseKind::Verse,
{
}

/// The phrase status line: an unavailable source says so whatever else
/// holds; any other source that went stale says it is holding the scene;
/// a fresh Rekordbox or cue source names itself whether or not a structure
/// model is ready; only the audio-inferred source reports its model, ready
/// or still learning.
pub proof fn law_status_lines(provenance: PhraseProvenance, stale: bool, ready: bool, other_ready: bool)
    ensures
        spec_status_message(PhraseProvenance::Unavailable, stale, ready)
            == "Phrase direction unavailable"@,
        provenance != PhraseProvenance::Unavailable ==> spec_status_message(provenance, true, ready)
            == "Phrase source is stale; holding the current scene briefly"@,
        provenance != PhraseProvenance::AudioInferred ==> spec_status_message(
            provenance,
            stale,
            ready,
        ) == spec_status_message(provenance, stale, other_ready),
        spec_status_message(PhraseProvenance::Rekordbox, false, ready)
            == "Live Rekordbox phrase metadata"@,
        spec_status_message(PhraseProvenance::CueMarkers, false, ready) == "Cue-derived structure"@,
        spec_status_message(PhraseProvenance::AudioInferred, false, true)
            == "Live structure model ready"@,
        spec_status_message(PhraseProvenance::AudioInferred, false, false)
            == "Learning this song's structure from live audio"@,
{
}

/// External phrase metadata is used while its source is available and it
/// is no older than the hold time; once too old it is never used again as
/// it ages, and a younger context of the same source is used whenever an
/// older one was.
pub proof fn law_external_metadata_holds_for_its_age(
    provenance: PhraseProvenance,
    younger_ms: u64,
    older_ms: u64,
)
    requires
        younger_ms <= older_ms,
    ensures
        external_is_usable(provenance, older_ms) ==> external_is_usable(provenance, younger_ms),
        !external_is_usable(PhraseProvenance::Unavailable, younger_ms),
        provenance != PhraseProvenance::Unavailable ==> (external_is_usable(provenance, younger_ms)
            <==> younger_ms <= HOLD_METADATA_MS),
{
}

} // verus!
