//! The musical state's timing on a millisecond clock: an impact holds for a
//! moment and cannot recur within its cooldown, and any other state must be
//! suggested for a state-specific dwell before it is adopted. The caller
//! scores impacts and suggests states from its float features, and keeps
//! the recent trend here as bit patterns.
use vstd::prelude::*;

use std::collections::VecDeque;

use crate::diagnostics::push_bounded;
use crate::phrase::MusicState;

verus! {

/// How long an impact holds, in milliseconds.
pub const IMPACT_HOLD_MS: i64 = 420;

/// The shortest time between two impacts, in milliseconds (exclusive).
pub const IMPACT_COOLDOWN_MS: i64 = 1250;

/// The clock readings the machine accepts lie within this many
/// milliseconds of zero.
pub const CLOCK_LIMIT_MS: i64 = 0x1000_0000_0000_0000;

/// The trend history keeps at most this many frames.
pub const HISTORY_FRAMES: usize = 600;

/// How long a state must be suggested before it is adopted.
pub open spec fn spec_dwell_ms(state: MusicState) -> i64 {
    match state {
        MusicState::Quiet => 550,
        MusicState::Build => 900,
        MusicState::Breakdown => 650,
        MusicState::Peak => 550,
        _ => 800,
    }
}

pub fn dwell_ms(state: MusicState) -> (r: i64)
    ensures
        r == spec_dwell_ms(state),
{
    match state {
        MusicState::Quiet => 550,
        MusicState::Build => 900,
        MusicState::Breakdown => 650,
        MusicState::Peak => 550,
        _ => 800,
    }
}

/// How an impact shapes this frame.
#[derive(Clone, Copy, Debug, PartialEq, Eq, Structural)]
pub enum ImpactPhase {
    /// A new impact starts now.
    Triggered,
    /// An impact is still holding for this many milliseconds.
    Holding(i64),
    /// No impact.
    Quiet,
}

/// One frame of the trend history, each feature as a float bit pattern.
#[derive(Clone, Copy, Debug, PartialEq, Eq, Structural)]
pub struct TrendBits {
    pub energy: u32,
    pub highs: u32,
    pub onset: u32,
}

/// The state machine's values.
pub struct MusicStateView {
    pub current: MusicState,
    pub candidate: MusicState,
    pub candidate_since_ms: i64,
    pub impact_until_ms: i64,
    pub last_impact_ms: i64,
    pub history: Seq<TrendBits>,
}

/// What one frame does: the state reported, the impact phase, and the
/// machine afterwards.
pub open spec fn spec_step(
    v: MusicStateView,
    now_ms: i64,
    impact_scored: bool,
    suggested: MusicState,
) -> (MusicState, ImpactPhase, MusicStateView) {
    if impact_scored && now_ms - v.last_impact_ms > IMPACT_COOLDOWN_MS {
        (
            MusicState::Impact,
            ImpactPhase::Triggered,
            MusicStateView {
                current: MusicState::Impact,
                impact_until_ms: (now_ms + IMPACT_HOLD_MS) as i64,
                last_impact_ms: now_ms,
                ..v
            },
        )
    } else if now_ms < v.impact_until_ms {
        (MusicState::Impact, ImpactPhase::Holding((v.impact_until_ms - now_ms) as i64), v)
    } else {
        let since = if suggested != v.candidate {
            now_ms
        } else {
            v.candidate_since_ms
        };
        let adopted = suggested != v.current && now_ms - since >= spec_dwell_ms(suggested);
        let current = if adopted {
            suggested
        } else {
            v.current
        };
        (
            current,
            ImpactPhase::Quiet,
            MusicStateView { current, candidate: suggested, candidate_since_ms: since, ..v },
        )
    }
}

/// The musical state machine.
pub struct MusicStateMachine {
    current: MusicState,
    candidate: MusicState,
    candidate_since_ms: i64,
    impact_until_ms: i64,
    last_impact_ms: i64,
    history: VecDeque<TrendBits>,
}

impl View for MusicStateMachine {
    type V = MusicStateView;

    closed spec fn view(&self) -> MusicStateView {
        MusicStateView {
            current: self.current,
            candidate: self.candidate,
            candidate_since_ms: self.candidate_since_ms,
            impact_until_ms: self.impact_until_ms,
            last_impact_ms: self.last_impact_ms,
            history: self.history@,
        }
    }
}

impl MusicStateMachine {
    #[verifier::type_invariant]
    spec fn well_formed(self) -> bool {
        &&& self.history@.len() <= HISTORY_FRAMES
        &&& -CLOCK_LIMIT_MS <= self.candidate_since_ms <= CLOCK_LIMIT_MS
        &&& -CLOCK_LIMIT_MS <= self.impact_until_ms <= 2 * CLOCK_LIMIT_MS
        &&& -CLOCK_LIMIT_MS <= self.last_impact_ms <= CLOCK_LIMIT_MS
    }

    /// A quiet machine whose first impact may come at any time from zero.
    pub fn new() -> (r: Self)
        ensures
            r@.current == MusicState::Quiet,
            r@.candidate == MusicState::Quiet,
            r@.candidate_since_ms == 0,
            r@.impact_until_ms == 0,
            r@.last_impact_ms == -10000,
            r@.history.len() == 0,
    {
        MusicStateMachine {
            current: MusicState::Quiet,
            candidate: MusicState::Quiet,
            candidate_since_ms: 0,
            impact_until_ms: 0,
            last_impact_ms: -10000,
            history: VecDeque::new(),
        }
    }

    /// The adopted state.
    pub fn current(&self) -> (r: MusicState)
        ensures
            r == self@.current,
    {
        self.current
    }

    /// Appends a frame to the bounded trend history.
    pub fn record(&mut self, point: TrendBits)
        ensures
            old(self)@.history.len() < HISTORY_FRAMES ==> final(self)@.history == old(
                self,
            )@.history.push(point),
            old(self)@.history.len() == HISTORY_FRAMES ==> final(self)@.history == old(
                self,
            )@.history.drop_first().push(point),
            final(self)@.history.len() <= HISTORY_FRAMES,
            final(self)@ == (MusicStateView { history: final(self)@.history, ..old(self)@ }),
    {
        proof {
            use_type_invariant(&*self);
        }
        let mut history = VecDeque::new();
        std::mem::swap(&mut history, &mut self.history);
        push_bounded(&mut history, point, HISTORY_FRAMES);
        self.history = history;
    }

    /// The number of frames held.
    pub fn history_len(&self) -> (r: usize)
        ensures
            r == self@.history.len(),
    {
        self.history.len()
    }

    /// The frame at `index`, oldest first.
    pub fn history_at(&self, index: usize) -> (r: TrendBits)
        requires
            index < self@.history.len(),
        ensures
            r == self@.history[index as int],
    {
        self.history[index]
    }

    /// Advances one frame at `now_ms`: `impact_scored` says whether the
    /// caller's impact score exceeds its threshold, `suggested` is the state
    /// the features suggest.
    pub fn step(&mut self, now_ms: i64, impact_scored: bool, suggested: MusicState) -> (r: (
        MusicState,
        ImpactPhase,
    ))
        requires
            -CLOCK_LIMIT_MS <= now_ms <= CLOCK_LIMIT_MS,
        ensures
            r.0 == spec_step(old(self)@, now_ms, impact_scored, suggested).0,
            r.1 == spec_step(old(self)@, now_ms, impact_scored, suggested).1,
            final(self)@ == spec_step(old(self)@, now_ms, impact_scored, suggested).2,
    {
        proof {
            use_type_invariant(&*self);
        }
        if impact_scored && now_ms - self.last_impact_ms > IMPACT_COOLDOWN_MS {
            self.current = MusicState::Impact;
            self.impact_until_ms = now_ms + IMPACT_HOLD_MS;
            self.last_impact_ms = now_ms;
            return (MusicState::Impact, ImpactPhase::Triggered);
        }
        if now_ms < self.impact_until_ms {
            return (MusicState::Impact, ImpactPhase::Holding(self.impact_until_ms - now_ms));
        }
        if suggested != self.candidate {
            self.candidate = suggested;
            self.candidate_since_ms = now_ms;
        }
        if suggested != self.current && now_ms - self.candidate_since_ms >= dwell_ms(suggested) {
            self.current = suggested;
        }
        (self.current, ImpactPhase::Quiet)
    }
}

/// Impacts keep their cooldown: a new impact is triggered only more than
/// 1.25 s after the previous one.
pub proof fn law_impacts_keep_their_cooldown(
    v: MusicStateView,
    now_ms: i64,
    impact_scored: bool,
    suggested: MusicState,
)
    requires
        spec_step(v, now_ms, impact_scored, suggested).1 == ImpactPhase::Triggered,
    ensures
        now_ms - v.last_impact_ms > IMPACT_COOLDOWN_MS,
{
}

/// A state other than an impact is adopted only after it has been
/// suggested for its dwell, never while an impact holds.
pub proof fn law_states_change_only_after_their_dwell(
    v: MusicStateView,
    now_ms: i64,
    impact_scored: bool,
    suggested: MusicState,
)
    requires
        spec_step(v, now_ms, impact_scored, suggested).1 == ImpactPhase::Quiet,
        spec_step(v, now_ms, impact_scored, suggested).0 != v.current,
    ensures
        now_ms >= v.impact_until_ms,
        spec_step(v, now_ms, impact_scored, suggested).0 == suggested,
        suggested == v.candidate,
        now_ms - v.candidate_since_ms >= spec_dwell_ms(suggested),
{
}

/// What a frame does, by cases. A scored impact past the cooldown starts an
/// impact now, held for the hold time; otherwise an impact still holding
/// reports the time it has left and changes nothing; otherwise a state
/// suggested steadily for its dwell, other than the current one, is
/// adopted, and a newly suggested state only starts its dwell. Every dwell
/// is positive, so a new suggestion is never adopted on the frame it first
/// appears.
pub proof fn law_music_state_frames(
    v: MusicStateView,
    now_ms: i64,
    impact_scored: bool,
    suggested: MusicState,
)
    requires
        -CLOCK_LIMIT_MS <= now_ms <= CLOCK_LIMIT_MS,
    ensures
        spec_dwell_ms(suggested) > 0,
        impact_scored && now_ms - v.last_impact_ms > IMPACT_COOLDOWN_MS ==> ({
            let (state, phase, w) = spec_step(v, now_ms, impact_scored, suggested);
            &&& state == MusicState::Impact
            &&& phase == ImpactPhase::Triggered
            &&& w.impact_until_ms == now_ms + IMPACT_HOLD_MS
            &&& w.last_impact_ms == now_ms
        }),
        !(impact_scored && now_ms - v.last_impact_ms > IMPACT_COOLDOWN_MS) && now_ms
            < v.impact_until_ms ==> spec_step(v, now_ms, impact_scored, suggested) == (
            MusicState::Impact,
            ImpactPhase::Holding((v.impact_until_ms - now_ms) as i64),
            v,
        ),
        !(impact_scored && now_ms - v.last_impact_ms > IMPACT_COOLDOWN_MS) && now_ms
            >= v.impact_until_ms && suggested == v.candidate && suggested != v.current && now_ms
            - v.candidate_since_ms >= spec_dwell_ms(suggested) ==> spec_step(
            v,
            now_ms,
            impact_scored,
            suggested,
        ).0 == suggested && spec_step(v, now_ms, impact_scored, suggested).2.current == suggested,
        !(impact_scored && now_ms - v.last_impact_ms > IMPACT_COOLDOWN_MS) && now_ms
            >= v.impact_until_ms && suggested != v.candidate ==> spec_step(
            v,
            now_ms,
            impact_scored,
            suggested,
        ).0 == v.current && spec_step(v, now_ms, impact_scored, suggested).2.candidate == suggested
            && spec_step(v, now_ms, impact_scored, suggested).2.candidate_since_ms == now_ms,
{
}

} // verus!
