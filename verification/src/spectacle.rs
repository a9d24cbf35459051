//! The timing of the spectacle gesture, a single expansion and reassembly of
//! the scene on a strong impact. It fires only when armed, and an impact that
//! stays high cannot fire it again: the impact must first fall away. Two
//! gestures are at least 24 s apart. The caller measures the frame's impact,
//! energy and beat confidence in floating point and shapes the gesture's
//! envelope from its start time.
use vstd::prelude::*;

use crate::music_state::CLOCK_LIMIT_MS;

verus! {

/// The shortest time between two gestures, in milliseconds.
pub const SPECTACLE_COOLDOWN_MS: i64 = 24_000;

/// The gesture's state as values.
pub struct SpectacleView {
    pub started_ms: Option<i64>,
    pub last_trigger_ms: i64,
    pub armed: bool,
}

/// Whether a gesture fires on this frame.
pub open spec fn fires(v: SpectacleView, now_ms: i64, released: bool, enabled: bool, strong: bool) -> bool {
    enabled && (v.armed || released) && strong && now_ms - v.last_trigger_ms >= SPECTACLE_COOLDOWN_MS
}

/// What one frame at `now_ms` does. `released`: the impact fell below
/// 0.25, which arms the gesture; `enabled`: reactivity is at least 0.2 and
/// the intensity is not chill; `strong`: impact over 0.72, energy over 0.55
/// and beat confidence at least 0.5. The result is the start of the
/// gesture that shapes this frame, if any.
pub open spec fn spectacle_step(
    v: SpectacleView,
    now_ms: i64,
    released: bool,
    enabled: bool,
    strong: bool,
) -> (Option<i64>, SpectacleView) {
    let armed = v.armed || released;
    if !enabled {
        (None, SpectacleView { started_ms: None, armed, ..v })
    } else if fires(v, now_ms, released, enabled, strong) {
        (Some(now_ms), SpectacleView { started_ms: Some(now_ms), last_trigger_ms: now_ms, armed: false })
    } else {
        (v.started_ms, SpectacleView { armed, ..v })
    }
}

/// The spectacle gesture's trigger.
pub struct SpectacleTrigger {
    started_ms: Option<i64>,
    last_trigger_ms: i64,
    armed: bool,
}

impl View for SpectacleTrigger {
    type V = SpectacleView;

    closed spec fn view(&self) -> SpectacleView {
        SpectacleView {
            started_ms: self.started_ms,
            last_trigger_ms: self.last_trigger_ms,
            armed: self.armed,
        }
    }
}

impl SpectacleTrigger {
    #[verifier::type_invariant]
    spec fn well_formed(self) -> bool {
        -CLOCK_LIMIT_MS <= self.last_trigger_ms <= CLOCK_LIMIT_MS
    }

    /// An armed trigger that may fire at once.
    pub fn new() -> (r: Self)
        ensures
            r@ == (SpectacleView {
                started_ms: None,
                last_trigger_ms: -24_000i64,
                armed: true,
            }),
    {
        SpectacleTrigger { started_ms: None, last_trigger_ms: -SPECTACLE_COOLDOWN_MS, armed: true }
    }

    /// Advances one frame; see `spectacle_step`.
    pub fn update(&mut self, now_ms: i64, released: bool, enabled: bool, strong: bool) -> (r: Option<
        i64,
    >)
        requires
            -CLOCK_LIMIT_MS <= now_ms <= CLOCK_LIMIT_MS,
        ensures
            (r, final(self)@) == spectacle_step(old(self)@, now_ms, released, enabled, strong),
    {
        proof {
            use_type_invariant(&*self);
        }
        if released {
            self.armed = true;
        }
        if !enabled {
            self.started_ms = None;
            return None;
        }
        if self.armed && strong && now_ms - self.last_trigger_ms >= SPECTACLE_COOLDOWN_MS {
            self.started_ms = Some(now_ms);
            self.last_trigger_ms = now_ms;
            self.armed = false;
        }
        self.started_ms
    }
}

/// An impact that stays high cannot fire the gesture again: until the
/// impact falls away, no frame fires and the gesture stays disarmed.
pub proof fn law_a_held_impact_fires_once(v: SpectacleView, now_ms: i64, enabled: bool, strong: bool)
    requires
        !v.armed,
    ensures
        !fires(v, now_ms, false, enabled, strong),
        !spectacle_step(v, now_ms, false, enabled, strong).1.armed,
        spectacle_step(v, now_ms, false, enabled, strong).1.last_trigger_ms == v.last_trigger_ms,
{
}

/// A gesture fires only when enabled and strong, at least 24 s after the
/// previous one, and it then starts on this frame and disarms.
pub proof fn law_gestures_keep_their_cooldown(
    v: SpectacleView,
    now_ms: i64,
    released: bool,
    enabled: bool,
    strong: bool,
)
    requires
        fires(v, now_ms, released, enabled, strong),
    ensures
        enabled && strong,
        now_ms - v.last_trigger_ms >= SPECTACLE_COOLDOWN_MS,
        spectacle_step(v, now_ms, released, enabled, strong).0 == Some(now_ms),
        !spectacle_step(v, now_ms, released, enabled, strong).1.armed,
{
}

/// A frame that is not enabled (low reactivity, or the chill intensity)
/// shows no gesture and cancels the one in progress; only the arming by a
/// released impact carries over.
pub proof fn law_disabled_frames_show_no_gesture(
    v: SpectacleView,
    now_ms: i64,
    released: bool,
    strong: bool,
)
    ensures
        spectacle_step(v, now_ms, released, false, strong).0 is None,
        spectacle_step(v, now_ms, released, false, strong).1.started_ms is None,
        spectacle_step(v, now_ms, released, false, strong).1.last_trigger_ms == v.last_trigger_ms,
        spectacle_step(v, now_ms, released, false, strong).1.armed == (v.armed || released),
{
}

/// Without a new gesture the frame keeps showing the one in progress, and
/// a gesture shown on any frame started no later than that frame when the
/// clock does not run backwards.
pub proof fn law_gestures_start_only_when_they_fire(
    v: SpectacleView,
    now_ms: i64,
    released: bool,
    enabled: bool,
    strong: bool,
)
    requires
        v.started_ms matches Some(s) ==> s <= now_ms,
    ensures
        enabled && !fires(v, now_ms, released, enabled, strong) ==> spectacle_step(
            v,
            now_ms,
            released,
            enabled,
            strong,
        ).0 == v.started_ms,
        spectacle_step(v, now_ms, released, enabled, strong).0 matches Some(s) ==> s <= now_ms,
{
}

} // verus!
