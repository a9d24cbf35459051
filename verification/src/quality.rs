//! Adaptive render quality. Sustained missed presentation deadlines lower
//! detail and resolution one tier at a time; recovery is deliberately much
//! slower, so a single dropped frame or a resize does not make the quality
//! pump. Frame times are whole microseconds.
use vstd::prelude::*;

use crate::renderer::{is_performance_size, performance_render_size};

verus! {

/// The lowest quality tier.
pub const MAX_TIER: u8 = 2;

/// A frame slower than this missed its deadline.
pub const SLOW_FRAME_US: u64 = 19_000;

/// A frame faster than this counts towards recovery.
pub const STABLE_FRAME_US: u64 = 18_000;

/// One slow frame adds at most this much overload.
pub const SLOW_FRAME_CAP_US: u64 = 100_000;

/// This much accumulated overload lowers the quality one tier.
pub const FALLBACK_AFTER_US: u64 = 1_500_000;

/// This much uninterrupted stable time raises the quality one tier.
pub const RECOVER_AFTER_US: u64 = 20_000_000;

/// The tracker's values.
pub struct QualityView {
    pub tier: u8,
    pub slow_us: u64,
    pub stable_us: u64,
}

/// Whether a frame time is a plausible presentation interval: at least a
/// millisecond and under a second.
pub open spec fn plausible(frame_us: u64) -> bool {
    1_000 <= frame_us < 1_000_000
}

pub open spec fn sat_add(a: u64, b: u64) -> u64 {
    if a + b > u64::MAX {
        u64::MAX
    } else {
        (a + b) as u64
    }
}

/// What one frame of `frame_us` does: a slow frame adds its time (capped)
/// to the overload and ends any stable run; another frame pays back half
/// its time from the overload and, when fast, extends the stable run.
/// Enough overload lowers the quality a tier; else a long enough stable run
/// raises it a tier. Implausible frame times change nothing.
pub open spec fn observe_frame(v: QualityView, frame_us: u64) -> QualityView {
    if !plausible(frame_us) {
        v
    } else {
        let slow = frame_us > SLOW_FRAME_US;
        let slow_us = if slow {
            sat_add(v.slow_us, if frame_us < SLOW_FRAME_CAP_US { frame_us } else { SLOW_FRAME_CAP_US })
        } else if v.slow_us < frame_us / 2 {
            0
        } else {
            (v.slow_us - frame_us / 2) as u64
        };
        let stable_us = if slow {
            0
        } else if frame_us < STABLE_FRAME_US {
            sat_add(v.stable_us, frame_us)
        } else {
            v.stable_us
        };
        if slow_us >= FALLBACK_AFTER_US && v.tier < MAX_TIER {
            QualityView { tier: (v.tier + 1) as u8, slow_us: 0, stable_us: 0 }
        } else if stable_us >= RECOVER_AFTER_US && v.tier > 0 {
            QualityView { tier: (v.tier - 1) as u8, slow_us, stable_us: 0 }
        } else {
            QualityView { tier: v.tier, slow_us, stable_us }
        }
    }
}

/// The tier in effect when the caller asks for at least `minimum_tier`.
pub open spec fn effective_tier(tier: u8, minimum_tier: u8) -> u8 {
    if tier < minimum_tier {
        minimum_tier
    } else {
        tier
    }
}

/// `value` scaled by two thirds, rounded to the nearest integer.
pub open spec fn two_thirds(value: u32) -> u32 {
    ((2 * value + 1) / 3) as u32
}

/// `value` halved, rounded half up.
pub open spec fn half(value: u32) -> u32 {
    ((value + 1) / 2) as u32
}

/// A side at a tier's scale: full, two thirds, or a half; at least 1.
pub open spec fn scaled_side(side: u32, tier: u8) -> u32 {
    let scaled = if tier == 0 {
        side
    } else if tier == 1 {
        two_thirds(side)
    } else {
        half(side)
    };
    if scaled < 1 {
        1
    } else {
        scaled
    }
}

/// The adaptive quality tracker.
pub struct AdaptiveQuality {
    tier: u8,
    slow_us: u64,
    stable_us: u64,
}

impl View for AdaptiveQuality {
    type V = QualityView;

    closed spec fn view(&self) -> QualityView {
        QualityView { tier: self.tier, slow_us: self.slow_us, stable_us: self.stable_us }
    }
}

impl AdaptiveQuality {
    #[verifier::type_invariant]
    spec fn well_formed(self) -> bool {
        self.tier <= MAX_TIER
    }

    /// Full quality with nothing accumulated.
    pub fn new() -> (r: Self)
        ensures
            r@ == (QualityView { tier: 0, slow_us: 0, stable_us: 0 }),
    {
        AdaptiveQuality { tier: 0, slow_us: 0, stable_us: 0 }
    }

    /// The current tier: 0 is full quality.
    pub fn tier(&self) -> (r: u8)
        ensures
            r == self@.tier,
            r <= MAX_TIER,
    {
        proof {
            use_type_invariant(self);
        }
        self.tier
    }

    /// Records the presentation interval of one frame.
    pub fn observe(&mut self, frame_us: u64)
        ensures
            final(self)@ == observe_frame(old(self)@, frame_us),
    {
        proof {
            use_type_invariant(&*self);
        }
        if !(1_000 <= frame_us && frame_us < 1_000_000) {
            return;
        }
        let slow = frame_us > SLOW_FRAME_US;
        let slow_us = if slow {
            self.slow_us.saturating_add(if frame_us < SLOW_FRAME_CAP_US { frame_us } else { SLOW_FRAME_CAP_US })
        } else if self.slow_us < frame_us / 2 {
            0
        } else {
            self.slow_us - frame_us / 2
        };
        let stable_us = if slow {
            0
        } else if frame_us < STABLE_FRAME_US {
            self.stable_us.saturating_add(frame_us)
        } else {
            self.stable_us
        };
        if slow_us >= FALLBACK_AFTER_US && self.tier < MAX_TIER {
            self.tier = self.tier + 1;
            self.slow_us = 0;
            self.stable_us = 0;
        } else if stable_us >= RECOVER_AFTER_US && self.tier > 0 {
            self.tier = self.tier - 1;
            self.slow_us = slow_us;
            self.stable_us = 0;
        } else {
            self.slow_us = slow_us;
            self.stable_us = stable_us;
        }
    }

    /// The detail level in percent at the effective tier: 100, 50 or 0.
    pub fn detail_percent(&self, minimum_tier: u8) -> (r: u8)
        ensures
            r == (if effective_tier(self@.tier, minimum_tier) == 0 {
                100u8
            } else if effective_tier(self@.tier, minimum_tier) == 1 {
                50u8
            } else {
                0u8
            }),
    {
        let tier = if self.tier < minimum_tier {
            minimum_tier
        } else {
            self.tier
        };
        if tier == 0 {
            100
        } else if tier == 1 {
            50
        } else {
            0
        }
    }

    /// The render size for a `width` x `height` surface: the performance
    /// size scaled for the effective tier.
    pub fn render_size(&self, width: u32, height: u32, minimum_tier: u8) -> (r: (u32, u32))
        ensures
            exists|base: (u32, u32)|
                #![trigger is_performance_size(width, height, base)]
                {
                    let tier = effective_tier(self@.tier, minimum_tier);
                    &&& is_performance_size(width, height, base)
                    &&& r == (scaled_side(base.0, tier), scaled_side(base.1, tier))
                },
    {
        let (w, h) = performance_render_size(width, height);
        let tier = if self.tier < minimum_tier {
            minimum_tier
        } else {
            self.tier
        };
        (scale_side(w, tier), scale_side(h, tier))
    }
}

fn scale_side(side: u32, tier: u8) -> (r: u32)
    ensures
        r == scaled_side(side, tier),
{
    let scaled: u64 = if tier == 0 {
        side as u64
    } else if tier == 1 {
        (2 * (side as u64) + 1) / 3
    } else {
        ((side as u64) + 1) / 2
    };
    if scaled < 1 {
        1
    } else {
        scaled as u32
    }
}

/// A single slow frame never lowers the quality from a settled state: a
/// tier is lost only once the overload reaches 1.5 s.
pub proof fn law_one_slow_frame_cannot_lower_quality(v: QualityView, frame_us: u64)
    requires
        v.slow_us == 0,
    ensures
        observe_frame(v, frame_us).tier <= v.tier,
{
}

/// The quality changes by at most one tier per frame and never leaves the
/// tiers; implausible frame times change nothing.
pub proof fn law_quality_moves_one_tier_at_a_time(v: QualityView, frame_us: u64)
    requires
        v.tier <= MAX_TIER,
    ensures
        observe_frame(v, frame_us).tier <= MAX_TIER,
        v.tier <= observe_frame(v, frame_us).tier + 1,
        observe_frame(v, frame_us).tier <= v.tier + 1,
        !plausible(frame_us) ==> observe_frame(v, frame_us) == v,
{
}

/// Recovery is slow: a tier is regained only on a frame that is not slow,
/// once the stable run (reset by every slow frame and tier change) has
/// reached 20 s.
pub proof fn law_recovery_needs_a_long_stable_run(v: QualityView, frame_us: u64)
    requires
        observe_frame(v, frame_us).tier < v.tier,
    ensures
        plausible(frame_us),
        frame_us <= SLOW_FRAME_US,
        frame_us < STABLE_FRAME_US ==> sat_add(v.stable_us, frame_us) >= RECOVER_AFTER_US,
        frame_us >= STABLE_FRAME_US ==> v.stable_us >= RECOVER_AFTER_US,
{
}

} // verus!
