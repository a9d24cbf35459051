//! When a full-screen flash may fire. Flashes are opt-in: with the flash
//! profile off none ever fires. A flash fires on the rising edge of a strong
//! impact (0.72 or more, which the caller measures), and no sooner than the
//! profile's cooldown after the previous one. The caller shapes the flash's
//! brightness and decay in floating point.
use vstd::prelude::*;

use crate::music_state::CLOCK_LIMIT_MS;
use crate::visual_settings::FlashProfile;

verus! {

/// The shortest time between two flashes for a profile that allows them,
/// in milliseconds.
pub open spec fn spec_flash_cooldown_ms(profile: FlashProfile) -> Option<i64> {
    match profile {
        FlashProfile::Off => None,
        FlashProfile::Moderate => Some(1_600),
        FlashProfile::High => Some(1_250),
    }
}

pub fn flash_cooldown_ms(profile: FlashProfile) -> (r: Option<i64>)
    ensures
        r == spec_flash_cooldown_ms(profile),
{
    match profile {
        FlashProfile::Off => None,
        FlashProfile::Moderate => Some(1_600),
        FlashProfile::High => Some(1_250),
    }
}

/// The flash trigger's state.
#[derive(Clone, Copy, Debug, PartialEq, Eq, Structural)]
pub struct FlashTrigger {
    pub last_trigger_ms: i64,
    pub was_above_threshold: bool,
}

/// Whether a flash fires at `now_ms` for an impact `above_threshold` or not.
pub open spec fn flash_fires(t: FlashTrigger, now_ms: i64, above_threshold: bool, profile: FlashProfile) -> bool {
    &&& above_threshold
    &&& !t.was_above_threshold
    &&& spec_flash_cooldown_ms(profile) matches Some(cooldown)
    &&& now_ms - t.last_trigger_ms >= cooldown
}

pub open spec fn trigger_ok(t: FlashTrigger) -> bool {
    -CLOCK_LIMIT_MS <= t.last_trigger_ms <= CLOCK_LIMIT_MS
}

impl FlashTrigger {
    /// No flash yet; the first may fire at once.
    pub fn new() -> (r: Self)
        ensures
            r == (FlashTrigger { last_trigger_ms: -10_000i64, was_above_threshold: false }),
            trigger_ok(r),
    {
        FlashTrigger { last_trigger_ms: -10_000, was_above_threshold: false }
    }

    /// Advances one frame; returns whether a flash fires now.
    pub fn update(&mut self, now_ms: i64, above_threshold: bool, profile: FlashProfile) -> (fired: bool)
        requires
            -CLOCK_LIMIT_MS <= now_ms <= CLOCK_LIMIT_MS,
            trigger_ok(*old(self)),
        ensures
            fired == flash_fires(*old(self), now_ms, above_threshold, profile),
            *final(self) == (FlashTrigger {
                last_trigger_ms: if fired {
                    now_ms
                } else {
                    old(self).last_trigger_ms
                },
                was_above_threshold: above_threshold,
            }),
            trigger_ok(*final(self)),
    {
        let fired = above_threshold && !self.was_above_threshold && match flash_cooldown_ms(profile) {
            Some(cooldown) => now_ms - self.last_trigger_ms >= cooldown,
            None => false,
        };
        if fired {
            self.last_trigger_ms = now_ms;
        }
        self.was_above_threshold = above_threshold;
        fired
    }
}

/// Flashes are opt-in: with the profile off, no frame fires one.
pub proof fn law_no_flash_when_off(t: FlashTrigger, now_ms: i64, above_threshold: bool)
    ensures
        !flash_fires(t, now_ms, above_threshold, FlashProfile::Off),
{
}

/// A flash fires only on the rising edge of a strong impact, and at least
/// the profile's cooldown after the previous one.
pub proof fn law_flashes_rise_and_cool_down(
    t: FlashTrigger,
    now_ms: i64,
    above_threshold: bool,
    profile: FlashProfile,
)
    requires
        flash_fires(t, now_ms, above_threshold, profile),
    ensures
        above_threshold && !t.was_above_threshold,
        profile != FlashProfile::Off,
        now_ms - t.last_trigger_ms >= 1_250,
{
}

} // verus!
