use pulsebridge::flash::{flash_cooldown_ms, FlashTrigger};
use pulsebridge::visual_settings::FlashProfile;

// The brightness of a flash (0.62 at most for the high profile, fading
// quickly) is shaped by the application; here, when flashes fire.
#[test]
fn flash_is_opt_in_short_and_cooldown_limited() {
    let mut flash = FlashTrigger::new();
    assert!(!flash.update(1_000, true, FlashProfile::Off));
    flash.update(1_100, false, FlashProfile::High);
    assert!(flash.update(2_000, true, FlashProfile::High));
    flash.update(2_100, false, FlashProfile::High);
    assert!(!flash.update(2_200, true, FlashProfile::High));
}

#[test]
fn a_held_impact_flashes_once() {
    let mut flash = FlashTrigger::new();
    assert!(flash.update(0, true, FlashProfile::Moderate));
    assert!(!flash.update(5_000, true, FlashProfile::Moderate));
    flash.update(5_100, false, FlashProfile::Moderate);
    assert!(flash.update(5_200, true, FlashProfile::Moderate));
}

#[test]
fn cooldowns_follow_the_profile() {
    assert_eq!(flash_cooldown_ms(FlashProfile::Off), None);
    assert_eq!(flash_cooldown_ms(FlashProfile::Moderate), Some(1_600));
    assert_eq!(flash_cooldown_ms(FlashProfile::High), Some(1_250));
    let mut flash = FlashTrigger::new();
    assert!(flash.update(0, true, FlashProfile::Moderate));
    flash.update(100, false, FlashProfile::Moderate);
    assert!(!flash.update(1_599, true, FlashProfile::Moderate));
    flash.update(1_650, false, FlashProfile::Moderate);
    assert!(flash.update(1_700, true, FlashProfile::Moderate));
}
