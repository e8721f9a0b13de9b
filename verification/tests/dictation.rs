use handy::dictation::{
    apply_setting, on_command, on_key_event, shutdown, trigger_code, trigger_from_code, Command,
    DoubleTapDetector, KeyInput, Trigger, MODIFIER_CMD_LEFT, MODIFIER_CMD_RIGHT, MODIFIER_CTRL,
    MODIFIER_FN, MODIFIER_OPT_LEFT, MODIFIER_OPT_RIGHT,
};
use handy_keys::Modifiers;

/// Milliseconds on the detector's nanosecond clock.
fn ms(n: u64) -> u64 {
    n * 1_000_000
}

/// An arbitrary starting reading of the monotonic clock.
const T0: u64 = 7_000_000_000;

fn detector() -> DoubleTapDetector {
    DoubleTapDetector::new()
}

#[test]
fn two_quick_taps_fire() {
    let mut d = detector();
    let t0 = T0;
    assert!(!d.on_watched_tap(t0));
    assert!(d.on_watched_tap(t0 + ms(200)));
}

#[test]
fn slow_taps_do_not_fire() {
    let mut d = detector();
    let t0 = T0;
    assert!(!d.on_watched_tap(t0));
    assert!(!d.on_watched_tap(t0 + ms(900)));
}

#[test]
fn intervening_key_press_blocks_fire() {
    let mut d = detector();
    let t0 = T0;
    assert!(!d.on_watched_tap(t0));
    d.on_other_activity(); // e.g. the "C" in Ctrl+C
    // The shortcut-paired press must not complete the double tap...
    assert!(!d.on_watched_tap(t0 + ms(100)));
    // ...but it becomes a fresh first tap, so a following clean tap fires.
    assert!(d.on_watched_tap(t0 + ms(300)));
}

#[test]
fn firing_resets_state() {
    let mut d = detector();
    let t0 = T0;
    assert!(!d.on_watched_tap(t0));
    assert!(d.on_watched_tap(t0 + ms(100)));
    // A single later tap must not fire immediately again.
    assert!(!d.on_watched_tap(t0 + ms(300)));
}

#[test]
fn trigger_parsing_roundtrip() {
    assert_eq!(Trigger::from_setting("mic_key"), Some(Trigger::MicKey));
    assert_eq!(Trigger::from_setting("globe_double"), Some(Trigger::GlobeDouble));
    assert_eq!(Trigger::from_setting("opt_right_double"), Some(Trigger::OptRightDouble));
    assert_eq!(Trigger::from_setting("none"), None);
    assert_eq!(Trigger::from_setting(""), None);
}

#[test]
fn every_setting_name_parses() {
    assert_eq!(Trigger::from_setting("ctrl_double"), Some(Trigger::CtrlDouble));
    assert_eq!(Trigger::from_setting("cmd_left_double"), Some(Trigger::CmdLeftDouble));
    assert_eq!(Trigger::from_setting("cmd_right_double"), Some(Trigger::CmdRightDouble));
    assert_eq!(Trigger::from_setting("opt_left_double"), Some(Trigger::OptLeftDouble));
    assert_eq!(Trigger::from_setting("Mic_Key"), None);
    assert_eq!(Trigger::from_setting("mic_key "), None);
}

#[test]
fn window_boundary_is_inclusive() {
    let mut d = detector();
    assert!(!d.on_watched_tap(T0));
    assert!(d.on_watched_tap(T0 + ms(500)));
    let mut d = detector();
    assert!(!d.on_watched_tap(T0));
    assert!(!d.on_watched_tap(T0 + ms(500) + 1));
}

#[test]
fn earlier_clock_reading_counts_as_no_time() {
    let mut d = detector();
    assert!(!d.on_watched_tap(T0));
    assert!(d.on_watched_tap(T0 - ms(50)));
}

#[test]
fn tick_expires_stale_tap() {
    let mut d = detector();
    assert!(!d.on_watched_tap(T0));
    d.tick(T0 + ms(400));
    assert!(d.on_watched_tap(T0 + ms(450)));
    let mut d = detector();
    assert!(!d.on_watched_tap(T0));
    d.tick(T0 + ms(600));
    assert!(!d.on_watched_tap(T0 + ms(600)));
}

#[test]
fn reset_forgets_pending_tap() {
    let mut d = detector();
    assert!(!d.on_watched_tap(T0));
    d.reset();
    assert!(!d.on_watched_tap(T0 + ms(10)));
}

#[test]
fn other_activity_without_tap_is_harmless() {
    let mut d = detector();
    d.on_other_activity();
    assert!(!d.on_watched_tap(T0));
    assert!(d.on_watched_tap(T0 + ms(10)));
}

#[test]
fn trigger_codes_roundtrip() {
    let all = [
        None,
        Some(Trigger::MicKey),
        Some(Trigger::CtrlDouble),
        Some(Trigger::CmdLeftDouble),
        Some(Trigger::CmdRightDouble),
        Some(Trigger::OptLeftDouble),
        Some(Trigger::OptRightDouble),
        Some(Trigger::GlobeDouble),
    ];
    for t in all {
        assert_eq!(trigger_from_code(trigger_code(t)), t);
    }
    assert_eq!(trigger_code(Some(Trigger::GlobeDouble)), 5);
    assert_eq!(trigger_code(Some(Trigger::OptLeftDouble)), 6);
    assert_eq!(trigger_from_code(8), None);
    assert_eq!(trigger_from_code(u64::MAX), None);
}

#[test]
fn modifier_bits_match_handy_keys() {
    assert_eq!(MODIFIER_CTRL, Modifiers::CTRL.bits());
    assert_eq!(MODIFIER_CMD_LEFT, Modifiers::CMD_LEFT.bits());
    assert_eq!(MODIFIER_CMD_RIGHT, Modifiers::CMD_RIGHT.bits());
    assert_eq!(MODIFIER_OPT_LEFT, Modifiers::OPT_LEFT.bits());
    assert_eq!(MODIFIER_OPT_RIGHT, Modifiers::OPT_RIGHT.bits());
    assert_eq!(MODIFIER_FN, Modifiers::FN.bits());
    assert_eq!(Trigger::MicKey.watched_modifiers(), Modifiers::empty().bits());
    assert_eq!(Trigger::CtrlDouble.watched_modifiers(), Modifiers::CTRL.bits());
}

#[test]
fn commands_for_settings() {
    assert_eq!(apply_setting("ctrl_double"), Command::SetTrigger(Some(Trigger::CtrlDouble)));
    assert_eq!(apply_setting("off"), Command::SetTrigger(None));
    assert_eq!(shutdown(), Command::Shutdown);
}

fn modifier_down(bits: u32) -> KeyInput {
    KeyInput { is_key_down: true, is_dictation_key: false, changed_modifier: Some(bits) }
}

fn modifier_up(bits: u32) -> KeyInput {
    KeyInput { is_key_down: false, is_dictation_key: false, changed_modifier: Some(bits) }
}

fn key_down() -> KeyInput {
    KeyInput { is_key_down: true, is_dictation_key: false, changed_modifier: None }
}

#[test]
fn ctrl_double_tap_through_events() {
    let t = Some(Trigger::CtrlDouble);
    let left = Modifiers::CTRL_LEFT.bits();
    let mut d = detector();
    assert!(!on_key_event(t, &mut d, modifier_down(left), T0));
    assert!(!on_key_event(t, &mut d, modifier_up(left), T0 + ms(50)));
    assert!(on_key_event(t, &mut d, modifier_down(Modifiers::CTRL_RIGHT.bits()), T0 + ms(150)));
}

#[test]
fn shortcut_between_taps_blocks_fire() {
    let t = Some(Trigger::CmdLeftDouble);
    let cmd = Modifiers::CMD_LEFT.bits();
    let mut d = detector();
    assert!(!on_key_event(t, &mut d, modifier_down(cmd), T0));
    assert!(!on_key_event(t, &mut d, key_down(), T0 + ms(20)));
    assert!(!on_key_event(t, &mut d, modifier_down(cmd), T0 + ms(100)));
    // A different modifier going down mid-tap blocks as well.
    assert!(!on_key_event(t, &mut d, modifier_down(Modifiers::SHIFT_LEFT.bits()), T0 + ms(120)));
    assert!(!on_key_event(t, &mut d, modifier_down(cmd), T0 + ms(200)));
    assert!(on_key_event(t, &mut d, modifier_down(cmd), T0 + ms(300)));
}

#[test]
fn dictation_key_fires_mic_trigger_only() {
    let dict = KeyInput { is_key_down: true, is_dictation_key: true, changed_modifier: None };
    let mut d = detector();
    assert!(on_key_event(Some(Trigger::MicKey), &mut d, dict, T0));
    assert!(!on_key_event(Some(Trigger::GlobeDouble), &mut d, dict, T0));
    let release = KeyInput { is_key_down: false, ..dict };
    assert!(!on_key_event(Some(Trigger::MicKey), &mut d, release, T0));
    assert!(!on_key_event(None, &mut d, dict, T0));
}

#[test]
fn mic_trigger_ignores_modifier_taps() {
    let t = Some(Trigger::MicKey);
    let fnkey = Modifiers::FN.bits();
    let mut d = detector();
    assert!(!on_key_event(t, &mut d, modifier_down(fnkey), T0));
    assert!(!on_key_event(t, &mut d, modifier_down(fnkey), T0 + ms(10)));
}

#[test]
fn commands_switch_trigger_and_stop() {
    let mut d = detector();
    assert!(!d.on_watched_tap(T0));
    assert_eq!(on_command(Command::SetTrigger(Some(Trigger::GlobeDouble)), &mut d), Some(5));
    // The pending tap was forgotten.
    assert!(!d.on_watched_tap(T0 + ms(10)));
    assert_eq!(on_command(Command::SetTrigger(None), &mut d), Some(0));
    assert!(!d.on_watched_tap(T0 + ms(20)));
    assert!(d.on_watched_tap(T0 + ms(30)));
    assert!(!d.on_watched_tap(T0 + ms(40)));
    assert_eq!(on_command(Command::Shutdown, &mut d), None);
    // Shutting down leaves the detector alone.
    assert!(d.on_watched_tap(T0 + ms(50)));
}
