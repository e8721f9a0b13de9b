//! Dictation-style triggers: start and stop dictation without a chord.
//!
//! A trigger is either the dedicated dictation key or a double tap of one
//! modifier. A tap only counts while no other key or modifier goes down in
//! between, so real shortcuts (Ctrl+C, Cmd+Tab, ...) never fire a trigger.
//! Time is a monotonic clock reading in nanoseconds, and modifier sets are
//! the bit patterns of `handy_keys::Modifiers` (`Modifiers::bits`).

use vstd::prelude::*;

use crate::text::str_eq;

verus! {

/// The persisted trigger kinds.
#[derive(Debug, Clone, Copy, PartialEq, Eq, Structural)]
pub enum Trigger {
    MicKey,
    CtrlDouble,
    CmdLeftDouble,
    CmdRightDouble,
    OptLeftDouble,
    OptRightDouble,
    GlobeDouble,
}

/// The setting string under which each trigger is persisted.
pub open spec fn setting_name(t: Trigger) -> Seq<char> {
    match t {
        Trigger::MicKey => "mic_key"@,
        Trigger::CtrlDouble => "ctrl_double"@,
        Trigger::CmdLeftDouble => "cmd_left_double"@,
        Trigger::CmdRightDouble => "cmd_right_double"@,
        Trigger::OptLeftDouble => "opt_left_double"@,
        Trigger::OptRightDouble => "opt_right_double"@,
        Trigger::GlobeDouble => "globe_double"@,
    }
}

/// The trigger a setting string selects, if any.
pub open spec fn spec_from_setting(s: Seq<char>) -> Option<Trigger> {
    if s == "mic_key"@ {
        Some(Trigger::MicKey)
    } else if s == "ctrl_double"@ {
        Some(Trigger::CtrlDouble)
    } else if s == "cmd_left_double"@ {
        Some(Trigger::CmdLeftDouble)
    } else if s == "cmd_right_double"@ {
        Some(Trigger::CmdRightDouble)
    } else if s == "opt_left_double"@ {
        Some(Trigger::OptLeftDouble)
    } else if s == "opt_right_double"@ {
        Some(Trigger::OptRightDouble)
    } else if s == "globe_double"@ {
        Some(Trigger::GlobeDouble)
    } else {
        None
    }
}

impl Trigger {
    /// Parses a persisted setting value; anything but the known names is `None`.
    pub fn from_setting(value: &str) -> (r: Option<Self>)
        ensures
            r == spec_from_setting(value@),
    {
        if str_eq(value, "mic_key") {
            Some(Trigger::MicKey)
        } else if str_eq(value, "ctrl_double") {
            Some(Trigger::CtrlDouble)
        } else if str_eq(value, "cmd_left_double") {
            Some(Trigger::CmdLeftDouble)
        } else if str_eq(value, "cmd_right_double") {
            Some(Trigger::CmdRightDouble)
        } else if str_eq(value, "opt_left_double") {
            Some(Trigger::OptLeftDouble)
        } else if str_eq(value, "opt_right_double") {
            Some(Trigger::OptRightDouble)
        } else if str_eq(value, "globe_double") {
            Some(Trigger::GlobeDouble)
        } else {
            None
        }
    }
}

/// Each trigger is selected by its own setting name, and by no other string.
pub proof fn lemma_setting_name_roundtrip(t: Trigger, s: Seq<char>)
    ensures
        spec_from_setting(setting_name(t)) == Some(t),
        spec_from_setting(s) == Some(t) ==> s == setting_name(t),
{
    reveal_strlit("mic_key");
    reveal_strlit("ctrl_double");
    reveal_strlit("cmd_left_double");
    reveal_strlit("cmd_right_double");
    reveal_strlit("opt_left_double");
    reveal_strlit("opt_right_double");
    reveal_strlit("globe_double");
    let names = seq![
        "mic_key"@, "ctrl_double"@, "cmd_left_double"@, "cmd_right_double"@,
        "opt_left_double"@, "opt_right_double"@, "globe_double"@,
    ];
    assert forall|i: int, j: int| 0 <= i < j < 7 implies names[i] != names[j] by {
        if names[i].len() == names[j].len() {
            assert(names[i][0] != names[j][0] || names[i][4] != names[j][4]);
        }
    }
}


/// Modifier bits, as laid out by `handy_keys::Modifiers`.
pub const MODIFIER_CMD_LEFT: u32 = 0x1;
pub const MODIFIER_OPT_LEFT: u32 = 0x8;
pub const MODIFIER_FN: u32 = 0x10;
pub const MODIFIER_CMD_RIGHT: u32 = 0x20;
pub const MODIFIER_OPT_RIGHT: u32 = 0x100;
/// Either Control key (`CTRL_LEFT | CTRL_RIGHT`).
pub const MODIFIER_CTRL: u32 = 0x84;

/// Max time between the two taps of a double tap: 500 ms.
pub const DOUBLE_TAP_WINDOW_NANOS: u64 = 500_000_000;

/// The modifier bits a trigger watches (none for the dictation key).
pub open spec fn spec_watched_modifiers(t: Trigger) -> u32 {
    match t {
        Trigger::CtrlDouble => MODIFIER_CTRL,
        Trigger::CmdLeftDouble => MODIFIER_CMD_LEFT,
        Trigger::CmdRightDouble => MODIFIER_CMD_RIGHT,
        Trigger::OptLeftDouble => MODIFIER_OPT_LEFT,
        Trigger::OptRightDouble => MODIFIER_OPT_RIGHT,
        Trigger::GlobeDouble => MODIFIER_FN,
        Trigger::MicKey => 0,
    }
}

impl Trigger {
    /// The modifier set whose double tap fires this trigger.
    pub fn watched_modifiers(&self) -> (r: u32)
        ensures
            r == spec_watched_modifiers(*self),
    {
        match self {
            Trigger::CtrlDouble => MODIFIER_CTRL,
            Trigger::CmdLeftDouble => MODIFIER_CMD_LEFT,
            Trigger::CmdRightDouble => MODIFIER_CMD_RIGHT,
            Trigger::OptLeftDouble => MODIFIER_OPT_LEFT,
            Trigger::OptRightDouble => MODIFIER_OPT_RIGHT,
            Trigger::GlobeDouble => MODIFIER_FN,
            Trigger::MicKey => 0,
        }
    }

    /// Whether a key press is the dictation key and this is the mic-key trigger.
    pub fn matches_mic_key(&self, is_dictation_key: bool) -> (r: bool)
        ensures
            r == (*self == Trigger::MicKey && is_dictation_key),
    {
        match self {
            Trigger::MicKey => is_dictation_key,
            _ => false,
        }
    }
}

/// The state of a double-tap detector.
#[derive(Debug, Clone, Copy, PartialEq, Eq, Structural)]
pub struct TapState {
    /// When the pending first tap happened.
    pub last_tap: Option<u64>,
    /// Whether other key activity happened since the pending tap.
    pub dirty: bool,
}

/// No tap pending.
pub open spec fn tap_idle() -> TapState {
    TapState { last_tap: None, dirty: false }
}

/// A state is well formed when it is only dirty with a tap pending.
pub open spec fn tap_state_wf(s: TapState) -> bool {
    s.dirty ==> s.last_tap is Some
}

/// Time from `then` to `now`, zero when `now` is earlier.
pub open spec fn elapsed(now: u64, then: u64) -> u64 {
    if now >= then {
        (now - then) as u64
    } else {
        0
    }
}

/// A key-down of the watched modifier: the next state, and whether it fires.
pub open spec fn tap_step(s: TapState, now: u64) -> (TapState, bool) {
    if s.dirty {
        (TapState { last_tap: Some(now), dirty: false }, false)
    } else {
        match s.last_tap {
            Some(t) => if elapsed(now, t) <= DOUBLE_TAP_WINDOW_NANOS {
                (tap_idle(), true)
            } else {
                (TapState { last_tap: Some(now), dirty: false }, false)
            },
            None => (TapState { last_tap: Some(now), dirty: false }, false),
        }
    }
}

/// Unrelated key or modifier activity: a pending tap becomes invalid.
pub open spec fn other_activity_step(s: TapState) -> TapState {
    if s.last_tap is Some {
        TapState { dirty: true, ..s }
    } else {
        s
    }
}

/// The passage of time: a pending tap older than the window expires.
pub open spec fn tick_step(s: TapState, now: u64) -> TapState {
    match s.last_tap {
        Some(t) => if elapsed(now, t) > DOUBLE_TAP_WINDOW_NANOS {
            tap_idle()
        } else {
            s
        },
        None => s,
    }
}

/// Double-tap state machine over the watched modifier: feed it events,
/// `true` means the trigger fired.
pub struct DoubleTapDetector {
    last_tap: Option<u64>,
    dirty: bool,
}

impl View for DoubleTapDetector {
    type V = TapState;

    closed spec fn view(&self) -> TapState {
        TapState { last_tap: self.last_tap, dirty: self.dirty }
    }
}

impl DoubleTapDetector {
    /// A detector with no tap pending.
    pub fn new() -> (d: Self)
        ensures
            d@ == tap_idle(),
    {
        DoubleTapDetector { last_tap: None, dirty: false }
    }

    /// Forgets any pending tap.
    pub fn reset(&mut self)
        ensures
            final(self)@ == tap_idle(),
    {
        self.last_tap = None;
        self.dirty = false;
    }

    /// A key-down of the watched modifier at `now_nanos`.
    pub fn on_watched_tap(&mut self, now_nanos: u64) -> (fired: bool)
        ensures
            (final(self)@, fired) == tap_step(old(self)@, now_nanos),
    {
        if self.dirty {
            self.reset();
            self.last_tap = Some(now_nanos);
            return false;
        }
        match self.last_tap {
            Some(t) if elapsed_nanos(now_nanos, t) <= DOUBLE_TAP_WINDOW_NANOS => {
                self.reset();
                true
            },
            _ => {
                self.last_tap = Some(now_nanos);
                false
            },
        }
    }

    /// Any unrelated key or modifier activity invalidates a pending tap.
    pub fn on_other_activity(&mut self)
        ensures
            final(self)@ == other_activity_step(old(self)@),
    {
        if self.last_tap.is_some() {
            self.dirty = true;
        }
    }

    /// Expires stale taps so an old single press can't pair with a new one.
    pub fn tick(&mut self, now_nanos: u64)
        ensures
            final(self)@ == tick_step(old(self)@, now_nanos),
    {
        if let Some(t) = self.last_tap {
            if elapsed_nanos(now_nanos, t) > DOUBLE_TAP_WINDOW_NANOS {
                self.reset();
            }
        }
    }
}

/// Time from `then` to `now`, saturating at zero.
fn elapsed_nanos(now: u64, then: u64) -> (r: u64)
    ensures
        r == elapsed(now, then),
{
    if now >= then {
        now - then
    } else {
        0
    }
}

/// What the listener reads of one keyboard event.
#[derive(Debug, Clone, Copy, PartialEq, Eq, Structural)]
pub struct KeyInput {
    /// A press (as opposed to a release).
    pub is_key_down: bool,
    /// The key is the dedicated dictation key.
    pub is_dictation_key: bool,
    /// For modifier-only events, the modifier bits that changed.
    pub changed_modifier: Option<u32>,
}

/// Whether a changed modifier set hits the trigger's watched modifiers.
pub open spec fn watched_hit(t: Trigger, changed: u32) -> bool {
    spec_watched_modifiers(t) != 0 && changed & spec_watched_modifiers(t) != 0
}

/// One keyboard event seen by the listener: the next detector state and
/// whether the trigger fires.
pub open spec fn key_event_step(
    trigger: Option<Trigger>,
    s: TapState,
    e: KeyInput,
    now: u64,
) -> (TapState, bool) {
    match trigger {
        None => (s, false),
        Some(t) => if e.is_key_down && t == Trigger::MicKey && e.is_dictation_key {
            (s, true)
        } else {
            match e.changed_modifier {
                Some(changed) => if e.is_key_down && watched_hit(t, changed) {
                    tap_step(s, now)
                } else if e.is_key_down {
                    (other_activity_step(s), false)
                } else {
                    (s, false)
                },
                None => if e.is_key_down {
                    (other_activity_step(s), false)
                } else {
                    (s, false)
                },
            }
        },
    }
}

/// Handles one keyboard event for the active trigger; `true` means fire
/// (toggle transcription).
pub fn on_key_event(
    trigger: Option<Trigger>,
    detector: &mut DoubleTapDetector,
    event: KeyInput,
    now_nanos: u64,
) -> (fire: bool)
    ensures
        (final(detector)@, fire) == key_event_step(trigger, old(detector)@, event, now_nanos),
{
    let trigger = match trigger {
        Some(t) => t,
        None => return false,
    };
    let watched = trigger.watched_modifiers();
    if event.is_key_down && trigger.matches_mic_key(event.is_dictation_key) {
        return true;
    }
    if let Some(changed) = event.changed_modifier {
        let watched_hit = watched != 0 && changed & watched != 0;
        if event.is_key_down && watched_hit {
            return detector.on_watched_tap(now_nanos);
        } else if event.is_key_down {
            // A different modifier went down mid-tap.
            detector.on_other_activity();
        }
        // Releases of the watched modifier are expected between taps and
        // keep the tap pending.
        return false;
    }
    if event.is_key_down {
        // A regular key press is probably part of a real shortcut.
        detector.on_other_activity();
    }
    false
}

/// The small code under which the listener stores the active trigger.
pub open spec fn spec_trigger_code(t: Option<Trigger>) -> u64 {
    match t {
        None => 0,
        Some(Trigger::MicKey) => 1,
        Some(Trigger::CtrlDouble) => 2,
        Some(Trigger::CmdLeftDouble) => 3,
        Some(Trigger::CmdRightDouble) => 4,
        Some(Trigger::OptLeftDouble) => 6,
        Some(Trigger::OptRightDouble) => 7,
        Some(Trigger::GlobeDouble) => 5,
    }
}

/// The trigger a stored code stands for; unknown codes stand for none.
pub open spec fn spec_trigger_from_code(code: u64) -> Option<Trigger> {
    if code == 1 {
        Some(Trigger::MicKey)
    } else if code == 2 {
        Some(Trigger::CtrlDouble)
    } else if code == 3 {
        Some(Trigger::CmdLeftDouble)
    } else if code == 4 {
        Some(Trigger::CmdRightDouble)
    } else if code == 5 {
        Some(Trigger::GlobeDouble)
    } else if code == 6 {
        Some(Trigger::OptLeftDouble)
    } else if code == 7 {
        Some(Trigger::OptRightDouble)
    } else {
        None
    }
}

/// Encodes the active trigger as a code the listener can hot-swap.
pub fn trigger_code(t: Option<Trigger>) -> (code: u64)
    ensures
        code == spec_trigger_code(t),
{
    match t {
        None => 0,
        Some(Trigger::MicKey) => 1,
        Some(Trigger::CtrlDouble) => 2,
        Some(Trigger::CmdLeftDouble) => 3,
        Some(Trigger::CmdRightDouble) => 4,
        Some(Trigger::OptLeftDouble) => 6,
        Some(Trigger::OptRightDouble) => 7,
        Some(Trigger::GlobeDouble) => 5,
    }
}

/// Decodes a stored trigger code.
pub fn trigger_from_code(code: u64) -> (t: Option<Trigger>)
    ensures
        t == spec_trigger_from_code(code),
{
    match code {
        1 => Some(Trigger::MicKey),
        2 => Some(Trigger::CtrlDouble),
        3 => Some(Trigger::CmdLeftDouble),
        4 => Some(Trigger::CmdRightDouble),
        5 => Some(Trigger::GlobeDouble),
        6 => Some(Trigger::OptLeftDouble),
        7 => Some(Trigger::OptRightDouble),
        _ => None,
    }
}

/// Decoding a stored code gives back the stored trigger; the codes in use
/// are exactly 0 to 7, and any other code decodes to no trigger.
pub proof fn lemma_trigger_code_roundtrip(t: Option<Trigger>, code: u64)
    ensures
        spec_trigger_from_code(spec_trigger_code(t)) == t,
        spec_trigger_code(t) <= 7,
        code <= 7 ==> spec_trigger_code(spec_trigger_from_code(code)) == code,
        code > 7 ==> spec_trigger_from_code(code) is None,
{
}

/// Commands for the listener.
#[derive(Debug, Clone, Copy, PartialEq, Eq, Structural)]
pub enum Command {
    SetTrigger(Option<Trigger>),
    Shutdown,
}

/// The command that applies a persisted setting (at startup and on change):
/// switch to the trigger it names, or to none.
pub fn apply_setting(value: &str) -> (c: Command)
    ensures
        c == Command::SetTrigger(spec_from_setting(value@)),
{
    Command::SetTrigger(Trigger::from_setting(value))
}

/// The command that stops the listener.
pub fn shutdown() -> (c: Command)
    ensures
        c == Command::Shutdown,
{
    Command::Shutdown
}

/// Handles a command in the listener: switching the trigger forgets any
/// pending tap and yields the code to store as the active trigger; shutting
/// down yields none (the listener stops).
pub fn on_command(cmd: Command, detector: &mut DoubleTapDetector) -> (code: Option<u64>)
    ensures
        match cmd {
            Command::SetTrigger(t) => code == Some(spec_trigger_code(t)) && final(detector)@
                == tap_idle(),
            Command::Shutdown => code is None && final(detector)@ == old(detector)@,
        },
{
    match cmd {
        Command::SetTrigger(t) => {
            detector.reset();
            Some(trigger_code(t))
        },
        Command::Shutdown => None,
    }
}

/// Every detector operation keeps the detector well formed (only dirty
/// while a tap is pending).
pub proof fn lemma_detector_steps_keep_wf(
    s: TapState,
    trigger: Option<Trigger>,
    e: KeyInput,
    now: u64,
)
    requires
        tap_state_wf(s),
    ensures
        tap_state_wf(tap_idle()),
        tap_state_wf(tap_step(s, now).0),
        tap_state_wf(other_activity_step(s)),
        tap_state_wf(tick_step(s, now)),
        tap_state_wf(key_event_step(trigger, s, e, now).0),
{
}

/// Firing resets the detector: a single later tap cannot fire again.
pub proof fn lemma_fire_resets(s: TapState, now: u64, later: u64)
    ensures
        tap_step(s, now).1 ==> tap_step(s, now).0 == tap_idle(),
        tap_step(s, now).1 ==> !tap_step(tap_step(s, now).0, later).1,
{
}

/// From an idle detector, a first tap never fires; a second clean tap fires
/// exactly when it comes within the window of the first.
pub proof fn lemma_double_tap(t0: u64, t1: u64)
    requires
        t0 <= t1,
    ensures
        !tap_step(tap_idle(), t0).1,
        tap_step(tap_step(tap_idle(), t0).0, t1).1 <==> t1 - t0 <= DOUBLE_TAP_WINDOW_NANOS,
{
}

/// Other activity after a first tap blocks the double tap: the next tap does
/// not fire but becomes a fresh first tap.
pub proof fn lemma_interrupted_tap(s: TapState, t1: u64)
    requires
        s.last_tap is Some,
    ensures
        !tap_step(other_activity_step(s), t1).1,
        tap_step(other_activity_step(s), t1).0 == (TapState { last_tap: Some(t1), dirty: false }),
{
}

/// A tick after the window has passed expires the pending tap, so a tap at
/// that time does not fire.
pub proof fn lemma_tick_expires(t0: u64, now: u64)
    requires
        now > t0 + DOUBLE_TAP_WINDOW_NANOS,
    ensures
        tick_step(tap_step(tap_idle(), t0).0, now) == tap_idle(),
        !tap_step(tick_step(tap_step(tap_idle(), t0).0, now), now).1,
{
}

/// Releases never fire and never change the detector; the dictation key
/// fires the mic-key trigger whatever the detector holds, and leaves it as is.
pub proof fn lemma_key_event_cases(trigger: Option<Trigger>, s: TapState, e: KeyInput, now: u64)
    ensures
        !e.is_key_down ==> key_event_step(trigger, s, e, now) == (s, false),
        trigger == Some(Trigger::MicKey) && e.is_key_down && e.is_dictation_key
            ==> key_event_step(trigger, s, e, now) == (s, true),
        trigger is None ==> key_event_step(trigger, s, e, now) == (s, false),
{
}

/// Real shortcuts never fire a double-tap trigger: a tap of the watched
/// modifier, then another key or modifier going down, then the watched
/// modifier again does not fire, whatever the detector held before.
pub proof fn lemma_shortcut_never_fires(
    t: Trigger,
    s: TapState,
    tap1: KeyInput,
    other: KeyInput,
    tap2: KeyInput,
    t1: u64,
    t2: u64,
    t3: u64,
)
    requires
        t != Trigger::MicKey,
        tap1.is_key_down,
        tap1.changed_modifier matches Some(c) && watched_hit(t, c),
        other.is_key_down,
        other.changed_modifier matches Some(c) ==> !watched_hit(t, c),
        tap2.is_key_down,
        tap2.changed_modifier matches Some(c) && watched_hit(t, c),
    ensures
        ({
            let s1 = key_event_step(Some(t), s, tap1, t1).0;
            let s2 = key_event_step(Some(t), s1, other, t2).0;
            !key_event_step(Some(t), s2, tap2, t3).1
        }),
{
}

/// The `handy_keys` bit of a single modifier key (`Modifiers`: CMD_LEFT is
/// bit 0, CTRL_LEFT bit 2, OPT_LEFT bit 3, FN bit 4, CMD_RIGHT bit 5,
/// CTRL_RIGHT bit 7, OPT_RIGHT bit 8) that the setting name of a double-tap
/// trigger names: either Control key for `ctrl_double`, the globe (fn) key
/// for `globe_double`, the named side's key otherwise.
pub open spec fn named_key_bit(name: Seq<char>, bit: u32) -> bool {
    ||| name == "ctrl_double"@ && (bit == 0x4 || bit == 0x80)
    ||| name == "cmd_left_double"@ && bit == 0x1
    ||| name == "cmd_right_double"@ && bit == 0x20
    ||| name == "opt_left_double"@ && bit == 0x8
    ||| name == "opt_right_double"@ && bit == 0x100
    ||| name == "globe_double"@ && bit == 0x10
}

/// A key-down of a single modifier key, as the listener reads it.
pub open spec fn modifier_down(bit: u32) -> KeyInput {
    KeyInput { is_key_down: true, is_dictation_key: false, changed_modifier: Some(bit) }
}

/// A double-tap trigger watches exactly the modifier key its setting names:
/// a key-down of a single modifier key counts as a tap of the trigger if
/// and only if it is that key; any other modifier key counts as other
/// activity.
pub proof fn lemma_trigger_watches_named_key(name: Seq<char>, k: u32)
    requires
        spec_from_setting(name) matches Some(t) && t != Trigger::MicKey,
        k < 32,
    ensures
        watched_hit(spec_from_setting(name)->0, 1u32 << k) <==> named_key_bit(name, 1u32 << k),
{
    let t = spec_from_setting(name)->0;
    lemma_setting_name_roundtrip(t, name);
    reveal_strlit("ctrl_double");
    reveal_strlit("cmd_left_double");
    reveal_strlit("cmd_right_double");
    reveal_strlit("opt_left_double");
    reveal_strlit("opt_right_double");
    reveal_strlit("globe_double");
    let bit = 1u32 << k;
    match t {
        Trigger::CtrlDouble => {
            assert((bit & 0x84u32) != 0 <==> (bit == 0x4 || bit == 0x80)) by (bit_vector)
                requires
                    bit == 1u32 << k,
                    k < 32,
            ;
            assert(name == "ctrl_double"@);
            assert(spec_watched_modifiers(t) == 0x84u32);
            assert(named_key_bit(name, bit) <==> (bit == 0x4 || bit == 0x80));
        },
        Trigger::CmdLeftDouble => {
            assert((bit & 0x1u32) != 0 <==> bit == 0x1) by (bit_vector)
                requires
                    bit == 1u32 << k,
                    k < 32,
            ;
            assert(name == "cmd_left_double"@);
            assert(name[0] != "opt_left_double"@[0]);
            assert(spec_watched_modifiers(t) == 0x1u32);
            assert(named_key_bit(name, bit) <==> bit == 0x1);
        },
        Trigger::CmdRightDouble => {
            assert((bit & 0x20u32) != 0 <==> bit == 0x20) by (bit_vector)
                requires
                    bit == 1u32 << k,
                    k < 32,
            ;
            assert(name == "cmd_right_double"@);
            assert(name[0] != "opt_right_double"@[0]);
            assert(spec_watched_modifiers(t) == 0x20u32);
            assert(named_key_bit(name, bit) <==> bit == 0x20);
        },
        Trigger::OptLeftDouble => {
            assert((bit & 0x8u32) != 0 <==> bit == 0x8) by (bit_vector)
                requires
                    bit == 1u32 << k,
                    k < 32,
            ;
            assert(name == "opt_left_double"@);
            assert(spec_watched_modifiers(t) == 0x8u32);
            assert(named_key_bit(name, bit) <==> bit == 0x8);
        },
        Trigger::OptRightDouble => {
            assert((bit & 0x100u32) != 0 <==> bit == 0x100) by (bit_vector)
                requires
                    bit == 1u32 << k,
                    k < 32,
            ;
            assert(name == "opt_right_double"@);
            assert(spec_watched_modifiers(t) == 0x100u32);
            assert(named_key_bit(name, bit) <==> bit == 0x100);
        },
        Trigger::GlobeDouble => {
            assert((bit & 0x10u32) != 0 <==> bit == 0x10) by (bit_vector)
                requires
                    bit == 1u32 << k,
                    k < 32,
            ;
            assert(name == "globe_double"@);
            assert(spec_watched_modifiers(t) == 0x10u32);
            assert(named_key_bit(name, bit) <==> bit == 0x10);
        },
        Trigger::MicKey => {},
    }
}

/// Two clean key-downs of the modifier key a double-tap trigger's setting
/// names, within the window, fire the trigger on a fresh detector: the
/// first does not fire, the second does.
pub proof fn lemma_named_key_double_tap_fires(name: Seq<char>, bit: u32, t0: u64, t1: u64)
    requires
        named_key_bit(name, bit),
        t0 <= t1,
        t1 - t0 <= DOUBLE_TAP_WINDOW_NANOS,
    ensures
        spec_from_setting(name) matches Some(t) && t != Trigger::MicKey && {
            let first = key_event_step(Some(t), tap_idle(), modifier_down(bit), t0);
            !first.1 && key_event_step(Some(t), first.0, modifier_down(bit), t1).1
        },
{
    reveal_strlit("ctrl_double");
    reveal_strlit("cmd_left_double");
    reveal_strlit("cmd_right_double");
    reveal_strlit("opt_left_double");
    reveal_strlit("opt_right_double");
    reveal_strlit("globe_double");
    reveal_strlit("mic_key");
    let k: u32 = if bit == 0x1 {
        0
    } else if bit == 0x4 {
        2
    } else if bit == 0x8 {
        3
    } else if bit == 0x10 {
        4
    } else if bit == 0x20 {
        5
    } else if bit == 0x80 {
        7
    } else {
        8
    };
    assert(bit == 1u32 << k) by (bit_vector)
        requires
            bit == 0x1 || bit == 0x4 || bit == 0x8 || bit == 0x10 || bit == 0x20 || bit == 0x80
                || bit == 0x100,
            k == (if bit == 0x1 {
                0u32
            } else if bit == 0x4 {
                2u32
            } else if bit == 0x8 {
                3u32
            } else if bit == 0x10 {
                4u32
            } else if bit == 0x20 {
                5u32
            } else if bit == 0x80 {
                7u32
            } else {
                8u32
            }),
    ;
    let t = if name == "ctrl_double"@ {
        Trigger::CtrlDouble
    } else if name == "cmd_left_double"@ {
        Trigger::CmdLeftDouble
    } else if name == "cmd_right_double"@ {
        Trigger::CmdRightDouble
    } else if name == "opt_left_double"@ {
        Trigger::OptLeftDouble
    } else if name == "opt_right_double"@ {
        Trigger::OptRightDouble
    } else {
        Trigger::GlobeDouble
    };
    assert(name == setting_name(t));
    lemma_setting_name_roundtrip(t, name);
    lemma_trigger_watches_named_key(name, k);
    lemma_double_tap(t0, t1);
}

/// A call the listener makes on its detector.
pub enum DetectorCall {
    /// `on_watched_tap` at a time.
    Tap(u64),
    /// `on_other_activity`.
    Other,
    /// `tick` at a time.
    Tick(u64),
    /// `reset`.
    Reset,
}

/// One call on the detector: the next state and what the call returns
/// (only a tap can return `true`).
pub open spec fn call_step(s: TapState, c: DetectorCall) -> (TapState, bool) {
    match c {
        DetectorCall::Tap(t) => tap_step(s, t),
        DetectorCall::Other => (other_activity_step(s), false),
        DetectorCall::Tick(t) => (tick_step(s, t), false),
        DetectorCall::Reset => (tap_idle(), false),
    }
}

/// What each call of a sequence returns, from a starting state.
pub open spec fn run_results(s: TapState, calls: Seq<DetectorCall>) -> Seq<bool>
    decreases calls.len(),
{
    if calls.len() == 0 {
        Seq::empty()
    } else {
        let (next, fired) = call_step(s, calls[0]);
        seq![fired] + run_results(next, calls.drop_first())
    }
}

/// Whether a call happens no earlier than `now`.
pub open spec fn call_not_before(c: DetectorCall, now: u64) -> bool {
    match c {
        DetectorCall::Tap(t) => t >= now,
        DetectorCall::Tick(t) => t >= now,
        _ => true,
    }
}

/// `s1` behaves as `s2` from `now` on: they are equal, or `s1` holds a tap
/// already too old to pair at `now` where `s2` is idle.
spec fn same_from(s1: TapState, s2: TapState, now: u64) -> bool {
    s1 == s2 || (s2 == tap_idle() && (s1.last_tap matches Some(t) && elapsed(now, t)
        > DOUBLE_TAP_WINDOW_NANOS))
}

proof fn lemma_same_from_runs(s1: TapState, s2: TapState, calls: Seq<DetectorCall>, now: u64)
    requires
        same_from(s1, s2, now),
        forall|i: int| 0 <= i < calls.len() ==> call_not_before(#[trigger] calls[i], now),
    ensures
        run_results(s1, calls) == run_results(s2, calls),
    decreases calls.len(),
{
    if calls.len() > 0 {
        let c = calls[0];
        assert(call_not_before(calls[0], now));
        let (n1, f1) = call_step(s1, c);
        let (n2, f2) = call_step(s2, c);
        assert(f1 == f2 && same_from(n1, n2, now));
        let rest = calls.drop_first();
        assert forall|i: int| 0 <= i < rest.len() implies call_not_before(#[trigger] rest[i], now) by {
            assert(rest[i] == calls[i + 1]);
        }
        lemma_same_from_runs(n1, n2, rest, now);
    }
}

/// A tick only expires taps that could no longer pair: inserting
/// `tick(now)` before any sequence of later calls (none earlier than `now`)
/// changes nothing that any of those calls returns.
pub proof fn lemma_tick_changes_no_later_result(s: TapState, now: u64, calls: Seq<DetectorCall>)
    requires
        forall|i: int| 0 <= i < calls.len() ==> call_not_before(#[trigger] calls[i], now),
    ensures
        run_results(tick_step(s, now), calls) == run_results(s, calls),
{
    lemma_same_from_runs(s, tick_step(s, now), calls, now);
}

} // verus!

