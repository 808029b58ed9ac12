//! Hotkey detection: the double-tap state machine, the decisions of the
//! platform listeners, and the manager that swaps listeners at runtime.

use vstd::prelude::*;
use crate::chars::same_text;
use crate::config::HotkeyConfig;
use crate::keys::{lowercase, parse_combo_key, ComboKey, HotkeyError, Modifiers};

verus! {

/// Nanoseconds from `then` to `now`; 0 if `now` is earlier.
pub open spec fn elapsed_ns(now: u64, then: u64) -> int {
    if now >= then {
        now - then
    } else {
        0
    }
}

/// Whether a tap at `now` follows one at `then` within `interval_ms`.
pub open spec fn within_interval(now: u64, then: u64, interval_ms: u64) -> bool {
    elapsed_ns(now, then) <= interval_ms as int * 1_000_000
}

/// One qualifying release at `now`, given the pending tap: a release close
/// enough to the pending one fires and consumes it; any other release becomes
/// the pending tap.
pub open spec fn tap_model(interval_ms: u64, pending: Option<u64>, now: u64) -> (Option<u64>, bool) {
    match pending {
        Some(t) => if within_interval(now, t, interval_ms) {
            (None, true)
        } else {
            (Some(now), false)
        },
        None => (Some(now), false),
    }
}

/// Double-tap detection: times are in nanoseconds on a monotonic clock.
pub struct DoubleTapDetector {
    /// Longest gap between the two taps, in milliseconds.
    pub interval_ms: u64,
    /// Time of the tap waiting for a second one.
    pub pending: Option<u64>,
}

impl DoubleTapDetector {
    /// A detector with no pending tap.
    pub fn new(interval_ms: u64) -> (r: Self)
        ensures
            r.interval_ms == interval_ms,
            r.pending is None,
    {
        DoubleTapDetector { interval_ms, pending: None }
    }

    /// Records a qualifying release at `now_ns`; returns whether it completes
    /// a double tap.
    pub fn tap(&mut self, now_ns: u64) -> (fired: bool)
        ensures
            (final(self).pending, fired) == tap_model(old(self).interval_ms, old(self).pending, now_ns),
            final(self).interval_ms == old(self).interval_ms,
    {
        match self.pending {
            Some(t) => {
                let elapsed: u64 = if now_ns >= t {
                    now_ns - t
                } else {
                    0
                };
                if (elapsed as u128) <= (self.interval_ms as u128) * 1_000_000 {
                    self.pending = None;
                    true
                } else {
                    self.pending = Some(now_ns);
                    false
                }
            },
            None => {
                self.pending = Some(now_ns);
                false
            },
        }
    }
}

/// Two releases from rest: the first never fires; the second fires exactly
/// when it comes within the interval, and then leaves nothing pending;
/// otherwise it is the new pending tap.
pub proof fn law_double_tap_pair(interval_ms: u64, t1: u64, t2: u64)
    requires
        t1 <= t2,
    ensures
        ({
            let (p1, f1) = tap_model(interval_ms, None, t1);
            let (p2, f2) = tap_model(interval_ms, p1, t2);
            &&& !f1
            &&& f2 == (t2 - t1 <= interval_ms as int * 1_000_000)
            &&& f2 ==> p2 is None
            &&& !f2 ==> p2 == Some(t2)
        }),
{
}

/// Three releases from rest, each within the interval of the one before:
/// only the second fires, and the third is left pending.
pub proof fn law_triple_tap(interval_ms: u64, t1: u64, t2: u64, t3: u64)
    requires
        t1 <= t2 <= t3,
        t2 - t1 <= interval_ms as int * 1_000_000,
        t3 - t2 <= interval_ms as int * 1_000_000,
    ensures
        ({
            let (p1, f1) = tap_model(interval_ms, None, t1);
            let (p2, f2) = tap_model(interval_ms, p1, t2);
            let (p3, f3) = tap_model(interval_ms, p2, t3);
            &&& !f1 && f2 && !f3
            &&& p3 == Some(t3)
        }),
{
}

/// How a listener turns hotkey events into triggers.
pub enum TriggerDetector {
    /// Every chord press triggers.
    Chord,
    /// Two presses within the interval trigger.
    DoubleTap(DoubleTapDetector),
}

impl TriggerDetector {
    /// Handles one qualifying event at `now_ns`; returns whether to trigger.
    pub fn on_event(&mut self, now_ns: u64) -> (fired: bool)
        ensures
            match *old(self) {
                TriggerDetector::Chord => fired && *final(self) == *old(self),
                TriggerDetector::DoubleTap(d) => *final(self) matches TriggerDetector::DoubleTap(e)
                    && e.interval_ms == d.interval_ms
                    && (e.pending, fired) == tap_model(d.interval_ms, d.pending, now_ns),
            },
    {
        match self {
            TriggerDetector::Chord => true,
            TriggerDetector::DoubleTap(d) => d.tap(now_ns),
        }
    }
}

/// Whether the hotkey mode is the chord mode.
pub fn is_combo_mode(config: &HotkeyConfig) -> (r: bool)
    ensures
        r == (config.mode@ == "combo"@),
{
    same_text(config.mode.as_str(), "combo")
}

/// Modifier flag of the macOS event for a lower-case key name; 0 if none.
pub open spec fn mac_modifier_mask_of(l: Seq<char>) -> u64 {
    if l == "control"@ || l == "ctrl"@ {
        0x40000
    } else if l == "shift"@ {
        0x20000
    } else if l == "alt"@ || l == "option"@ {
        0x80000
    } else if l == "command"@ || l == "cmd"@ || l == "meta"@ {
        0x100000
    } else {
        0
    }
}

/// Modifier flag of the macOS event for a lower-case key name; 0 if none.
pub fn mac_modifier_mask_from_lower(l: &str) -> (r: u64)
    ensures
        r == mac_modifier_mask_of(l@),
{
    if same_text(l, "control") || same_text(l, "ctrl") {
        0x40000
    } else if same_text(l, "shift") {
        0x20000
    } else if same_text(l, "alt") || same_text(l, "option") {
        0x80000
    } else if same_text(l, "command") || same_text(l, "cmd") || same_text(l, "meta") {
        0x100000
    } else {
        0
    }
}

/// Modifier flag of the macOS event for a key name in any case; 0 if none.
pub fn mac_modifier_mask(key: &str) -> (r: u64)
    ensures
        r == mac_modifier_mask_of(crate::keys::lower_of(key@)),
{
    let lower = lowercase(key);
    mac_modifier_mask_from_lower(lower.as_str())
}

/// Windows virtual-key codes of a lower-case modifier name; none if unknown.
pub open spec fn win_modifier_keys_of(l: Seq<char>) -> Seq<u16> {
    if l == "ctrl"@ {
        seq![0x11u16, 0xa2u16, 0xa3u16]
    } else if l == "shift"@ {
        seq![0xa0u16, 0xa1u16]
    } else if l == "alt"@ {
        seq![0xa4u16, 0xa5u16]
    } else {
        Seq::empty()
    }
}

/// Windows virtual-key codes of a lower-case modifier name.
pub fn win_modifier_keys(key_lower: &str) -> (r: Vec<u16>)
    ensures
        r@ == win_modifier_keys_of(key_lower@),
{
    let mut v: Vec<u16> = Vec::new();
    if same_text(key_lower, "ctrl") {
        v.push(0x11);
        v.push(0xa2);
        v.push(0xa3);
    } else if same_text(key_lower, "shift") {
        v.push(0xa0);
        v.push(0xa1);
    } else if same_text(key_lower, "alt") {
        v.push(0xa4);
        v.push(0xa5);
    }
    assert(v@ =~= win_modifier_keys_of(key_lower@));
    v
}

/// Whether a lower-case name is a modifier that Windows watches with a
/// keyboard hook.
pub open spec fn is_hook_modifier(l: Seq<char>) -> bool {
    l == "ctrl"@ || l == "shift"@ || l == "alt"@
}

/// Whether a lower-case name is a modifier that Windows watches with a
/// keyboard hook.
pub fn is_hook_modifier_name(l: &str) -> (r: bool)
    ensures
        r == is_hook_modifier(l@),
{
    same_text(l, "ctrl") || same_text(l, "shift") || same_text(l, "alt")
}

/// Whether the Windows listener needs a low-level keyboard hook: double tap
/// of a modifier key, which global hotkeys cannot express.
pub fn uses_keyboard_hook(config: &HotkeyConfig) -> (r: bool)
    ensures
        r == (config.mode@ == "double_tap"@ && is_hook_modifier(
            crate::keys::lower_of(config.double_tap_key@),
        )),
{
    let lower = lowercase(config.double_tap_key.as_str());
    same_text(config.mode.as_str(), "double_tap") && is_hook_modifier_name(lower.as_str())
}

/// The global hotkey that the Windows listener registers: the chord in chord
/// mode, the bare key for a double tap of a non-modifier key, and none for a
/// double tap of a modifier key, which the keyboard hook watches instead.
pub fn hotkey_registration(config: &HotkeyConfig) -> (r: Result<Option<ComboKey>, HotkeyError>)
    ensures
        config.mode@ == "combo"@ ==> match r {
            Ok(Some(c)) => crate::keys::combo_outcome(config.combo_key@, Ok(c)),
            Ok(None) => false,
            Err(e) => crate::keys::combo_outcome(config.combo_key@, Err(e)),
        },
        config.mode@ != "combo"@ && is_hook_modifier(crate::keys::lower_of(config.double_tap_key@))
            ==> r == Ok::<Option<ComboKey>, HotkeyError>(None),
        config.mode@ != "combo"@ && !is_hook_modifier(crate::keys::lower_of(config.double_tap_key@))
            ==> match crate::keys::key_code_of(crate::keys::upper_of(config.double_tap_key@)) {
            Some(k) => r == Ok::<Option<ComboKey>, HotkeyError>(
                Some(ComboKey { modifiers: crate::keys::no_modifiers(), key: k }),
            ),
            None => r matches Err(HotkeyError::UnknownKey(s)) && s@ == config.double_tap_key@,
        },
{
    if is_combo_mode(config) {
        match parse_combo_key(config.combo_key.as_str()) {
            Ok(c) => Ok(Some(c)),
            Err(e) => Err(e),
        }
    } else {
        let key = config.double_tap_key.as_str();
        let lower = lowercase(key);
        let upper = crate::keys::uppercase(key);
        double_tap_registration(key, lower.as_str(), upper.as_str())
    }
}

/// The global hotkey for a double tap of `key`, given its lower-case form
/// `lower` and upper-case form `upper`: none for a modifier that the keyboard
/// hook watches, else the bare key.
pub fn double_tap_registration(key: &str, lower: &str, upper: &str) -> (r: Result<Option<ComboKey>, HotkeyError>)
    ensures
        is_hook_modifier(lower@) ==> r == Ok::<Option<ComboKey>, HotkeyError>(None),
        !is_hook_modifier(lower@) ==> match crate::keys::key_code_of(upper@) {
            Some(k) => r == Ok::<Option<ComboKey>, HotkeyError>(
                Some(ComboKey { modifiers: crate::keys::no_modifiers(), key: k }),
            ),
            None => r matches Err(HotkeyError::UnknownKey(s)) && s@ == key@,
        },
{
    if is_hook_modifier_name(lower) {
        Ok(None)
    } else {
        match crate::keys::key_code_from_upper(upper) {
            Some(k) => Ok(
                Some(
                    ComboKey {
                        modifiers: Modifiers { ctrl: false, shift: false, alt: false, meta: false },
                        key: k,
                    },
                ),
            ),
            None => Err(HotkeyError::UnknownKey(key.to_owned())),
        }
    }
}

} // verus!
