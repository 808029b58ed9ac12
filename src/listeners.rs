//! Decision cores of the platform hotkey listeners. The listeners feed them
//! the events that the operating system delivers and fire the callback when
//! told to.

use vstd::prelude::*;
use crate::config::HotkeyConfig;
use crate::hotkey::{
    is_combo_mode, mac_modifier_mask, mac_modifier_mask_of, tap_model, win_modifier_keys,
    win_modifier_keys_of, DoubleTapDetector,
};
use crate::keys::{parse_combo_key, ComboKey, HotkeyError, KeyCode, Modifiers};

verus! {

/// Modifiers held according to the modifier flags of a macOS event.
pub open spec fn mac_modifiers_of(flags: u64) -> Modifiers {
    Modifiers {
        ctrl: flags & 0x40000 != 0,
        shift: flags & 0x20000 != 0,
        alt: flags & 0x80000 != 0,
        meta: flags & 0x100000 != 0,
    }
}

/// Modifiers held according to the modifier flags of a macOS event.
pub fn mac_modifiers(flags: u64) -> (r: Modifiers)
    ensures
        r == mac_modifiers_of(flags),
{
    Modifiers {
        ctrl: flags & 0x40000 != 0,
        shift: flags & 0x20000 != 0,
        alt: flags & 0x80000 != 0,
        meta: flags & 0x100000 != 0,
    }
}

/// Decision core of the macOS listener. In chord mode a key-down event with
/// exactly the chord's modifiers and key fires. In double-tap mode the
/// watched modifier is followed through the flags of flags-changed events:
/// each release (its flag going from set to clear) is one tap.
pub struct MacosHotkeyProvider {
    is_active: bool,
    chord: Option<ComboKey>,
    target_mask: u64,
    held: bool,
    detector: DoubleTapDetector,
}

impl MacosHotkeyProvider {
    /// Whether the listener still reacts to events.
    pub closed spec fn active(&self) -> bool {
        self.is_active
    }

    /// The chord in chord mode; none in double-tap mode.
    pub closed spec fn chord(&self) -> Option<ComboKey> {
        self.chord
    }

    /// Flag of the watched modifier; 0 when the key is not a modifier.
    pub closed spec fn mask(&self) -> u64 {
        self.target_mask
    }

    /// Whether the watched modifier was down at the last event.
    pub closed spec fn held(&self) -> bool {
        self.held
    }

    /// The double-tap state.
    pub closed spec fn detector(&self) -> DoubleTapDetector {
        self.detector
    }

    /// An active listener for the configuration: the parsed chord in chord
    /// mode (a chord that does not parse is refused with the parser's
    /// error), else the double-tap key and interval.
    pub fn new(config: &HotkeyConfig) -> (r: Result<Self, HotkeyError>)
        ensures
            config.mode@ == "combo"@ ==> match r {
                Ok(p) => p.active() && (p.chord() matches Some(c) && crate::keys::combo_outcome(
                    config.combo_key@,
                    Ok(c),
                )),
                Err(e) => crate::keys::combo_outcome(config.combo_key@, Err(e)),
            },
            config.mode@ != "combo"@ ==> (r matches Ok(p) && p.active() && p.chord() is None
                && p.mask() == mac_modifier_mask_of(crate::keys::lower_of(config.double_tap_key@))
                && !p.held() && p.detector().interval_ms == config.double_tap_interval
                && p.detector().pending is None),
    {
        let chord = if is_combo_mode(config) {
            match parse_combo_key(config.combo_key.as_str()) {
                Ok(c) => Some(c),
                Err(e) => {
                    return Err(e);
                },
            }
        } else {
            None
        };
        Ok(MacosHotkeyProvider {
            is_active: true,
            chord,
            target_mask: mac_modifier_mask(config.double_tap_key.as_str()),
            held: false,
            detector: DoubleTapDetector::new(config.double_tap_interval),
        })
    }

    /// Flag of the watched modifier; 0 when the key is not a modifier.
    pub fn target_mask(&self) -> (r: u64)
        ensures
            r == self.mask(),
    {
        self.target_mask
    }

    /// Whether the listener is in chord mode.
    pub fn is_chord_mode(&self) -> (r: bool)
        ensures
            r == self.chord() is Some,
    {
        self.chord.is_some()
    }

    /// Handles a key-down event of `key` with modifier `flags`; returns
    /// whether the callback fires: in chord mode, while active, exactly when
    /// the event is the chord.
    pub fn on_key_down(&self, flags: u64, key: KeyCode) -> (fired: bool)
        ensures
            fired == (self.active() && (self.chord() matches Some(c) && c.key == key
                && c.modifiers == mac_modifiers_of(flags))),
    {
        if !self.is_active {
            return false;
        }
        match &self.chord {
            Some(c) => {
                let m = mac_modifiers(flags);
                c.key == key && m.ctrl == c.modifiers.ctrl && m.shift == c.modifiers.shift
                    && m.alt == c.modifiers.alt && m.meta == c.modifiers.meta
            },
            None => false,
        }
    }

    /// Handles a flags-changed event with modifier `flags` at `now_ns`;
    /// returns whether the callback fires. In double-tap mode, while active
    /// and watching a modifier, the event updates whether the modifier is
    /// down, and a release of it is a tap.
    pub fn on_flags_changed(&mut self, flags: u64, now_ns: u64) -> (fired: bool)
        ensures
            final(self).active() == old(self).active(),
            final(self).chord() == old(self).chord(),
            final(self).mask() == old(self).mask(),
            final(self).detector().interval_ms == old(self).detector().interval_ms,
            if old(self).active() && old(self).chord() is None && old(self).mask() != 0 {
                &&& final(self).held() == (flags & old(self).mask() != 0)
                &&& if old(self).held() && flags & old(self).mask() == 0 {
                    (final(self).detector().pending, fired) == tap_model(
                        old(self).detector().interval_ms,
                        old(self).detector().pending,
                        now_ns,
                    )
                } else {
                    !fired && final(self).detector() == old(self).detector()
                }
            } else {
                !fired && final(self).detector() == old(self).detector() && final(self).held()
                    == old(self).held()
            },
    {
        if !self.is_active || self.chord.is_some() || self.target_mask == 0 {
            return false;
        }
        let down = flags & self.target_mask != 0;
        let released = self.held && !down;
        self.held = down;
        if released {
            self.detector.tap(now_ns)
        } else {
            false
        }
    }

    /// Stops reacting to events.
    pub fn stop(&mut self)
        ensures
            !final(self).active(),
            final(self).chord() == old(self).chord(),
            final(self).mask() == old(self).mask(),
            final(self).held() == old(self).held(),
            final(self).detector() == old(self).detector(),
    {
        self.is_active = false;
    }
}

/// Decision core of the Windows keyboard hook: a double tap of a modifier
/// key, counted on key-up events of its virtual keys.
pub struct ModifierHookState {
    target_vks: Vec<u16>,
    detector: DoubleTapDetector,
}

impl ModifierHookState {
    /// Virtual keys that count as the watched modifier.
    pub closed spec fn targets(&self) -> Seq<u16> {
        self.target_vks@
    }

    /// The double-tap state.
    pub closed spec fn detector(&self) -> DoubleTapDetector {
        self.detector
    }

    /// State for the lower-case modifier name `key_lower`; none if it names no
    /// modifier that the hook watches.
    pub fn new(key_lower: &str, interval_ms: u64) -> (r: Option<Self>)
        ensures
            win_modifier_keys_of(key_lower@).len() == 0 ==> r is None,
            win_modifier_keys_of(key_lower@).len() > 0 ==> (r matches Some(h) && h.targets()
                == win_modifier_keys_of(key_lower@) && h.detector().interval_ms == interval_ms
                && h.detector().pending is None),
    {
        let target_vks = win_modifier_keys(key_lower);
        if target_vks.len() == 0 {
            None
        } else {
            Some(ModifierHookState { target_vks, detector: DoubleTapDetector::new(interval_ms) })
        }
    }

    /// Handles a keyboard event of virtual key `vk` at `now_ns`; returns
    /// whether the callback fires. Only a key-up of a watched key, while
    /// active, counts as a tap.
    pub fn on_key_event(&mut self, active: bool, vk: u16, key_up: bool, now_ns: u64) -> (fired: bool)
        ensures
            final(self).targets() == old(self).targets(),
            final(self).detector().interval_ms == old(self).detector().interval_ms,
            if active && key_up && old(self).targets().contains(vk) {
                (final(self).detector().pending, fired) == tap_model(
                    old(self).detector().interval_ms,
                    old(self).detector().pending,
                    now_ns,
                )
            } else {
                !fired && final(self).detector() == old(self).detector()
            },
    {
        if !active || !key_up {
            return false;
        }
        let mut found = false;
        let mut i: usize = 0;
        while i < self.target_vks.len()
            invariant
                i <= self.target_vks@.len(),
                found == exists|k: int| 0 <= k < i && self.target_vks@[k] == vk,
            decreases self.target_vks@.len() - i,
        {
            if self.target_vks[i] == vk {
                found = true;
            }
            i += 1;
        }
        if !found {
            return false;
        }
        self.detector.tap(now_ns)
    }
}

} // verus!
