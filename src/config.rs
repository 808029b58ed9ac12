//! Application configuration values and their defaults.

use vstd::prelude::*;

verus! {

/// Application configuration.
pub struct AppConfig {
    pub general: GeneralConfig,
    pub hotkey: HotkeyConfig,
    pub asr: AsrConfig,
}

/// General settings.
pub struct GeneralConfig {
    pub auto_start: bool,
    pub language: String,
    pub hide_dock_icon: bool,
}

/// Hotkey settings. `mode` is `"combo"` or `"double_tap"`; the interval is
/// in milliseconds.
pub struct HotkeyConfig {
    pub mode: String,
    pub combo_key: String,
    pub double_tap_key: String,
    pub double_tap_interval: u64,
}

/// Recognition settings.
pub struct AsrConfig {
    pub vad_enabled: bool,
}

/// Default recognition language.
pub fn default_language() -> (r: String)
    ensures
        r@ == "zh-CN"@,
{
    "zh-CN".to_owned()
}

/// Default hotkey mode.
pub fn default_hotkey_mode() -> (r: String)
    ensures
        r@ == "combo"@,
{
    "combo".to_owned()
}

/// Default chord.
pub fn default_combo_key() -> (r: String)
    ensures
        r@ == "Ctrl+Shift+V"@,
{
    "Ctrl+Shift+V".to_owned()
}

/// Default double-tap key.
pub fn default_double_tap_key() -> (r: String)
    ensures
        r@ == "Ctrl"@,
{
    "Ctrl".to_owned()
}

/// Default double-tap interval, in milliseconds.
pub fn default_double_tap_interval() -> (r: u64)
    ensures
        r == 300,
{
    300
}

/// Default for settings that are on unless turned off.
pub fn default_true() -> (r: bool)
    ensures
        r,
{
    true
}

impl Default for GeneralConfig {
    fn default() -> (r: Self)
        ensures
            !r.auto_start,
            r.language@ == "zh-CN"@,
            !r.hide_dock_icon,
    {
        GeneralConfig { auto_start: false, language: default_language(), hide_dock_icon: false }
    }
}

impl Default for HotkeyConfig {
    fn default() -> (r: Self)
        ensures
            r.mode@ == "combo"@,
            r.combo_key@ == "Ctrl+Shift+V"@,
            r.double_tap_key@ == "Ctrl"@,
            r.double_tap_interval == 300,
    {
        HotkeyConfig {
            mode: default_hotkey_mode(),
            combo_key: default_combo_key(),
            double_tap_key: default_double_tap_key(),
            double_tap_interval: default_double_tap_interval(),
        }
    }
}

impl Default for AsrConfig {
    fn default() -> (r: Self)
        ensures
            r.vad_enabled,
    {
        AsrConfig { vad_enabled: default_true() }
    }
}

impl Default for AppConfig {
    fn default() -> (r: Self)
        ensures
            !r.general.auto_start,
            r.general.language@ == "zh-CN"@,
            !r.general.hide_dock_icon,
            r.hotkey.mode@ == "combo"@,
            r.hotkey.combo_key@ == "Ctrl+Shift+V"@,
            r.hotkey.double_tap_key@ == "Ctrl"@,
            r.hotkey.double_tap_interval == 300,
            r.asr.vad_enabled,
    {
        AppConfig {
            general: GeneralConfig::default(),
            hotkey: HotkeyConfig::default(),
            asr: AsrConfig::default(),
        }
    }
}

} // verus!
