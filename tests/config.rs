use doubao_voice_input::config::{
    default_combo_key, default_double_tap_interval, default_double_tap_key, default_hotkey_mode,
    default_language, default_true,
};
use doubao_voice_input::{AppConfig, HotkeyConfig};

#[test]
fn config_defaults() {
    let c = AppConfig::default();
    assert!(!c.general.auto_start);
    assert_eq!(c.general.language, "zh-CN");
    assert!(!c.general.hide_dock_icon);
    assert_eq!(c.hotkey.mode, "combo");
    assert_eq!(c.hotkey.combo_key, "Ctrl+Shift+V");
    assert_eq!(c.hotkey.double_tap_key, "Ctrl");
    assert_eq!(c.hotkey.double_tap_interval, 300);
    assert!(c.asr.vad_enabled);
}

#[test]
fn config_default_functions() {
    assert_eq!(default_language(), "zh-CN");
    assert_eq!(default_hotkey_mode(), "combo");
    assert_eq!(default_combo_key(), "Ctrl+Shift+V");
    assert_eq!(default_double_tap_key(), "Ctrl");
    assert_eq!(default_double_tap_interval(), 300);
    assert!(default_true());
    let h = HotkeyConfig::default();
    assert_eq!(h.mode, "combo");
}
