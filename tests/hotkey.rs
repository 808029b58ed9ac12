use doubao_voice_input::config::HotkeyConfig;
use doubao_voice_input::hotkey::{
    double_tap_registration, hotkey_registration, is_combo_mode, is_hook_modifier_name,
    mac_modifier_mask, mac_modifier_mask_from_lower, uses_keyboard_hook, win_modifier_keys,
    DoubleTapDetector, TriggerDetector,
};
use doubao_voice_input::hotkey_manager::{HotkeyManager, HotkeyProvider, ProviderFactory, TriggerHandler};
use doubao_voice_input::keys::{ComboKey, HotkeyError, KeyCode, Modifiers};
use doubao_voice_input::listeners::{MacosHotkeyProvider, ModifierHookState};
use std::sync::atomic::{AtomicUsize, Ordering};
use std::sync::{Arc, Mutex};

const MS: u64 = 1_000_000;

fn config(mode: &str, combo: &str, key: &str, interval: u64) -> HotkeyConfig {
    HotkeyConfig {
        mode: mode.to_string(),
        combo_key: combo.to_string(),
        double_tap_key: key.to_string(),
        double_tap_interval: interval,
    }
}

#[test]
fn double_tap_within_interval_fires_once() {
    let mut d = DoubleTapDetector::new(300);
    assert!(!d.tap(1000 * MS));
    assert!(d.tap(1300 * MS));
    assert_eq!(d.pending, None);
}

#[test]
fn double_tap_too_slow_rearms() {
    let mut d = DoubleTapDetector::new(300);
    assert!(!d.tap(1000 * MS));
    assert!(!d.tap(1300 * MS + 1));
    assert_eq!(d.pending, Some(1300 * MS + 1));
    assert!(d.tap(1500 * MS));
}

#[test]
fn triple_tap_fires_once() {
    let mut d = DoubleTapDetector::new(300);
    let fired: Vec<bool> = [0, 100 * MS, 200 * MS].iter().map(|t| d.tap(*t)).collect();
    assert_eq!(fired, vec![false, true, false]);
    assert_eq!(d.pending, Some(200 * MS));
}

#[test]
fn trigger_detector_modes() {
    let mut chord = TriggerDetector::Chord;
    assert!(chord.on_event(1));
    assert!(chord.on_event(2));
    let mut tap = TriggerDetector::DoubleTap(DoubleTapDetector::new(50));
    assert!(!tap.on_event(0));
    assert!(tap.on_event(50 * MS));
}

#[test]
fn mac_masks() {
    assert_eq!(mac_modifier_mask("Ctrl"), 262144);
    assert_eq!(mac_modifier_mask("control"), 262144);
    assert_eq!(mac_modifier_mask("SHIFT"), 131072);
    assert_eq!(mac_modifier_mask("Option"), 524288);
    assert_eq!(mac_modifier_mask("cmd"), 1048576);
    assert_eq!(mac_modifier_mask("x"), 0);
}

#[test]
fn windows_modifier_keys() {
    assert_eq!(win_modifier_keys("ctrl"), vec![0x11, 0xa2, 0xa3]);
    assert_eq!(win_modifier_keys("shift"), vec![0xa0, 0xa1]);
    assert_eq!(win_modifier_keys("alt"), vec![0xa4, 0xa5]);
    assert!(win_modifier_keys("Ctrl").is_empty());
}

#[test]
fn hook_and_registration_choice() {
    assert!(is_combo_mode(&config("combo", "Ctrl+Shift+V", "Ctrl", 300)));
    assert!(uses_keyboard_hook(&config("double_tap", "", "Ctrl", 300)));
    assert!(!uses_keyboard_hook(&config("double_tap", "", "F8", 300)));
    assert!(!uses_keyboard_hook(&config("combo", "", "Ctrl", 300)));
    let mods = Modifiers { ctrl: true, shift: true, alt: false, meta: false };
    assert_eq!(
        hotkey_registration(&config("combo", "Ctrl+Shift+V", "Ctrl", 300)),
        Ok(Some(ComboKey { modifiers: mods, key: KeyCode::Letter('V') }))
    );
    assert_eq!(hotkey_registration(&config("double_tap", "", "Alt", 300)), Ok(None));
    let none = Modifiers { ctrl: false, shift: false, alt: false, meta: false };
    assert_eq!(
        hotkey_registration(&config("double_tap", "", "f8", 300)),
        Ok(Some(ComboKey { modifiers: none, key: KeyCode::Function(8) }))
    );
    assert_eq!(
        hotkey_registration(&config("double_tap", "", "Hyper", 300)),
        Err(HotkeyError::UnknownKey("Hyper".to_string()))
    );
    assert_eq!(
        hotkey_registration(&config("combo", "Ctrl", "Ctrl", 300)),
        Err(HotkeyError::NoKey("Ctrl".to_string()))
    );
}

#[test]
fn macos_listener_counts_releases() {
    let mut p = MacosHotkeyProvider::new(&config("double_tap", "", "Ctrl", 300)).unwrap();
    assert_eq!(p.target_mask(), 0x40000);
    assert!(!p.is_chord_mode());
    // press, release, press, release within the interval: fires on the second release
    assert!(!p.on_flags_changed(0x40000, 0));
    assert!(!p.on_flags_changed(0, 10 * MS));
    assert!(!p.on_flags_changed(0x40000, 20 * MS));
    assert!(p.on_flags_changed(0, 30 * MS));
    // another modifier changing while ctrl is held is no tap
    assert!(!p.on_flags_changed(0x40000, 40 * MS));
    assert!(!p.on_flags_changed(0x60000, 50 * MS));
    assert!(!p.on_flags_changed(0x40000, 60 * MS));
    assert!(!p.on_flags_changed(0, 70 * MS));
    p.stop();
    assert!(!p.on_flags_changed(0x40000, 80 * MS));
    assert!(!p.on_flags_changed(0, 90 * MS));
}

#[test]
fn macos_listener_slow_releases_rearm() {
    let mut p = MacosHotkeyProvider::new(&config("double_tap", "", "shift", 300)).unwrap();
    assert!(!p.on_flags_changed(0x20000, 0));
    assert!(!p.on_flags_changed(0, 0));
    assert!(!p.on_flags_changed(0x20000, 400 * MS));
    assert!(!p.on_flags_changed(0, 400 * MS));
    assert!(!p.on_flags_changed(0x20000, 500 * MS));
    assert!(p.on_flags_changed(0, 600 * MS));
    let mut q = MacosHotkeyProvider::new(&config("double_tap", "", "F1", 300)).unwrap();
    assert!(!q.on_flags_changed(u64::MAX, 0));
    assert!(!q.on_flags_changed(0, 1));
}

#[test]
fn macos_listener_chord_mode() {
    let p = MacosHotkeyProvider::new(&config("combo", "Ctrl+Shift+V", "Ctrl", 300)).unwrap();
    assert!(p.is_chord_mode());
    assert!(p.on_key_down(0x60000, KeyCode::Letter('V')));
    assert!(p.on_key_down(0x60100, KeyCode::Letter('V')));
    assert!(!p.on_key_down(0x40000, KeyCode::Letter('V')));
    assert!(!p.on_key_down(0x160000, KeyCode::Letter('V')));
    assert!(!p.on_key_down(0x60000, KeyCode::Letter('C')));
    let mut q = MacosHotkeyProvider::new(&config("combo", "Ctrl+Shift+V", "Ctrl", 300)).unwrap();
    assert!(!q.on_flags_changed(0x40000, 0));
    assert!(!q.on_flags_changed(0, 1));
    q.stop();
    assert!(!q.on_key_down(0x60000, KeyCode::Letter('V')));
    assert!(MacosHotkeyProvider::new(&config("combo", "Ctrl+Nope", "Ctrl", 300)).is_err());
}

#[test]
fn windows_hook_core() {
    assert!(ModifierHookState::new("win", 300).is_none());
    let mut h = ModifierHookState::new("shift", 300).unwrap();
    assert!(!h.on_key_event(true, 0xa0, false, 0));
    assert!(!h.on_key_event(true, 0xa0, true, 0));
    assert!(!h.on_key_event(true, 0x11, true, 10 * MS));
    assert!(!h.on_key_event(false, 0xa1, true, 20 * MS));
    assert!(h.on_key_event(true, 0xa1, true, 30 * MS));
}

struct Counter(Arc<AtomicUsize>);

impl TriggerHandler for Counter {
    fn fire(&self) {
        self.0.fetch_add(1, Ordering::SeqCst);
    }
}

struct FakeProvider {
    log: Arc<Mutex<Vec<String>>>,
    name: String,
    bound: Mutex<Option<Arc<Box<dyn TriggerHandler>>>>,
}

impl HotkeyProvider for FakeProvider {
    fn on_trigger(&mut self, callback: Arc<Box<dyn TriggerHandler>>) {
        self.log.lock().unwrap().push(format!("bind {}", self.name));
        callback.fire();
        *self.bound.lock().unwrap() = Some(callback);
    }

    fn stop(&mut self) {
        self.log.lock().unwrap().push(format!("stop {}", self.name));
    }
}

struct FakeFactory {
    log: Arc<Mutex<Vec<String>>>,
}

impl ProviderFactory for FakeFactory {
    type Provider = FakeProvider;

    fn create_hotkey_provider(&self, config: &HotkeyConfig) -> Result<FakeProvider, HotkeyError> {
        if config.combo_key == "bad" {
            return Err(HotkeyError::Provider("cannot register".to_string()));
        }
        self.log.lock().unwrap().push(format!("create {}", config.combo_key));
        Ok(FakeProvider { log: self.log.clone(), name: config.combo_key.clone(), bound: Mutex::new(None) })
    }
}

#[test]
fn manager_rebinds_callback_on_update() {
    let log = Arc::new(Mutex::new(Vec::new()));
    let count = Arc::new(AtomicUsize::new(0));
    let mut m = HotkeyManager::new(FakeFactory { log: log.clone() }, &config("combo", "A", "Ctrl", 300)).unwrap();
    let handler: Box<dyn TriggerHandler> = Box::new(Counter(count.clone()));
    m.on_trigger(Arc::new(handler));
    assert!(m.update_config(&config("combo", "B", "Ctrl", 300)).is_ok());
    assert_eq!(count.load(Ordering::SeqCst), 2);
    assert_eq!(*log.lock().unwrap(), vec!["create A", "bind A", "stop A", "create B", "bind B"]);
}

#[test]
fn manager_update_without_callback_binds_nothing() {
    let log = Arc::new(Mutex::new(Vec::new()));
    let mut m = HotkeyManager::new(FakeFactory { log: log.clone() }, &config("combo", "A", "Ctrl", 300)).unwrap();
    assert!(m.update_config(&config("combo", "B", "Ctrl", 300)).is_ok());
    m.stop();
    m.stop();
    assert_eq!(*log.lock().unwrap(), vec!["create A", "stop A", "create B", "stop B", "stop B"]);
}

#[test]
fn manager_update_failure_leaves_old_stopped() {
    let log = Arc::new(Mutex::new(Vec::new()));
    let mut m = HotkeyManager::new(FakeFactory { log: log.clone() }, &config("combo", "A", "Ctrl", 300)).unwrap();
    let r = m.update_config(&config("combo", "bad", "Ctrl", 300));
    assert_eq!(r, Err(HotkeyError::Provider("cannot register".to_string())));
    assert_eq!(*log.lock().unwrap(), vec!["create A", "stop A"]);
    let bad = HotkeyManager::new(FakeFactory { log: log.clone() }, &config("combo", "bad", "Ctrl", 300));
    assert!(bad.is_err());
}

#[test]
fn lowered_name_decisions() {
    assert_eq!(mac_modifier_mask_from_lower("option"), 0x80000);
    assert_eq!(mac_modifier_mask_from_lower("Option"), 0);
    assert_eq!(mac_modifier_mask_from_lower("meta"), 0x100000);
    assert!(is_hook_modifier_name("alt"));
    assert!(!is_hook_modifier_name("Alt"));
    assert!(!is_hook_modifier_name("option"));
    assert_eq!(double_tap_registration("Shift", "shift", "SHIFT"), Ok(None));
    let none = Modifiers { ctrl: false, shift: false, alt: false, meta: false };
    assert_eq!(
        double_tap_registration("q", "q", "Q"),
        Ok(Some(ComboKey { modifiers: none, key: KeyCode::Letter('Q') }))
    );
    assert_eq!(
        double_tap_registration("q", "q", "q"),
        Err(HotkeyError::UnknownKey("q".to_string()))
    );
}

#[test]
fn manager_binds_latest_callback_only() {
    let log = Arc::new(Mutex::new(Vec::new()));
    let first = Arc::new(AtomicUsize::new(0));
    let second = Arc::new(AtomicUsize::new(0));
    let mut m = HotkeyManager::new(FakeFactory { log: log.clone() }, &config("combo", "A", "Ctrl", 300)).unwrap();
    let h1: Box<dyn TriggerHandler> = Box::new(Counter(first.clone()));
    let h2: Box<dyn TriggerHandler> = Box::new(Counter(second.clone()));
    m.on_trigger(Arc::new(h1));
    m.on_trigger(Arc::new(h2));
    assert!(m.update_config(&config("combo", "B", "Ctrl", 300)).is_ok());
    assert!(m.update_config(&config("combo", "C", "Ctrl", 300)).is_ok());
    assert_eq!(first.load(Ordering::SeqCst), 1);
    assert_eq!(second.load(Ordering::SeqCst), 3);
    assert_eq!(
        *log.lock().unwrap(),
        vec!["create A", "bind A", "bind A", "stop A", "create B", "bind B", "stop B", "create C", "bind C"]
    );
}

#[test]
fn manager_passes_factory_error_through() {
    let log = Arc::new(Mutex::new(Vec::new()));
    let e = HotkeyError::Provider("no access".to_string());
    let r = HotkeyManager::with_provider(FakeFactory { log: log.clone() }, Err::<FakeProvider, HotkeyError>(e));
    assert_eq!(r.err(), Some(HotkeyError::Provider("no access".to_string())));
    let mut m = HotkeyManager::new(FakeFactory { log: log.clone() }, &config("combo", "A", "Ctrl", 300)).unwrap();
    let r = m.install(Err(HotkeyError::NoKey("x".to_string())));
    assert_eq!(r, Err(HotkeyError::NoKey("x".to_string())));
    let p = FakeProvider { log: log.clone(), name: "Z".to_string(), bound: Mutex::new(None) };
    assert!(m.install(Ok(p)).is_ok());
    assert_eq!(*log.lock().unwrap(), vec!["create A"]);
}

#[test]
fn registration_reports_chord_error() {
    assert_eq!(
        hotkey_registration(&config("combo", "Ctrl+Nope", "Ctrl", 300)),
        Err(HotkeyError::UnknownKey("Nope".to_string()))
    );
}
