//! Push-to-talk dictation engine: recording state, audio frame pipeline,
//! incremental transcript rendering and hotkey detection.

use vstd::prelude::*;

pub mod audio;
pub mod capture;
pub mod chars;
pub mod config;
pub mod controller;
pub mod hotkey;
pub mod hotkey_manager;
pub mod keys;
pub mod keystrokes;
pub mod listeners;
pub mod session;
pub mod text_diff;
pub mod text_inserter;

pub use capture::AudioCapture;
pub use config::{AppConfig, AsrConfig, GeneralConfig, HotkeyConfig};
pub use controller::VoiceController;
pub use hotkey_manager::{HotkeyManager, HotkeyProvider};
pub use text_inserter::{TextAction, TextInserter};

verus! {

} // verus!
