//! Recording state machine of the dictation session.
//!
//! `Idle --start--> Recording --stop--> Idle`. Starting while recording and
//! stopping while idle change nothing. Each start opens a new session,
//! numbered, so that the end of a stale session cannot close a newer one.

use vstd::prelude::*;
use std::sync::Arc;

verus! {

/// Whether a session is active.
#[derive(Clone, Copy, PartialEq, Eq, Debug)]
pub enum RecordingState {
    Idle,
    Recording,
}

/// What the caller has to do after a transition.
#[derive(Clone, Copy, PartialEq, Eq, Debug)]
pub enum ControlAction {
    /// Nothing changed.
    Nothing,
    /// Start capture and open recognition session `session`.
    OpenSession { session: u64 },
    /// Stop capture, let the consumer wind down for a grace period.
    CloseSession,
}

/// Abstract state of the controller.
pub struct ControllerView {
    pub recording: bool,
    pub session: u64,
}

/// Number of the session after `s`.
pub open spec fn next_session(s: u64) -> u64 {
    if s == u64::MAX {
        0
    } else {
        (s + 1) as u64
    }
}

/// `start`: opens a new session when idle, else changes nothing.
pub open spec fn start_model(v: ControllerView) -> (ControllerView, ControlAction) {
    if v.recording {
        (v, ControlAction::Nothing)
    } else {
        let s = next_session(v.session);
        (ControllerView { recording: true, session: s }, ControlAction::OpenSession { session: s })
    }
}

/// `stop`: closes the session when recording, else changes nothing.
pub open spec fn stop_model(v: ControllerView) -> (ControllerView, ControlAction) {
    if v.recording {
        (ControllerView { recording: false, session: v.session }, ControlAction::CloseSession)
    } else {
        (v, ControlAction::Nothing)
    }
}

/// `toggle`: whichever of `stop` and `start` applies.
pub open spec fn toggle_model(v: ControllerView) -> (ControllerView, ControlAction) {
    if v.recording {
        stop_model(v)
    } else {
        start_model(v)
    }
}

/// Session end reported by the consumer of session `s`: back to idle if
/// that is the session in progress.
pub open spec fn end_model(v: ControllerView, s: u64) -> ControllerView {
    if v.recording && v.session == s {
        ControllerView { recording: false, session: v.session }
    } else {
        v
    }
}

/// Receiver of transcript fragments, for presentation layers. It may be
/// called from any thread.
pub trait ResultSink: Send + Sync {
    /// Receives one fragment: its text and whether it is final.
    fn deliver(&self, text: String, is_final: bool);
}

/// Voice input controller: recording state, the number of the current
/// session, and the status callback.
pub struct VoiceController {
    recording: bool,
    session: u64,
    on_result: Option<Arc<Box<dyn ResultSink>>>,
}

impl View for VoiceController {
    type V = ControllerView;

    closed spec fn view(&self) -> ControllerView {
        ControllerView { recording: self.recording, session: self.session }
    }
}

impl VoiceController {
    /// Idle controller without a status callback.
    pub fn new() -> (r: Self)
        ensures
            !r@.recording,
            r@.session == 0,
            r.sink() is None,
    {
        VoiceController { recording: false, session: 0, on_result: None }
    }

    /// The status callback, if one is set.
    pub closed spec fn sink(&self) -> Option<Arc<Box<dyn ResultSink>>> {
        self.on_result
    }

    /// Sets the callback that receives each fragment, replacing any earlier one.
    pub fn set_on_result(&mut self, callback: Arc<Box<dyn ResultSink>>)
        ensures
            final(self)@ == old(self)@,
            final(self).sink() == Some(callback),
    {
        self.on_result = Some(callback);
    }

    /// The status callback, for the consumer of the response stream.
    pub fn result_callback(&self) -> (r: Option<Arc<Box<dyn ResultSink>>>)
        ensures
            r == self.sink(),
    {
        match &self.on_result {
            Some(cb) => Some(Arc::clone(cb)),
            None => None,
        }
    }

    /// Whether a session is active.
    pub fn is_recording(&self) -> (r: bool)
        ensures
            r == self@.recording,
    {
        self.recording
    }

    /// The state as a value.
    pub fn state(&self) -> (r: RecordingState)
        ensures
            r == (if self@.recording { RecordingState::Recording } else { RecordingState::Idle }),
    {
        if self.recording {
            RecordingState::Recording
        } else {
            RecordingState::Idle
        }
    }

    /// Whether the consumer of session `session` should keep going.
    pub fn is_current(&self, session: u64) -> (r: bool)
        ensures
            r == (self@.recording && self@.session == session),
    {
        self.recording && self.session == session
    }

    /// Starts a session unless one is active.
    pub fn start(&mut self) -> (r: ControlAction)
        ensures
            (final(self)@, r) == start_model(old(self)@),
            final(self).sink() == old(self).sink(),
    {
        if self.recording {
            return ControlAction::Nothing;
        }
        self.session = if self.session == u64::MAX {
            0
        } else {
            self.session + 1
        };
        self.recording = true;
        ControlAction::OpenSession { session: self.session }
    }

    /// Stops the active session, if any.
    pub fn stop(&mut self) -> (r: ControlAction)
        ensures
            (final(self)@, r) == stop_model(old(self)@),
            final(self).sink() == old(self).sink(),
    {
        if !self.recording {
            return ControlAction::Nothing;
        }
        self.recording = false;
        ControlAction::CloseSession
    }

    /// Stops when recording, starts when idle.
    pub fn toggle(&mut self) -> (r: ControlAction)
        ensures
            (final(self)@, r) == toggle_model(old(self)@),
            final(self).sink() == old(self).sink(),
    {
        if self.recording {
            self.stop()
        } else {
            self.start()
        }
    }

    /// The consumer of session `session` has exited, or the session could not
    /// be opened. Returns whether the controller went back to idle, in which
    /// case capture has to be stopped.
    pub fn end_session(&mut self, session: u64) -> (r: bool)
        ensures
            final(self)@ == end_model(old(self)@, session),
            r == (old(self)@.recording && old(self)@.session == session),
            final(self).sink() == old(self).sink(),
    {
        if self.recording && self.session == session {
            self.recording = false;
            true
        } else {
            false
        }
    }
}

/// Starting twice in a row, or stopping twice in a row: the second call
/// changes nothing and asks for nothing.
pub proof fn law_start_stop_idempotent(v: ControllerView)
    ensures
        start_model(start_model(v).0) == (start_model(v).0, ControlAction::Nothing),
        stop_model(stop_model(v).0) == (stop_model(v).0, ControlAction::Nothing),
{
}

/// Every `toggle` flips the recording flag exactly once.
pub proof fn law_toggle_flips(v: ControllerView)
    ensures
        toggle_model(v).0.recording == !v.recording,
        toggle_model(toggle_model(v).0).0.recording == v.recording,
{
}

} // verus!
