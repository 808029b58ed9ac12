//! Consumer of the recognition response stream: reports each fragment and
//! renders the live transcript into the focused field.

use vstd::prelude::*;
use crate::text_diff::{chars_to_delete, text_to_append, TextUpdate};
use crate::text_inserter::{performed, update_edits, update_text, ActionError, TextAction, TextInserter};

verus! {

/// One response of the recognition service.
pub enum RecognitionResponse {
    /// Provisional text of the current utterance; supersedes the previous one.
    InterimResult(String),
    /// Committed text that closes the current utterance.
    FinalResult(String),
    /// The service ended the session.
    SessionFinished,
    /// The service reported an error; the session ends.
    Error(String),
    /// Any other response; ignored.
    Other,
}

/// A transcript fragment as reported to the status callback.
pub struct TranscriptFragment {
    pub text: String,
    pub is_final: bool,
}

/// What handling one response did.
pub struct ResponseOutcome {
    /// Fragment to hand to the status callback.
    pub fragment: Option<TranscriptFragment>,
    /// Update applied to the focused field.
    pub update: Option<TextUpdate>,
    /// Failure the platform reported while applying the update.
    pub failure: Option<ActionError>,
    /// The session is over: the consumer stops.
    pub finished: bool,
}

/// Whether `u` is the planned update from rendered `old` to `new`.
pub open spec fn is_update(u: TextUpdate, old: Seq<char>, new: Seq<char>) -> bool {
    u.delete_count == chars_to_delete(old, new) && u.append@ == text_to_append(old, new)
}

/// Whether `f` reports `text` with the finality `is_final`.
pub open spec fn reports(f: Option<TranscriptFragment>, text: Seq<char>, is_final: bool) -> bool {
    f matches Some(x) && x.text@ == text && x.is_final == is_final
}

/// The fragment that a response reports to the status callback: the text of
/// an interim or final result, with its finality; nothing for other
/// responses. It is reported before the response updates the field.
pub fn report_of(response: &RecognitionResponse) -> (r: Option<TranscriptFragment>)
    ensures
        match response {
            RecognitionResponse::InterimResult(t) => reports(r, t@, false),
            RecognitionResponse::FinalResult(t) => reports(r, t@, true),
            _ => r is None,
        },
{
    match response {
        RecognitionResponse::InterimResult(t) => Some(TranscriptFragment { text: t.clone(), is_final: false }),
        RecognitionResponse::FinalResult(t) => Some(TranscriptFragment { text: t.clone(), is_final: true }),
        _ => None,
    }
}

/// Renders the transcript of one session: remembers the text shown for the
/// current utterance so that the next result only changes its tail.
pub struct TranscriptRenderer {
    last_text: String,
}

impl TranscriptRenderer {
    /// Text shown for the current, not yet final, utterance.
    pub closed spec fn shown(&self) -> Seq<char> {
        self.last_text@
    }

    /// A renderer with nothing shown.
    pub fn new() -> (r: Self)
        ensures
            r.shown() == Seq::<char>::empty(),
    {
        TranscriptRenderer { last_text: String::new() }
    }

    /// Handles one response, in stream order. An interim result with text
    /// becomes the shown text; a final result is applied and then forgotten,
    /// so the next utterance keeps it; the end of the session and errors
    /// finish; anything else is ignored. Updates reach the platform as the
    /// requests of the diff from the shown text, in order.
    pub fn handle_response<A: TextAction>(
        &mut self,
        inserter: &mut TextInserter<A>,
        response: &RecognitionResponse,
    ) -> (r: ResponseOutcome)
        ensures
            match response {
                RecognitionResponse::InterimResult(t) => {
                    &&& reports(r.fragment, t@, false)
                    &&& !r.finished
                    &&& if t@.len() > 0 {
                        &&& r.update matches Some(u) && is_update(u, old(self).shown(), t@)
                        &&& performed(
                            old(inserter).received(),
                            final(inserter).received(),
                            update_edits(chars_to_delete(old(self).shown(), t@), text_to_append(old(self).shown(), t@)),
                            r.failure is None,
                        )
                        &&& final(self).shown() == t@
                    } else {
                        &&& r.update is None && r.failure is None
                        &&& final(self).shown() == old(self).shown()
                        &&& final(inserter).received() == old(inserter).received()
                    }
                },
                RecognitionResponse::FinalResult(t) => {
                    &&& reports(r.fragment, t@, true)
                    &&& !r.finished
                    &&& r.update matches Some(u) && is_update(u, old(self).shown(), t@)
                    &&& performed(
                        old(inserter).received(),
                        final(inserter).received(),
                        update_edits(chars_to_delete(old(self).shown(), t@), text_to_append(old(self).shown(), t@)),
                        r.failure is None,
                    )
                    &&& final(self).shown() == Seq::<char>::empty()
                },
                RecognitionResponse::SessionFinished | RecognitionResponse::Error(_) => {
                    &&& r.finished
                    &&& r.fragment is None && r.update is None && r.failure is None
                    &&& final(self).shown() == old(self).shown()
                    &&& final(inserter).received() == old(inserter).received()
                },
                RecognitionResponse::Other => {
                    &&& !r.finished
                    &&& r.fragment is None && r.update is None && r.failure is None
                    &&& final(self).shown() == old(self).shown()
                    &&& final(inserter).received() == old(inserter).received()
                },
            },
    {
        match response {
            RecognitionResponse::InterimResult(t) => {
                let fragment = Some(TranscriptFragment { text: t.clone(), is_final: false });
                if t.unicode_len() > 0 {
                    let (update, outcome) = update_text(inserter, self.last_text.as_str(), t.as_str());
                    self.last_text = t.clone();
                    let failure = match outcome {
                        Ok(()) => None,
                        Err(e) => Some(e),
                    };
                    ResponseOutcome { fragment, update: Some(update), failure, finished: false }
                } else {
                    ResponseOutcome { fragment, update: None, failure: None, finished: false }
                }
            },
            RecognitionResponse::FinalResult(t) => {
                let fragment = Some(TranscriptFragment { text: t.clone(), is_final: true });
                let (update, outcome) = update_text(inserter, self.last_text.as_str(), t.as_str());
                self.last_text = String::new();
                let failure = match outcome {
                    Ok(()) => None,
                    Err(e) => Some(e),
                };
                ResponseOutcome { fragment, update: Some(update), failure, finished: false }
            },
            RecognitionResponse::SessionFinished | RecognitionResponse::Error(_) => {
                ResponseOutcome { fragment: None, update: None, failure: None, finished: true }
            },
            RecognitionResponse::Other => {
                ResponseOutcome { fragment: None, update: None, failure: None, finished: false }
            },
        }
    }
}

} // verus!
