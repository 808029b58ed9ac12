use doubao_voice_input::session::{report_of, RecognitionResponse, TranscriptRenderer};
use doubao_voice_input::text_inserter::{apply_update, update_text, ActionError, TextAction, TextInserter};
use doubao_voice_input::text_diff::diff_text;
use std::sync::{Arc, Mutex};

#[derive(Debug, PartialEq)]
enum Op {
    Insert(String),
    Delete(usize),
}

struct Recorder {
    ops: Arc<Mutex<Vec<Op>>>,
    fail: bool,
}

impl TextAction for Recorder {
    fn insert(&mut self, text: &str) -> Result<(), ActionError> {
        self.ops.lock().unwrap().push(Op::Insert(text.to_string()));
        if self.fail {
            Err(ActionError { message: "no focused field".to_string() })
        } else {
            Ok(())
        }
    }

    fn delete_chars(&mut self, count: usize) -> Result<(), ActionError> {
        self.ops.lock().unwrap().push(Op::Delete(count));
        if self.fail {
            Err(ActionError { message: "no focused field".to_string() })
        } else {
            Ok(())
        }
    }
}

fn recorder(fail: bool) -> (TextInserter<Recorder>, Arc<Mutex<Vec<Op>>>) {
    let ops = Arc::new(Mutex::new(Vec::new()));
    let inserter = TextInserter::new(Recorder { ops: ops.clone(), fail });
    (inserter, ops)
}

#[test]
fn update_text_deletes_then_types() {
    let (mut ins, ops) = recorder(false);
    let (u, r) = update_text(&mut ins, "你好吗", "你们");
    assert!(r.is_ok());
    assert_eq!(u.delete_count, 2);
    assert_eq!(u.append, "们");
    assert_eq!(*ops.lock().unwrap(), vec![Op::Delete(2), Op::Insert("们".to_string())]);
}

#[test]
fn update_text_same_text_calls_nothing() {
    let (mut ins, ops) = recorder(true);
    let (_, r) = update_text(&mut ins, "同样", "同样");
    assert!(r.is_ok());
    assert!(ops.lock().unwrap().is_empty());
}

#[test]
fn apply_update_reports_platform_failure() {
    let (mut ins, ops) = recorder(true);
    let r = apply_update(&mut ins, &diff_text("ab", "ac"));
    assert!(r.is_err());
    assert_eq!(*ops.lock().unwrap(), vec![Op::Delete(1)]);
}

#[test]
fn inserter_forwards_to_platform() {
    let (mut ins, ops) = recorder(false);
    assert!(ins.insert("x").is_ok());
    assert!(ins.delete_chars(3).is_ok());
    assert_eq!(*ops.lock().unwrap(), vec![Op::Insert("x".to_string()), Op::Delete(3)]);
}

#[test]
fn renderer_interim_then_final_then_next_utterance() {
    let (mut ins, ops) = recorder(false);
    let mut r = TranscriptRenderer::new();
    let o = r.handle_response(&mut ins, &RecognitionResponse::InterimResult("你".to_string()));
    assert!(!o.finished);
    let f = o.fragment.unwrap();
    assert_eq!((f.text.as_str(), f.is_final), ("你", false));
    r.handle_response(&mut ins, &RecognitionResponse::InterimResult("你好".to_string()));
    r.handle_response(&mut ins, &RecognitionResponse::InterimResult("你号".to_string()));
    let o = r.handle_response(&mut ins, &RecognitionResponse::FinalResult("你好吗".to_string()));
    assert!(o.fragment.unwrap().is_final);
    r.handle_response(&mut ins, &RecognitionResponse::InterimResult("再".to_string()));
    assert_eq!(
        *ops.lock().unwrap(),
        vec![
            Op::Insert("你".to_string()),
            Op::Insert("好".to_string()),
            Op::Delete(1),
            Op::Insert("号".to_string()),
            Op::Delete(1),
            Op::Insert("好吗".to_string()),
            Op::Insert("再".to_string()),
        ]
    );
}

#[test]
fn renderer_empty_results_change_nothing() {
    let (mut ins, ops) = recorder(false);
    let mut r = TranscriptRenderer::new();
    r.handle_response(&mut ins, &RecognitionResponse::InterimResult("ab".to_string()));
    let o = r.handle_response(&mut ins, &RecognitionResponse::InterimResult(String::new()));
    assert!(o.update.is_none());
    assert_eq!(o.fragment.unwrap().text, "");
    r.handle_response(&mut ins, &RecognitionResponse::InterimResult("abc".to_string()));
    assert_eq!(
        *ops.lock().unwrap(),
        vec![Op::Insert("ab".to_string()), Op::Insert("c".to_string())]
    );
}

#[test]
fn renderer_empty_final_erases_interim() {
    let (mut ins, ops) = recorder(false);
    let mut r = TranscriptRenderer::new();
    r.handle_response(&mut ins, &RecognitionResponse::InterimResult("ab".to_string()));
    let o = r.handle_response(&mut ins, &RecognitionResponse::FinalResult(String::new()));
    assert_eq!(o.update.unwrap().delete_count, 2);
    r.handle_response(&mut ins, &RecognitionResponse::InterimResult("c".to_string()));
    assert_eq!(
        *ops.lock().unwrap(),
        vec![Op::Insert("ab".to_string()), Op::Delete(2), Op::Insert("c".to_string())]
    );
}

#[test]
fn renderer_stops_on_end_and_error() {
    let (mut ins, _) = recorder(false);
    let mut r = TranscriptRenderer::new();
    let o = r.handle_response(&mut ins, &RecognitionResponse::SessionFinished);
    assert!(o.finished && o.fragment.is_none());
    let o = r.handle_response(&mut ins, &RecognitionResponse::Error("closed".to_string()));
    assert!(o.finished && o.update.is_none());
    let o = r.handle_response(&mut ins, &RecognitionResponse::Other);
    assert!(!o.finished && o.fragment.is_none());
}

#[test]
fn renderer_keeps_going_after_platform_failure() {
    let (mut ins, ops) = recorder(true);
    let mut r = TranscriptRenderer::new();
    let o = r.handle_response(&mut ins, &RecognitionResponse::InterimResult("ab".to_string()));
    assert!(o.failure.is_some());
    assert!(!o.finished);
    r.handle_response(&mut ins, &RecognitionResponse::InterimResult("abc".to_string()));
    assert_eq!(ops.lock().unwrap().last(), Some(&Op::Insert("c".to_string())));
}

#[test]
fn report_of_each_response() {
    let f = report_of(&RecognitionResponse::InterimResult("你".to_string())).unwrap();
    assert_eq!((f.text.as_str(), f.is_final), ("你", false));
    let f = report_of(&RecognitionResponse::FinalResult("你好".to_string())).unwrap();
    assert_eq!((f.text.as_str(), f.is_final), ("你好", true));
    assert!(report_of(&RecognitionResponse::SessionFinished).is_none());
    assert!(report_of(&RecognitionResponse::Error("x".to_string())).is_none());
    assert!(report_of(&RecognitionResponse::Other).is_none());
}
