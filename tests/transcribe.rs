use voice_memo::error::VMTError;
use voice_memo::transcribe::{transcription_outcome, WhisperService};

#[test]
fn service_keeps_its_key() {
    let s = WhisperService::new("demo key");
    assert_eq!(s.api_key(), "demo key");
}

#[test]
fn outcome_prefers_error() {
    assert_eq!(
        transcription_outcome(Some("bad".to_string()), Some("hi".to_string())),
        Err(VMTError::Transcript { message: "bad".to_string() })
    );
}

#[test]
fn outcome_text() {
    assert_eq!(transcription_outcome(None, Some("hello there".to_string())), Ok("hello there".to_string()));
}

#[test]
fn outcome_missing_text_is_format_error() {
    assert_eq!(
        transcription_outcome(None, None),
        Err(VMTError::Transcript { message: "data format error".to_string() })
    );
}

