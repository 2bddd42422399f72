use dictara::commands::RecordingCommand;
use dictara::controller::{
    conclude_transcription, retry_source, start_error_payload, ControllerAction, ControllerState,
    LastRecording,
};
use dictara::recorder::RecorderError;
use dictara::transcription::TranscriptionError;

use dictara::commands::RecordingCommand as C;
use dictara::controller::ControllerAction as A;
use dictara::controller::ControllerState as S;

const STATES: [ControllerState; 3] = [
    ControllerState::Ready,
    ControllerState::Recording,
    ControllerState::RecordingLocked,
];
const COMMANDS: [RecordingCommand; 5] = [
    RecordingCommand::FnDown,
    RecordingCommand::FnUp,
    RecordingCommand::Lock,
    RecordingCommand::Cancel,
    RecordingCommand::RetryTranscription,
];

#[test]
fn transition_table() {
    assert_eq!(S::Ready.transition(C::FnDown), (S::Recording, A::StartSession));
    assert_eq!(S::Recording.transition(C::FnDown), (S::Recording, A::Ignore));
    assert_eq!(S::Recording.transition(C::FnUp), (S::Ready, A::StopAndTranscribe));
    assert_eq!(S::Recording.transition(C::Lock), (S::RecordingLocked, A::LockSession));
    assert_eq!(S::RecordingLocked.transition(C::FnDown), (S::Ready, A::StopAndTranscribe));
    assert_eq!(S::RecordingLocked.transition(C::FnUp), (S::RecordingLocked, A::Ignore));
    assert_eq!(S::Recording.transition(C::Cancel), (S::Ready, A::CancelSession));
    assert_eq!(S::RecordingLocked.transition(C::Cancel), (S::Ready, A::CancelSession));
    assert_eq!(S::Ready.transition(C::Cancel), (S::Ready, A::Ignore));
    assert_eq!(S::Ready.transition(C::FnUp), (S::Ready, A::Ignore));
    assert_eq!(S::Ready.transition(C::Lock), (S::Ready, A::Ignore));
    assert_eq!(S::RecordingLocked.transition(C::Lock), (S::RecordingLocked, A::Ignore));
    for s in STATES {
        assert_eq!(s.transition(C::RetryTranscription), (s, A::RetryTranscription));
    }
}

#[test]
fn only_listed_commands_change_state() {
    for s in STATES {
        for c in COMMANDS {
            let moves = s.transition(c).0 != s;
            let expected = match s {
                ControllerState::Ready => c == RecordingCommand::FnDown,
                ControllerState::Recording => matches!(
                    c,
                    RecordingCommand::FnUp | RecordingCommand::Lock | RecordingCommand::Cancel
                ),
                ControllerState::RecordingLocked => {
                    matches!(c, RecordingCommand::FnDown | RecordingCommand::Cancel)
                }
            };
            assert_eq!(moves, expected, "{:?} {:?}", s, c);
        }
    }
}

#[test]
fn state_codes_and_start_failure() {
    assert_eq!(ControllerState::Ready.state_code(), 0);
    assert_eq!(ControllerState::Recording.state_code(), 1);
    assert_eq!(ControllerState::RecordingLocked.state_code(), 2);
    assert_eq!(ControllerState::Recording.after_start_failure(), ControllerState::Ready);
}

#[test]
fn last_recording_starts_empty() {
    let last = LastRecording::new();
    assert!(!last.can_paste());
    assert!(last.text.is_none() && last.timestamp.is_none() && last.audio_file_path.is_none());
}

#[test]
fn successful_transcription_pastes_and_cleans_up() {
    let mut last = LastRecording::new();
    last.record_failure("/tmp/old.wav".to_string());
    let out = conclude_transcription(&mut last, "/tmp/a.wav", Ok("hello".to_string()), 1234);
    assert!(out.delete_audio);
    assert_eq!(out.paste_text.as_deref(), Some("hello"));
    assert!(out.paste_enabled);
    assert!(out.close_popup);
    assert_eq!(out.stopped.unwrap().text, "hello");
    assert!(out.error.is_none());
    assert_eq!(last.text.as_deref(), Some("hello"));
    assert_eq!(last.timestamp, Some(1234));
    assert!(last.audio_file_path.is_none());
    assert!(last.can_paste());
}

#[test]
fn empty_transcription_is_not_pasted() {
    let mut last = LastRecording::new();
    let out = conclude_transcription(&mut last, "/tmp/a.wav", Ok(String::new()), 5);
    assert!(out.paste_text.is_none());
    assert!(out.delete_audio);
    assert_eq!(last.text.as_deref(), Some(""));
}

#[test]
fn failed_transcription_keeps_file_for_retry() {
    let mut last = LastRecording::new();
    last.record_success("old".to_string(), 9);
    let err = TranscriptionError::ApiError("API returned status 429: slow down".to_string());
    let out = conclude_transcription(&mut last, "/tmp/b.wav", Err(err), 10);
    assert!(!out.delete_audio);
    assert!(out.paste_text.is_none());
    assert!(!out.paste_enabled);
    assert!(!out.close_popup);
    assert!(out.stopped.is_none());
    let p = out.error.unwrap();
    assert_eq!(p.error_type, "transcription");
    assert_eq!(p.error_message, "API error: API returned status 429: slow down");
    assert_eq!(p.user_message, "Rate limit reached. Please wait and retry.");
    assert!(p.can_retry);
    assert_eq!(p.audio_file_path.as_deref(), Some("/tmp/b.wav"));
    assert!(last.text.is_none() && last.timestamp.is_none());
    assert_eq!(last.audio_file_path.as_deref(), Some("/tmp/b.wav"));
    assert!(!last.can_paste());
}

#[test]
fn retry_needs_a_retained_file() {
    let mut last = LastRecording::new();
    match retry_source(&last) {
        Err(TranscriptionError::ApiError(m)) => assert_eq!(m, "No audio file available for retry"),
        other => panic!("unexpected {:?}", other),
    }
    last.record_failure("/tmp/c.wav".to_string());
    assert_eq!(retry_source(&last).unwrap(), "/tmp/c.wav");
}

#[test]
fn start_errors_are_not_retryable() {
    let p = start_error_payload(RecorderError::NoInputDevice);
    assert_eq!(p.error_type, "recording");
    assert_eq!(p.error_message, "NoInputDevice");
    assert_eq!(p.user_message, "No microphone found. Please connect one and try again.");
    assert!(!p.can_retry);
    assert!(p.audio_file_path.is_none());
}
