use vstd::prelude::*;

use crate::commands::RecordingCommand;
use crate::recorder::RecorderError;
use crate::transcription::TranscriptionError;

verus! {

/// The three states of the recording controller.
#[derive(Debug, Clone, Copy, PartialEq, Eq, Structural)]
pub enum ControllerState {
    /// Idle: no capture session is alive.
    Ready,
    /// Capturing while the trigger key is held.
    Recording,
    /// Capturing; releasing the trigger key is ignored.
    RecordingLocked,
}

/// What the controller must do in response to one command.
#[derive(Debug, Clone, Copy, PartialEq, Eq, Structural)]
pub enum ControllerAction {
    /// Nothing: the command is ignored in this state.
    Ignore,
    /// Open a capture session.
    StartSession,
    /// Stop the session, finalize the file and transcribe it.
    StopAndTranscribe,
    /// Switch to locked mode and play the confirmation cue.
    LockSession,
    /// Stop the session and discard the file.
    CancelSession,
    /// Transcribe the last retained audio file again.
    RetryTranscription,
}

/// The next state and the action for `command` received in `state`.
pub open spec fn transition_spec(
    state: ControllerState,
    command: RecordingCommand,
) -> (ControllerState, ControllerAction) {
    match (state, command) {
        (ControllerState::Ready, RecordingCommand::FnDown) => (
            ControllerState::Recording,
            ControllerAction::StartSession,
        ),
        (ControllerState::Recording, RecordingCommand::FnUp) => (
            ControllerState::Ready,
            ControllerAction::StopAndTranscribe,
        ),
        (ControllerState::Recording, RecordingCommand::Lock) => (
            ControllerState::RecordingLocked,
            ControllerAction::LockSession,
        ),
        (ControllerState::RecordingLocked, RecordingCommand::FnDown) => (
            ControllerState::Ready,
            ControllerAction::StopAndTranscribe,
        ),
        (ControllerState::Recording, RecordingCommand::Cancel) => (
            ControllerState::Ready,
            ControllerAction::CancelSession,
        ),
        (ControllerState::RecordingLocked, RecordingCommand::Cancel) => (
            ControllerState::Ready,
            ControllerAction::CancelSession,
        ),
        (_, RecordingCommand::RetryTranscription) => (
            state,
            ControllerAction::RetryTranscription,
        ),
        _ => (state, ControllerAction::Ignore),
    }
}

/// The numeric mirror of a state that other subsystems read: 0, 1 or 2.
pub open spec fn state_code_spec(state: ControllerState) -> u8 {
    match state {
        ControllerState::Ready => 0,
        ControllerState::Recording => 1,
        ControllerState::RecordingLocked => 2,
    }
}

impl ControllerState {
    /// Decides the next state and the action for one command.
    pub fn transition(self, command: RecordingCommand) -> (r: (ControllerState, ControllerAction))
        ensures
            r == transition_spec(self, command),
    {
        match (self, command) {
            (ControllerState::Ready, RecordingCommand::FnDown) => (
                ControllerState::Recording,
                ControllerAction::StartSession,
            ),
            (ControllerState::Recording, RecordingCommand::FnUp) => (
                ControllerState::Ready,
                ControllerAction::StopAndTranscribe,
            ),
            (ControllerState::Recording, RecordingCommand::Lock) => (
                ControllerState::RecordingLocked,
                ControllerAction::LockSession,
            ),
            (ControllerState::RecordingLocked, RecordingCommand::FnDown) => (
                ControllerState::Ready,
                ControllerAction::StopAndTranscribe,
            ),
            (ControllerState::Recording, RecordingCommand::Cancel)
            | (ControllerState::RecordingLocked, RecordingCommand::Cancel) => (
                ControllerState::Ready,
                ControllerAction::CancelSession,
            ),
            (_, RecordingCommand::RetryTranscription) => (
                self,
                ControllerAction::RetryTranscription,
            ),
            _ => (self, ControllerAction::Ignore),
        }
    }

    /// The state to fall back to when opening a session failed.
    pub fn after_start_failure(self) -> (r: ControllerState)
        ensures
            r == ControllerState::Ready,
    {
        ControllerState::Ready
    }

    /// The numeric mirror published for other subsystems.
    pub fn state_code(self) -> (r: u8)
        ensures
            r == state_code_spec(self),
            r <= 2,
    {
        match self {
            ControllerState::Ready => 0,
            ControllerState::Recording => 1,
            ControllerState::RecordingLocked => 2,
        }
    }
}

/// Only the commands of the transition table move the controller: from
/// `Ready` only `FnDown`; from `Recording` only `FnUp`, `Lock` and `Cancel`;
/// from `RecordingLocked` only `FnDown` and `Cancel`. Every other pair leaves
/// the state as it was.
pub proof fn lemma_transition_legality(state: ControllerState, command: RecordingCommand)
    ensures
        transition_spec(state, command).0 != state <==> match state {
            ControllerState::Ready => command == RecordingCommand::FnDown,
            ControllerState::Recording => command == RecordingCommand::FnUp || command
                == RecordingCommand::Lock || command == RecordingCommand::Cancel,
            ControllerState::RecordingLocked => command == RecordingCommand::FnDown || command
                == RecordingCommand::Cancel,
        },
        transition_spec(state, command).1 == ControllerAction::Ignore ==> transition_spec(
            state,
            command,
        ).0 == state,
{
}

/// The view of an optional string.
pub open spec fn opt_view(o: Option<String>) -> Option<Seq<char>> {
    match o {
        Some(s) => Some(s@),
        None => None,
    }
}

/// The last transcription attempt, kept across sessions for "paste last
/// result" and "retry transcription".
#[derive(Debug, Clone)]
pub struct LastRecording {
    /// The transcribed text; present when it can be pasted again.
    pub text: Option<String>,
    /// When the text was transcribed, in milliseconds since the Unix epoch.
    pub timestamp: Option<u64>,
    /// The audio file kept after a failed transcription, for a retry.
    pub audio_file_path: Option<String>,
}

impl LastRecording {
    /// Text and retained audio are never both present, and a timestamp
    /// accompanies exactly the text.
    pub open spec fn consistent(&self) -> bool {
        &&& !(self.text is Some && self.audio_file_path is Some)
        &&& (self.timestamp is Some <==> self.text is Some)
    }

    /// Nothing recorded yet.
    pub fn new() -> (r: Self)
        ensures
            r.text is None,
            r.timestamp is None,
            r.audio_file_path is None,
            r.consistent(),
    {
        LastRecording { text: None, timestamp: None, audio_file_path: None }
    }

    /// Whether there is text to paste again.
    pub fn can_paste(&self) -> (r: bool)
        ensures
            r == self.text is Some,
    {
        self.text.is_some()
    }

    /// Records a successful transcription: keeps the text and its time, and
    /// forgets any retained audio.
    pub fn record_success(&mut self, text: String, now_ms: u64)
        ensures
            opt_view(final(self).text) == Some(text@),
            final(self).timestamp == Some(now_ms),
            final(self).audio_file_path is None,
            final(self).consistent(),
    {
        self.text = Some(text);
        self.timestamp = Some(now_ms);
        self.audio_file_path = None;
    }

    /// Records a failed transcription: forgets the text and keeps the audio
    /// file for a retry.
    pub fn record_failure(&mut self, audio_file_path: String)
        ensures
            final(self).text is None,
            final(self).timestamp is None,
            opt_view(final(self).audio_file_path) == Some(audio_file_path@),
            final(self).consistent(),
    {
        self.text = None;
        self.timestamp = None;
        self.audio_file_path = Some(audio_file_path);
    }
}

/// Sent to the interface when a transcription succeeded.
#[derive(Debug, Clone)]
pub struct RecordingStoppedPayload {
    pub text: String,
}

/// Sent to the interface when recording or transcription failed.
#[derive(Debug, Clone)]
pub struct RecordingErrorPayload {
    /// `"recording"` or `"transcription"`.
    pub error_type: String,
    /// Technical detail.
    pub error_message: String,
    /// The message for the user.
    pub user_message: String,
    /// Whether the interface offers a retry.
    pub can_retry: bool,
    /// The retained audio file, for a retry.
    pub audio_file_path: Option<String>,
}

/// The report of a session that could not be opened: not retryable, no file.
pub fn start_error_payload(error: RecorderError) -> (r: RecordingErrorPayload)
    ensures
        r.error_type@ == "recording"@,
        r.error_message@ == error.name_spec(),
        r.user_message@ == error.user_message_spec(),
        !r.can_retry,
        r.audio_file_path is None,
{
    RecordingErrorPayload {
        error_type: String::from_str("recording"),
        error_message: error.name(),
        user_message: error.user_message(),
        can_retry: false,
        audio_file_path: None,
    }
}

/// What the controller does once a transcription attempt has returned.
#[derive(Debug, Clone)]
pub struct TranscriptionOutcome {
    /// Delete the audio file.
    pub delete_audio: bool,
    /// Text to paste into the focused application.
    pub paste_text: Option<String>,
    /// Whether the "paste last result" menu item is enabled.
    pub paste_enabled: bool,
    /// Close the recording popup; it stays open to show an error.
    pub close_popup: bool,
    /// The success report, if any.
    pub stopped: Option<RecordingStoppedPayload>,
    /// The failure report, if any.
    pub error: Option<RecordingErrorPayload>,
}

/// Concludes a transcription attempt on the audio file at `audio_path`, made
/// at `now_ms`. On success the file is deleted, non-empty text is pasted, the
/// text becomes the last result and the popup closes. On failure the file is
/// kept for a retry, the last result is cleared, the popup stays open and an
/// error report says whether a retry makes sense.
pub fn conclude_transcription(
    last: &mut LastRecording,
    audio_path: &str,
    result: Result<String, TranscriptionError>,
    now_ms: u64,
) -> (r: TranscriptionOutcome)
    ensures
        final(last).consistent(),
        match result {
            Ok(text) => {
                &&& opt_view(final(last).text) == Some(text@)
                &&& final(last).timestamp == Some(now_ms)
                &&& final(last).audio_file_path is None
                &&& r.delete_audio
                &&& opt_view(r.paste_text) == if text@.len() > 0 {
                    Some(text@)
                } else {
                    None
                }
                &&& r.paste_enabled
                &&& r.close_popup
                &&& r.stopped matches Some(p) && p.text@ == text@
                &&& r.error is None
            },
            Err(e) => {
                &&& final(last).text is None
                &&& final(last).timestamp is None
                &&& opt_view(final(last).audio_file_path) == Some(audio_path@)
                &&& !r.delete_audio
                &&& r.paste_text is None
                &&& !r.paste_enabled
                &&& !r.close_popup
                &&& r.stopped is None
                &&& r.error matches Some(p) && {
                    &&& p.error_type@ == "transcription"@
                    &&& p.error_message@ == e.describe_spec()
                    &&& p.user_message@ == e.user_message_spec()
                    &&& p.can_retry == e.can_retry_spec()
                    &&& opt_view(p.audio_file_path) == Some(audio_path@)
                }
            },
        },
{
    match result {
        Ok(text) => {
            let paste_text = if text.unicode_len() > 0 {
                Some(text.clone())
            } else {
                None
            };
            let stopped = RecordingStoppedPayload { text: text.clone() };
            last.record_success(text, now_ms);
            TranscriptionOutcome {
                delete_audio: true,
                paste_text,
                paste_enabled: true,
                close_popup: true,
                stopped: Some(stopped),
                error: None,
            }
        },
        Err(e) => {
            last.record_failure(String::from_str(audio_path));
            let payload = RecordingErrorPayload {
                error_type: String::from_str("transcription"),
                error_message: e.describe(),
                user_message: e.user_message(),
                can_retry: e.can_retry(),
                audio_file_path: Some(String::from_str(audio_path)),
            };
            TranscriptionOutcome {
                delete_audio: false,
                paste_text: None,
                paste_enabled: false,
                close_popup: false,
                stopped: None,
                error: Some(payload),
            }
        },
    }
}

/// The audio file to transcribe again: the one retained by the last failed
/// attempt, or a service error when there is none.
pub fn retry_source(last: &LastRecording) -> (r: Result<String, TranscriptionError>)
    ensures
        match last.audio_file_path {
            Some(p) => r matches Ok(q) && q@ == p@,
            None => r matches Err(TranscriptionError::ApiError(m)) && m@
                == "No audio file available for retry"@,
        },
{
    match &last.audio_file_path {
        Some(p) => Ok(p.clone()),
        None => Err(TranscriptionError::ApiError(String::from_str("No audio file available for retry"))),
    }
}

} // verus!
