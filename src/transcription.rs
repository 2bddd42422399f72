use vstd::prelude::*;

use crate::text::{contains, contains_spec, decimal, decimal_spec, lower_of, lowercase};

verus! {

/// Recordings shorter than this many milliseconds are not transcribed.
pub const MIN_AUDIO_DURATION_MS: u64 = 500;

/// The largest audio file, in bytes, that the transcription service accepts.
pub const MAX_FILE_SIZE_BYTES: u64 = 25 * 1024 * 1024;

/// Why a transcription attempt failed.
#[derive(Debug, Clone)]
pub enum TranscriptionError {
    /// The recording is shorter than the minimum duration.
    AudioTooShort { duration_ms: u64 },
    /// The audio file exceeds the upload limit.
    FileTooLarge { size_bytes: u64 },
    /// The audio file does not exist; holds its path.
    FileNotFound(String),
    /// The service or the request failed; holds the detail.
    ApiError(String),
    /// Reading the audio file failed; holds the system's description.
    IoError(String),
    /// No API key is configured for the selected provider.
    ApiKeyMissing,
}

/// The user-facing text for a service failure whose detail is `msg` and whose
/// lowercase form is `lowered`.
pub open spec fn api_error_message_spec(msg: Seq<char>, lowered: Seq<char>) -> Seq<char> {
    if contains_spec(msg, "429"@) || contains_spec(lowered, "rate limit"@) {
        "Rate limit reached. Please wait and retry."@
    } else if contains_spec(msg, "401"@) {
        "Invalid API key. Check your settings."@
    } else {
        "Transcription failed: "@ + msg
    }
}

/// The user-facing text for a service failure, from its detail and the
/// lowercase form of that detail: rate limiting (status 429, or the words
/// "rate limit" in any case) first, then a rejected key (status 401), else the
/// detail itself.
pub fn api_error_message(msg: &str, lowered: &str) -> (r: String)
    ensures
        r@ == api_error_message_spec(msg@, lowered@),
{
    if contains(msg, "429") || contains(lowered, "rate limit") {
        String::from_str("Rate limit reached. Please wait and retry.")
    } else if contains(msg, "401") {
        String::from_str("Invalid API key. Check your settings.")
    } else {
        String::from_str("Transcription failed: ").concat(msg)
    }
}

impl TranscriptionError {
    /// The message shown to the user for this error.
    pub open spec fn user_message_spec(&self) -> Seq<char> {
        match self {
            TranscriptionError::AudioTooShort { duration_ms } => "Recording too short ("@
                + decimal_spec(*duration_ms as nat) + "ms). Please speak for at least 0.5 seconds."@,
            TranscriptionError::FileTooLarge { size_bytes } => "Audio file too large ("@
                + decimal_spec((*size_bytes / 1048576u64) as nat) + "MB). Maximum is 25MB."@,
            TranscriptionError::FileNotFound(_) => "Audio file not found. Please try recording again."@,
            TranscriptionError::ApiError(msg) => api_error_message_spec(msg@, lower_of(msg@)),
            TranscriptionError::IoError(_) => "Failed to read audio file. Please try again."@,
            TranscriptionError::ApiKeyMissing => "API key not configured. Please add it in Preferences."@,
        }
    }

    /// The technical description of this error.
    pub open spec fn describe_spec(&self) -> Seq<char> {
        match self {
            TranscriptionError::AudioTooShort { duration_ms } => "Audio too short: "@
                + decimal_spec(*duration_ms as nat) + "ms (minimum 500ms)"@,
            TranscriptionError::FileTooLarge { size_bytes } => "File too large: "@ + decimal_spec(
                *size_bytes as nat,
            ) + " bytes (maximum 25MB)"@,
            TranscriptionError::FileNotFound(path) => "Audio file not found: "@ + path@,
            TranscriptionError::ApiError(msg) => "API error: "@ + msg@,
            TranscriptionError::IoError(detail) => "IO error: "@ + detail@,
            TranscriptionError::ApiKeyMissing => "API key not configured"@,
        }
    }

    /// Whether the user may retry: service failures and a missing file.
    pub open spec fn can_retry_spec(&self) -> bool {
        self is ApiError || self is FileNotFound
    }

    /// Returns a message suitable for display to the user.
    pub fn user_message(&self) -> (r: String)
        ensures
            r@ == self.user_message_spec(),
    {
        match self {
            TranscriptionError::AudioTooShort { duration_ms } => {
                let d = decimal(*duration_ms);
                String::from_str("Recording too short (").concat(d.as_str()).concat(
                    "ms). Please speak for at least 0.5 seconds.",
                )
            },
            TranscriptionError::FileTooLarge { size_bytes } => {
                let mb = decimal(*size_bytes / (1024 * 1024));
                String::from_str("Audio file too large (").concat(mb.as_str()).concat(
                    "MB). Maximum is 25MB.",
                )
            },
            TranscriptionError::FileNotFound(_) => String::from_str(
                "Audio file not found. Please try recording again.",
            ),
            TranscriptionError::ApiError(msg) => {
                let lowered = lowercase(msg.as_str());
                api_error_message(msg.as_str(), lowered.as_str())
            },
            TranscriptionError::IoError(_) => String::from_str(
                "Failed to read audio file. Please try again.",
            ),
            TranscriptionError::ApiKeyMissing => String::from_str(
                "API key not configured. Please add it in Preferences.",
            ),
        }
    }

    /// Returns the technical description of this error, for logs and for the
    /// detail field of error reports.
    pub fn describe(&self) -> (r: String)
        ensures
            r@ == self.describe_spec(),
    {
        match self {
            TranscriptionError::AudioTooShort { duration_ms } => {
                let d = decimal(*duration_ms);
                String::from_str("Audio too short: ").concat(d.as_str()).concat(
                    "ms (minimum 500ms)",
                )
            },
            TranscriptionError::FileTooLarge { size_bytes } => {
                let s = decimal(*size_bytes);
                String::from_str("File too large: ").concat(s.as_str()).concat(
                    " bytes (maximum 25MB)",
                )
            },
            TranscriptionError::FileNotFound(path) => String::from_str(
                "Audio file not found: ",
            ).concat(path.as_str()),
            TranscriptionError::ApiError(msg) => String::from_str("API error: ").concat(
                msg.as_str(),
            ),
            TranscriptionError::IoError(detail) => String::from_str("IO error: ").concat(
                detail.as_str(),
            ),
            TranscriptionError::ApiKeyMissing => String::from_str("API key not configured"),
        }
    }

    /// Returns true if this error can be retried.
    pub fn can_retry(&self) -> (r: bool)
        ensures
            r == self.can_retry_spec(),
    {
        match self {
            TranscriptionError::ApiError(_) | TranscriptionError::FileNotFound(_) => true,
            _ => false,
        }
    }
}

/// What to do with a finished recording before any network call.
#[derive(Debug, Clone, Copy, PartialEq, Eq, Structural)]
pub enum TranscriptionGate {
    /// Too short to be worth transcribing: the result is empty text.
    Skip,
    /// Hand the file to the transcription service.
    Proceed,
}

/// The checks made before transcription, from what is already known of the
/// recording: its path, its duration, and its size in bytes (`None` when the
/// file does not exist). A recording under the minimum duration is skipped
/// whatever its file; a missing file, then a file over the size limit, is an
/// error; anything else proceeds.
pub fn check_recording(path: &str, duration_ms: u64, file_size: Option<u64>) -> (r: Result<
    TranscriptionGate,
    TranscriptionError,
>)
    ensures
        duration_ms < MIN_AUDIO_DURATION_MS ==> r == Ok::<TranscriptionGate, TranscriptionError>(
            TranscriptionGate::Skip,
        ),
        duration_ms >= MIN_AUDIO_DURATION_MS ==> match file_size {
            None => r matches Err(TranscriptionError::FileNotFound(p)) && p@ == path@,
            Some(size) => if size > MAX_FILE_SIZE_BYTES {
                r == Err::<TranscriptionGate, TranscriptionError>(
                    TranscriptionError::FileTooLarge { size_bytes: size },
                )
            } else {
                r == Ok::<TranscriptionGate, TranscriptionError>(TranscriptionGate::Proceed)
            },
        },
{
    if duration_ms < MIN_AUDIO_DURATION_MS {
        return Ok(TranscriptionGate::Skip);
    }
    match file_size {
        None => Err(TranscriptionError::FileNotFound(String::from_str(path))),
        Some(size) => {
            if size > MAX_FILE_SIZE_BYTES {
                Err(TranscriptionError::FileTooLarge { size_bytes: size })
            } else {
                Ok(TranscriptionGate::Proceed)
            }
        },
    }
}

/// The duration of a retained recording estimated from its file size: the
/// output format stores 32000 bytes per second.
pub fn estimated_duration_ms(file_len: u64) -> (r: u64)
    ensures
        r == (file_len as int * 1000) / 32000,
{
    let r = file_len / 32;
    assert(r == (file_len as int * 1000) / 32000) by (nonlinear_arith)
        requires
            r == file_len / 32,
    ;
    r
}

/// Whether an HTTP status code reports success (2xx).
pub fn is_success_status(status: u16) -> (r: bool)
    ensures
        r == (200 <= status && status <= 299),
{
    200 <= status && status <= 299
}

/// The error for an unsuccessful HTTP response, from the status as text
/// (code and reason) and the response body.
pub fn status_error(status_text: &str, body: &str) -> (r: TranscriptionError)
    ensures
        r matches TranscriptionError::ApiError(m) && m@ == "API returned status "@ + status_text@
            + ": "@ + body@,
{
    TranscriptionError::ApiError(
        String::from_str("API returned status ").concat(status_text).concat(": ").concat(body),
    )
}

/// The verdict on an API key from the status of a test request: valid on
/// success, invalid on 401, and any other status is an error that carries
/// the status text and the response body.
pub fn key_check_verdict(status: u16, status_text: &str, body: &str) -> (r: Result<
    bool,
    TranscriptionError,
>)
    ensures
        200 <= status <= 299 ==> r == Ok::<bool, TranscriptionError>(true),
        status == 401 ==> r == Ok::<bool, TranscriptionError>(false),
        !(200 <= status <= 299) && status != 401 ==> (r matches Err(
            TranscriptionError::ApiError(m),
        ) && m@ == "API returned status "@ + status_text@ + ": "@ + body@),
{
    if is_success_status(status) {
        Ok(true)
    } else if status == 401 {
        Ok(false)
    } else {
        Err(status_error(status_text, body))
    }
}

} // verus!
