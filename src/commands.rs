use vstd::prelude::*;

verus! {

/// Commands that drive a recording session, delivered in order by the input
/// listener and by the user interface.
#[derive(Debug, Clone, Copy, PartialEq, Eq, Structural)]
pub enum RecordingCommand {
    /// The trigger key went down.
    FnDown,
    /// The trigger key went up.
    FnUp,
    /// Lock the recording: releasing the trigger no longer stops it.
    Lock,
    /// Stop the recording and discard it without transcribing.
    Cancel,
    /// Transcribe the last retained recording again.
    RetryTranscription,
}

} // verus!
