use vstd::prelude::*;

use crate::text::{decimal, decimal_spec};

verus! {

/// Sample rate of every recording file, in hertz.
pub const OUTPUT_SAMPLE_RATE: u32 = 16000;

/// Channel count of every recording file.
pub const OUTPUT_CHANNELS: u16 = 1;

/// Bits per sample of every recording file (signed integer PCM).
pub const OUTPUT_BITS_PER_SAMPLE: u16 = 16;

/// Why a capture session could not be opened or closed.
#[derive(Debug, Clone, Copy, PartialEq, Eq, Structural)]
pub enum RecorderError {
    /// There is no input device.
    NoInputDevice,
    /// The device, its configuration, the stream or the resampler failed.
    DeviceError,
    /// A directory or file could not be created.
    IoError,
}

impl RecorderError {
    /// The message shown to the user for this error.
    pub open spec fn user_message_spec(&self) -> Seq<char> {
        match self {
            RecorderError::NoInputDevice => "No microphone found. Please connect one and try again."@,
            RecorderError::DeviceError => "Microphone error. Check your audio settings."@,
            RecorderError::IoError => "Failed to save recording. Check disk space."@,
        }
    }

    /// The name of the variant, as technical detail.
    pub open spec fn name_spec(&self) -> Seq<char> {
        match self {
            RecorderError::NoInputDevice => "NoInputDevice"@,
            RecorderError::DeviceError => "DeviceError"@,
            RecorderError::IoError => "IoError"@,
        }
    }

    /// Returns a message suitable for display to the user.
    pub fn user_message(&self) -> (r: String)
        ensures
            r@ == self.user_message_spec(),
    {
        match self {
            RecorderError::NoInputDevice => String::from_str(
                "No microphone found. Please connect one and try again.",
            ),
            RecorderError::DeviceError => String::from_str(
                "Microphone error. Check your audio settings.",
            ),
            RecorderError::IoError => String::from_str(
                "Failed to save recording. Check disk space.",
            ),
        }
    }

    /// Returns the name of the variant, as technical detail.
    pub fn name(&self) -> (r: String)
        ensures
            r@ == self.name_spec(),
    {
        match self {
            RecorderError::NoInputDevice => String::from_str("NoInputDevice"),
            RecorderError::DeviceError => String::from_str("DeviceError"),
            RecorderError::IoError => String::from_str("IoError"),
        }
    }
}

/// A finished recording: where its file is and how long it lasted.
#[derive(Debug, Clone)]
pub struct RecordingResult {
    pub file_path: String,
    pub duration_ms: u64,
}

/// The file name of a recording started at `unix_secs` seconds since the epoch.
pub open spec fn filename_spec(unix_secs: nat) -> Seq<char> {
    "recording_"@ + decimal_spec(unix_secs) + ".wav"@
}

/// The file name of a recording started at `unix_secs` seconds since the
/// epoch: `recording_<unix_secs>.wav`.
pub fn generate_filename(unix_secs: u64) -> (r: String)
    ensures
        r@ == filename_spec(unix_secs as nat),
{
    let secs = decimal(unix_secs);
    String::from_str("recording_").concat(secs.as_str()).concat(".wav")
}

/// The duration of a recording from its start and stop times, in
/// milliseconds since the epoch; zero if the clock went backwards.
pub fn elapsed_ms(start_ms: u64, stop_ms: u64) -> (r: u64)
    ensures
        r == if stop_ms >= start_ms {
            stop_ms - start_ms
        } else {
            0
        },
{
    if stop_ms >= start_ms {
        stop_ms - start_ms
    } else {
        0
    }
}

/// Whether the device's channels must be mixed down to the single output
/// channel: they must unless the device is already mono. The mix averages
/// the first two channels only.
pub fn needs_downmix(device_channels: u16) -> (r: bool)
    ensures
        r == (device_channels != 1),
{
    device_channels != 1
}

/// Guards the audio sink shared by the capture callback and the controller:
/// open until finalized, and closed for good after that, so that no sample
/// reaches the sink once the recording has been stopped.
#[derive(Debug)]
pub struct SinkGate {
    open: bool,
    written: u64,
}

impl SinkGate {
    /// True while the sink accepts samples.
    pub closed spec fn is_open_spec(&self) -> bool {
        self.open
    }

    /// The number of samples the sink has accepted.
    pub closed spec fn written_spec(&self) -> nat {
        self.written as nat
    }

    /// An open sink that has accepted nothing yet.
    pub fn new() -> (r: Self)
        ensures
            r.is_open_spec(),
            r.written_spec() == 0,
    {
        SinkGate { open: true, written: 0 }
    }

    /// True while the sink accepts samples.
    pub fn is_open(&self) -> (r: bool)
        ensures
            r == self.is_open_spec(),
    {
        self.open
    }

    /// The number of samples the sink has accepted.
    pub fn written(&self) -> (r: u64)
        ensures
            r == self.written_spec(),
    {
        self.written
    }

    /// Whether a request to write `count` samples is granted.
    pub open spec fn accepts_spec(&self, count: u64) -> bool {
        self.is_open_spec() && self.written_spec() + count <= u64::MAX
    }

    /// Asks to write `count` samples. Granted while the sink is open and the
    /// running count has room; refused, with nothing changed, otherwise.
    pub fn accept(&mut self, count: u64) -> (r: bool)
        ensures
            r == old(self).accepts_spec(count),
            final(self).is_open_spec() == old(self).is_open_spec(),
            r ==> final(self).written_spec() == old(self).written_spec() + count,
            !r ==> final(self).written_spec() == old(self).written_spec(),
    {
        if self.open && count <= u64::MAX - self.written {
            self.written = self.written + count;
            true
        } else {
            false
        }
    }

    /// Closes the sink for finalization. Returns whether it was open, that is
    /// whether this call is the one that must finalize the file.
    pub fn finalize(&mut self) -> (r: bool)
        ensures
            r == old(self).is_open_spec(),
            !final(self).is_open_spec(),
            final(self).written_spec() == old(self).written_spec(),
    {
        let was_open = self.open;
        self.open = false;
        was_open
    }
}

/// Once a sink has been finalized, every later request to write is refused
/// (and, by the contract of `accept`, changes nothing).
pub proof fn lemma_no_write_after_finalize(finalized: SinkGate, count: u64)
    requires
        !finalized.is_open_spec(),
    ensures
        !finalized.accepts_spec(count),
{
}

/// Sent to the interface when a recording starts.
#[derive(Debug, Clone)]
pub struct RecordingStartedEvent {
    pub timestamp: u128,
    pub filename: String,
}

/// Sent to the interface when a recording stops.
#[derive(Debug, Clone)]
pub struct RecordingStoppedEvent {
    pub timestamp: u128,
    pub filename: String,
    pub duration_ms: u64,
    pub file_size_bytes: u64,
}

/// Sent to the interface when a recording fails.
#[derive(Debug, Clone)]
pub struct RecordingErrorEvent {
    pub error: String,
    pub error_type: String,
    pub timestamp: u128,
}

} // verus!
