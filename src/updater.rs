use vstd::prelude::*;

use std::sync::atomic::{AtomicBool, AtomicU8, Ordering};
use std::sync::Arc;

use crate::controller::{state_code_spec, ControllerState};

verus! {

/// The published recording state of an idle controller.
pub const STATE_READY: u8 = 0;

/// Whether a published recording state means the application is busy.
pub fn is_busy_code(code: u8) -> (r: bool)
    ensures
        r == (code != STATE_READY),
{
    code != STATE_READY
}

/// Publishes the controller's state as its numeric mirror, for subsystems
/// that must not start work while a recording is in progress.
pub fn publish_recording_state(cell: &AtomicU8, state: ControllerState) {
    let code = state.state_code();
    assert(code == state_code_spec(state));
    cell.store(code, Ordering::Relaxed);
}

/// Flags shared by the update tasks, and the recording state published by
/// the controller. Every field is read and written concurrently, so nothing
/// is known of a value read beyond what the reader then decides from it.
pub struct UpdaterState {
    checking: AtomicBool,
    pending_update: AtomicBool,
    recording_state: Arc<AtomicU8>,
}

impl UpdaterState {
    /// No check in progress and no deferred update; reads the recording state
    /// from `recording_state`.
    pub fn new(recording_state: Arc<AtomicU8>) -> Self {
        UpdaterState {
            checking: AtomicBool::new(false),
            pending_update: AtomicBool::new(false),
            recording_state,
        }
    }

    /// Whether a recording or transcription is in progress.
    pub fn is_busy(&self) -> bool {
        let code = self.recording_state.load(Ordering::Relaxed);
        is_busy_code(code)
    }

    /// Whether an update check is in progress.
    pub fn is_checking(&self) -> bool {
        self.checking.load(Ordering::Relaxed)
    }

    /// Marks an update check as started or finished.
    pub fn set_checking(&self, value: bool) {
        self.checking.store(value, Ordering::Relaxed);
    }

    /// Whether an update was deferred because the application was busy.
    pub fn has_pending_update(&self) -> bool {
        self.pending_update.load(Ordering::Relaxed)
    }

    /// Marks an update as deferred, or clears the mark.
    pub fn set_pending_update(&self, value: bool) {
        self.pending_update.store(value, Ordering::Relaxed);
    }
}

/// How long, in whole seconds, the user must have been idle before a
/// downloaded update is installed.
pub const REQUIRED_IDLE_SECONDS: u64 = 60;

/// What a scheduled update check does.
#[derive(Debug, Clone, Copy, PartialEq, Eq, Structural)]
pub enum UpdateCheckStep {
    /// An update is already downloaded: nothing to check.
    AlreadyDownloaded,
    /// A recording is in progress: mark the update as deferred.
    DeferWhileBusy,
    /// Another check is running.
    AlreadyChecking,
    /// Check for an update and download it.
    Check,
}

/// Decides a scheduled update check, in this order: skip when an update is
/// already downloaded, defer while busy, skip when a check is running.
pub fn update_check_step(has_pending_install: bool, busy: bool, checking: bool) -> (r:
    UpdateCheckStep)
    ensures
        r == if has_pending_install {
            UpdateCheckStep::AlreadyDownloaded
        } else if busy {
            UpdateCheckStep::DeferWhileBusy
        } else if checking {
            UpdateCheckStep::AlreadyChecking
        } else {
            UpdateCheckStep::Check
        },
{
    if has_pending_install {
        UpdateCheckStep::AlreadyDownloaded
    } else if busy {
        UpdateCheckStep::DeferWhileBusy
    } else if checking {
        UpdateCheckStep::AlreadyChecking
    } else {
        UpdateCheckStep::Check
    }
}

/// Whether to install a downloaded update now: one is waiting, nothing is
/// being recorded, and the user has been idle long enough.
pub fn should_install_now(has_pending_install: bool, busy: bool, idle_seconds: u64) -> (r: bool)
    ensures
        r == (has_pending_install && !busy && idle_seconds >= REQUIRED_IDLE_SECONDS),
{
    has_pending_install && !busy && idle_seconds >= REQUIRED_IDLE_SECONDS
}

} // verus!
