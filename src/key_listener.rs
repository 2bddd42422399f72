use vstd::prelude::*;

use crate::commands::RecordingCommand;

verus! {

/// Hardware key code of the Fn key.
pub const KEYCODE_FN: i64 = 63;

/// Hardware key code of the space bar.
pub const KEYCODE_SPACE: i64 = 49;

/// The published recording state while capturing in unlocked mode.
pub const STATE_RECORDING: u8 = 1;

/// The kind of a low-level keyboard event.
#[derive(Debug, Clone, Copy, PartialEq, Eq, Structural)]
pub enum KeyEventKind {
    KeyDown,
    KeyUp,
    /// A modifier changed; the Fn key often arrives this way.
    FlagsChanged,
    Other,
}

/// What to do with one low-level keyboard event.
#[derive(Debug, Clone, Copy, PartialEq, Eq, Structural)]
pub struct TapDecision {
    /// The command to send to the controller, if any.
    pub command: Option<RecordingCommand>,
    /// Whether to swallow the event instead of passing it on.
    pub swallow: bool,
}

/// The decision for one event, and the new Fn-held flag, from the flag before,
/// the event and the published recording state.
pub open spec fn tap_spec(fn_down: bool, kind: KeyEventKind, keycode: i64, recording_state: u8) -> (
    bool,
    TapDecision,
) {
    let pass = TapDecision { command: None, swallow: false };
    if keycode == KEYCODE_FN {
        match kind {
            KeyEventKind::KeyDown => (
                true,
                TapDecision { command: Some(RecordingCommand::FnDown), swallow: true },
            ),
            KeyEventKind::KeyUp => (
                false,
                TapDecision { command: Some(RecordingCommand::FnUp), swallow: true },
            ),
            KeyEventKind::FlagsChanged => if fn_down {
                (false, TapDecision { command: Some(RecordingCommand::FnUp), swallow: true })
            } else {
                (true, TapDecision { command: Some(RecordingCommand::FnDown), swallow: true })
            },
            KeyEventKind::Other => (fn_down, pass),
        }
    } else if keycode == KEYCODE_SPACE && kind == KeyEventKind::KeyDown && recording_state
        == STATE_RECORDING {
        (fn_down, TapDecision { command: Some(RecordingCommand::Lock), swallow: true })
    } else {
        (fn_down, pass)
    }
}

/// Turns a system-wide keyboard event stream into recording commands. Fn
/// down and up start and stop; the space bar locks a recording in progress
/// and is swallowed only then, so that it types normally otherwise. Fn events
/// are always swallowed, which keeps the system's emoji picker away.
#[derive(Debug, Clone, Copy)]
pub struct KeyTap {
    /// Whether the Fn key is believed to be held.
    pub fn_down: bool,
}

impl KeyTap {
    /// No key held.
    pub fn new() -> (r: Self)
        ensures
            !r.fn_down,
    {
        KeyTap { fn_down: false }
    }

    /// Decides what to do with one event. A modifier change of the Fn key
    /// toggles it, since such events do not tell press from release.
    pub fn on_event(&mut self, kind: KeyEventKind, keycode: i64, recording_state: u8) -> (r:
        TapDecision)
        ensures
            (final(self).fn_down, r) == tap_spec(old(self).fn_down, kind, keycode, recording_state),
    {
        let pass = TapDecision { command: None, swallow: false };
        if keycode == KEYCODE_FN {
            match kind {
                KeyEventKind::KeyDown => {
                    self.fn_down = true;
                    TapDecision { command: Some(RecordingCommand::FnDown), swallow: true }
                },
                KeyEventKind::KeyUp => {
                    self.fn_down = false;
                    TapDecision { command: Some(RecordingCommand::FnUp), swallow: true }
                },
                KeyEventKind::FlagsChanged => {
                    if self.fn_down {
                        self.fn_down = false;
                        TapDecision { command: Some(RecordingCommand::FnUp), swallow: true }
                    } else {
                        self.fn_down = true;
                        TapDecision { command: Some(RecordingCommand::FnDown), swallow: true }
                    }
                },
                KeyEventKind::Other => pass,
            }
        } else if keycode == KEYCODE_SPACE && kind == KeyEventKind::KeyDown && recording_state
            == STATE_RECORDING {
            TapDecision { command: Some(RecordingCommand::Lock), swallow: true }
        } else {
            pass
        }
    }
}

/// A key of interest to the portable listener.
#[derive(Debug, Clone, Copy, PartialEq, Eq, Structural)]
pub enum ListenedKey {
    Function,
    Space,
    Other,
}

/// The command for a press (`pressed`) or release of `key` seen by the
/// portable listener: Fn press and release start and stop, a space press
/// locks, and nothing else matters.
pub fn command_for_key(key: ListenedKey, pressed: bool) -> (r: Option<RecordingCommand>)
    ensures
        r == match (key, pressed) {
            (ListenedKey::Function, true) => Some(RecordingCommand::FnDown),
            (ListenedKey::Function, false) => Some(RecordingCommand::FnUp),
            (ListenedKey::Space, true) => Some(RecordingCommand::Lock),
            _ => None::<RecordingCommand>,
        },
{
    match (key, pressed) {
        (ListenedKey::Function, true) => Some(RecordingCommand::FnDown),
        (ListenedKey::Function, false) => Some(RecordingCommand::FnUp),
        (ListenedKey::Space, true) => Some(RecordingCommand::Lock),
        _ => None,
    }
}

} // verus!
