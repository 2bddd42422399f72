//! Push-to-talk dictation core: the recording state machine, the per-channel
//! sample accumulator that feeds a fixed-block resampler, the checks made
//! before transcription, and the records and messages that surround them.

pub mod channel_buffer;
pub mod commands;
pub mod config;
pub mod controller;
pub mod key_listener;
pub mod recorder;
pub mod text;
pub mod transcription;
pub mod tray;
pub mod updater;
