use dictara::recorder::{elapsed_ms, generate_filename, needs_downmix, RecorderError, SinkGate};
use dictara::tray::TrayError;
use dictara::updater::{
    is_busy_code, publish_recording_state, should_install_now, update_check_step,
    UpdateCheckStep, UpdaterState,
};
use dictara::controller::ControllerState;
use std::sync::atomic::AtomicU8;
use std::sync::Arc;

#[test]
fn filename_from_unix_seconds() {
    assert_eq!(generate_filename(1700000000), "recording_1700000000.wav");
    assert_eq!(generate_filename(0), "recording_0.wav");
}

#[test]
fn recorder_error_messages() {
    assert_eq!(
        RecorderError::DeviceError.user_message(),
        "Microphone error. Check your audio settings."
    );
    assert_eq!(RecorderError::IoError.user_message(), "Failed to save recording. Check disk space.");
    assert_eq!(RecorderError::IoError.name(), "IoError");
    assert_eq!(RecorderError::DeviceError.name(), "DeviceError");
}

#[test]
fn elapsed_time() {
    assert_eq!(elapsed_ms(1000, 3000), 2000);
    assert_eq!(elapsed_ms(3000, 1000), 0);
}

#[test]
fn downmix_unless_mono() {
    assert!(!needs_downmix(1));
    assert!(needs_downmix(2));
    assert!(needs_downmix(6));
}

#[test]
fn no_write_after_finalize() {
    let mut gate = SinkGate::new();
    assert!(gate.is_open());
    assert!(gate.accept(480));
    assert!(gate.accept(480));
    assert_eq!(gate.written(), 960);
    assert!(gate.finalize());
    assert!(!gate.is_open());
    // a late callback after stop is refused and counts nothing
    assert!(!gate.accept(480));
    assert_eq!(gate.written(), 960);
    assert!(!gate.finalize());
}

#[test]
fn sink_count_never_wraps() {
    let mut gate = SinkGate::new();
    assert!(gate.accept(u64::MAX));
    assert!(!gate.accept(1));
    assert!(gate.is_open());
}

#[test]
fn tray_error_messages() {
    assert_eq!(TrayError::StateNotFound.message(), "Tray state not found in app");
    assert_eq!(TrayError::IconSetFailed("x".to_string()).message(), "Failed to set icon: x");
}

#[test]
fn updater_reads_published_state() {
    assert!(!is_busy_code(0));
    assert!(is_busy_code(1));
    assert!(is_busy_code(2));
    let cell = Arc::new(AtomicU8::new(0));
    let state = UpdaterState::new(cell.clone());
    assert!(!state.is_busy());
    publish_recording_state(&cell, ControllerState::RecordingLocked);
    assert!(state.is_busy());
    publish_recording_state(&cell, ControllerState::Ready);
    assert!(!state.is_busy());
    assert!(!state.is_checking());
    state.set_checking(true);
    assert!(state.is_checking());
    assert!(!state.has_pending_update());
    state.set_pending_update(true);
    assert!(state.has_pending_update());
}

#[test]
fn update_scheduling_decisions() {
    assert_eq!(update_check_step(true, true, true), UpdateCheckStep::AlreadyDownloaded);
    assert_eq!(update_check_step(false, true, true), UpdateCheckStep::DeferWhileBusy);
    assert_eq!(update_check_step(false, false, true), UpdateCheckStep::AlreadyChecking);
    assert_eq!(update_check_step(false, false, false), UpdateCheckStep::Check);
    assert!(should_install_now(true, false, 60));
    assert!(!should_install_now(true, false, 59));
    assert!(!should_install_now(true, true, 600));
    assert!(!should_install_now(false, false, 600));
}
