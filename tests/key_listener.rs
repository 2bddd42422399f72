use dictara::commands::RecordingCommand;
use dictara::key_listener::{
    command_for_key, KeyEventKind, KeyTap, ListenedKey, KEYCODE_FN, KEYCODE_SPACE,
};

#[test]
fn fn_key_down_and_up_are_swallowed_commands() {
    let mut tap = KeyTap::new();
    let d = tap.on_event(KeyEventKind::KeyDown, KEYCODE_FN, 0);
    assert_eq!(d.command, Some(RecordingCommand::FnDown));
    assert!(d.swallow);
    assert!(tap.fn_down);
    let d = tap.on_event(KeyEventKind::KeyUp, KEYCODE_FN, 1);
    assert_eq!(d.command, Some(RecordingCommand::FnUp));
    assert!(d.swallow);
    assert!(!tap.fn_down);
}

#[test]
fn fn_flag_changes_toggle() {
    let mut tap = KeyTap::new();
    let d = tap.on_event(KeyEventKind::FlagsChanged, 63, 0);
    assert_eq!(d.command, Some(RecordingCommand::FnDown));
    let d = tap.on_event(KeyEventKind::FlagsChanged, 63, 1);
    assert_eq!(d.command, Some(RecordingCommand::FnUp));
    assert!(d.swallow);
    assert!(!tap.fn_down);
}

#[test]
fn space_locks_only_while_recording() {
    let mut tap = KeyTap::new();
    let d = tap.on_event(KeyEventKind::KeyDown, KEYCODE_SPACE, 1);
    assert_eq!(d.command, Some(RecordingCommand::Lock));
    assert!(d.swallow);
    for state in [0u8, 2] {
        let d = tap.on_event(KeyEventKind::KeyDown, KEYCODE_SPACE, state);
        assert_eq!(d.command, None);
        assert!(!d.swallow);
    }
    let d = tap.on_event(KeyEventKind::KeyUp, KEYCODE_SPACE, 1);
    assert_eq!(d.command, None);
    assert!(!d.swallow);
}

#[test]
fn other_keys_pass_through() {
    let mut tap = KeyTap::new();
    let d = tap.on_event(KeyEventKind::KeyDown, 0, 1);
    assert_eq!(d.command, None);
    assert!(!d.swallow);
    let d = tap.on_event(KeyEventKind::Other, KEYCODE_FN, 1);
    assert_eq!(d.command, None);
    assert!(!tap.fn_down);
}

#[test]
fn portable_listener_mapping() {
    assert_eq!(command_for_key(ListenedKey::Function, true), Some(RecordingCommand::FnDown));
    assert_eq!(command_for_key(ListenedKey::Function, false), Some(RecordingCommand::FnUp));
    assert_eq!(command_for_key(ListenedKey::Space, true), Some(RecordingCommand::Lock));
    assert_eq!(command_for_key(ListenedKey::Space, false), None);
    assert_eq!(command_for_key(ListenedKey::Other, true), None);
}
