use voiceintel::window::{
    enter_compact_mode_directives, exit_compact_mode_directives, hotkey_directives,
    recording_hotkey, WindowDirective,
};

#[test]
fn compact_layout_directives() {
    assert_eq!(
        enter_compact_mode_directives(),
        vec![
            WindowDirective::SetAlwaysOnTop(true),
            WindowDirective::SetLogicalSize(250, 280),
            WindowDirective::Center,
        ]
    );
}

#[test]
fn normal_layout_directives() {
    assert_eq!(
        exit_compact_mode_directives(),
        vec![
            WindowDirective::SetAlwaysOnTop(false),
            WindowDirective::SetLogicalSize(600, 500),
            WindowDirective::Center,
        ]
    );
}

#[test]
fn hotkey_shows_focuses_and_emits_when_window_exists() {
    assert_eq!(
        hotkey_directives(true),
        vec![
            WindowDirective::Show,
            WindowDirective::Focus,
            WindowDirective::EmitRecordingEvent,
        ]
    );
}

#[test]
fn hotkey_does_nothing_without_a_window() {
    assert_eq!(hotkey_directives(false), vec![]);
}

#[test]
fn recording_hotkey_is_ctrl_shift_v() {
    let h = recording_hotkey();
    assert!(h.control);
    assert!(h.shift);
    assert!(!h.alt);
    assert!(!h.meta);
    assert_eq!(h.key, 'V');
}
