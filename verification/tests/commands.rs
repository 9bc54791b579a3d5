use voiceintel::commands::{command_name, get_app_info, parse_command, recording_event, Command};

#[test]
fn app_info_is_the_version_string() {
    assert_eq!(get_app_info(), "VoiceIntel v0.1.0");
}

#[test]
fn recording_event_name() {
    assert_eq!(recording_event(), "start-recording");
}

#[test]
fn command_names() {
    assert_eq!(command_name(Command::GetAppInfo), "get_app_info");
    assert_eq!(command_name(Command::TriggerRecording), "trigger_recording");
    assert_eq!(command_name(Command::CopyToClipboard), "copy_to_clipboard");
    assert_eq!(command_name(Command::EnterCompactMode), "enter_compact_mode");
    assert_eq!(command_name(Command::ExitCompactMode), "exit_compact_mode");
    assert_eq!(command_name(Command::SaveFileWithDialog), "save_file_with_dialog");
    assert_eq!(command_name(Command::SavePdfWithDialog), "save_pdf_with_dialog");
}

#[test]
fn every_command_name_parses_back() {
    let all = [
        Command::GetAppInfo,
        Command::TriggerRecording,
        Command::CopyToClipboard,
        Command::EnterCompactMode,
        Command::ExitCompactMode,
        Command::SaveFileWithDialog,
        Command::SavePdfWithDialog,
    ];
    for c in all {
        assert_eq!(parse_command(command_name(c)), Some(c));
    }
}

#[test]
fn unknown_names_do_not_parse() {
    assert_eq!(parse_command(""), None);
    assert_eq!(parse_command("get_app_inf"), None);
    assert_eq!(parse_command("get_app_info "), None);
    assert_eq!(parse_command("GET_APP_INFO"), None);
    assert_eq!(parse_command("start-recording"), None);
}
