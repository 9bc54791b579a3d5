//! The command surface the front-end can invoke, as a dispatch table.

use vstd::prelude::*;

verus! {

/// A command the web front-end can invoke on the native backend.
#[derive(Clone, Copy, Debug, PartialEq, Eq, Structural)]
pub enum Command {
    /// Return the application's version string.
    GetAppInfo,
    /// Ask the front-end to start recording.
    TriggerRecording,
    /// Write a string to the OS clipboard.
    CopyToClipboard,
    /// Switch the window to the compact, always-on-top layout.
    EnterCompactMode,
    /// Switch the window back to the normal layout.
    ExitCompactMode,
    /// Save text to a path chosen in a native save dialog.
    SaveFileWithDialog,
    /// Save bytes (a PDF) to a path chosen in a native save dialog.
    SavePdfWithDialog,
}

/// The name under which a command is invoked from the front-end.
pub open spec fn spec_command_name(c: Command) -> Seq<char> {
    match c {
        Command::GetAppInfo => "get_app_info"@,
        Command::TriggerRecording => "trigger_recording"@,
        Command::CopyToClipboard => "copy_to_clipboard"@,
        Command::EnterCompactMode => "enter_compact_mode"@,
        Command::ExitCompactMode => "exit_compact_mode"@,
        Command::SaveFileWithDialog => "save_file_with_dialog"@,
        Command::SavePdfWithDialog => "save_pdf_with_dialog"@,
    }
}

/// The command, if any, that a given invocation name denotes.
pub open spec fn spec_parse_command(name: Seq<char>) -> Option<Command> {
    if name == spec_command_name(Command::GetAppInfo) {
        Some(Command::GetAppInfo)
    } else if name == spec_command_name(Command::TriggerRecording) {
        Some(Command::TriggerRecording)
    } else if name == spec_command_name(Command::CopyToClipboard) {
        Some(Command::CopyToClipboard)
    } else if name == spec_command_name(Command::EnterCompactMode) {
        Some(Command::EnterCompactMode)
    } else if name == spec_command_name(Command::ExitCompactMode) {
        Some(Command::ExitCompactMode)
    } else if name == spec_command_name(Command::SaveFileWithDialog) {
        Some(Command::SaveFileWithDialog)
    } else if name == spec_command_name(Command::SavePdfWithDialog) {
        Some(Command::SavePdfWithDialog)
    } else {
        None
    }
}

/// The invocation name of a command.
pub fn command_name(c: Command) -> (r: &'static str)
    ensures
        r@ == spec_command_name(c),
{
    match c {
        Command::GetAppInfo => "get_app_info",
        Command::TriggerRecording => "trigger_recording",
        Command::CopyToClipboard => "copy_to_clipboard",
        Command::EnterCompactMode => "enter_compact_mode",
        Command::ExitCompactMode => "exit_compact_mode",
        Command::SaveFileWithDialog => "save_file_with_dialog",
        Command::SavePdfWithDialog => "save_pdf_with_dialog",
    }
}

/// Looks an invocation name up in the dispatch table.
pub fn parse_command(name: &str) -> (r: Option<Command>)
    ensures
        r == spec_parse_command(name@),
{
    if crate::text::str_eq(name, "get_app_info") {
        Some(Command::GetAppInfo)
    } else if crate::text::str_eq(name, "trigger_recording") {
        Some(Command::TriggerRecording)
    } else if crate::text::str_eq(name, "copy_to_clipboard") {
        Some(Command::CopyToClipboard)
    } else if crate::text::str_eq(name, "enter_compact_mode") {
        Some(Command::EnterCompactMode)
    } else if crate::text::str_eq(name, "exit_compact_mode") {
        Some(Command::ExitCompactMode)
    } else if crate::text::str_eq(name, "save_file_with_dialog") {
        Some(Command::SaveFileWithDialog)
    } else if crate::text::str_eq(name, "save_pdf_with_dialog") {
        Some(Command::SavePdfWithDialog)
    } else {
        None
    }
}

/// The names in the dispatch table, pairwise distinct: the three of equal
/// length are told apart by their first character, the rest by length.
proof fn lemma_names_pairwise_distinct()
    ensures
        forall|c1: Command, c2: Command|
            spec_command_name(c1) == spec_command_name(c2) ==> c1 == c2,
{
    reveal_strlit("get_app_info");
    reveal_strlit("trigger_recording");
    reveal_strlit("copy_to_clipboard");
    reveal_strlit("enter_compact_mode");
    reveal_strlit("exit_compact_mode");
    reveal_strlit("save_file_with_dialog");
    reveal_strlit("save_pdf_with_dialog");
    assert(("get_app_info"@).len() == 12);
    assert(("trigger_recording"@).len() == 17);
    assert(("copy_to_clipboard"@).len() == 17);
    assert(("enter_compact_mode"@).len() == 18);
    assert(("exit_compact_mode"@).len() == 17);
    assert(("save_file_with_dialog"@).len() == 21);
    assert(("save_pdf_with_dialog"@).len() == 20);
    assert(("trigger_recording"@)[0] == 't');
    assert(("copy_to_clipboard"@)[0] == 'c');
    assert(("exit_compact_mode"@)[0] == 'e');
}

/// Distinct commands are invoked under distinct names, so the dispatch
/// table sends each name to exactly one handler.
pub proof fn lemma_command_names_distinct(c1: Command, c2: Command)
    ensures
        spec_command_name(c1) == spec_command_name(c2) ==> c1 == c2,
{
    lemma_names_pairwise_distinct();
}

/// Parsing a command's own name yields that command back: the table's names
/// and its lookup are inverse to one another.
pub proof fn lemma_parse_command_name(c: Command)
    ensures
        spec_parse_command(spec_command_name(c)) == Some(c),
{
    lemma_names_pairwise_distinct();
}

/// Parsing never invents a command: a name only ever parses to the command
/// that is invoked under that very name.
pub proof fn lemma_parse_command_sound(name: Seq<char>, c: Command)
    ensures
        spec_parse_command(name) == Some(c) ==> spec_command_name(c) == name,
{
}

/// The application's version string.
pub fn get_app_info() -> (r: String)
    ensures
        r@ == "VoiceIntel v0.1.0"@,
{
    "VoiceIntel v0.1.0".to_owned()
}

/// The event raised towards the front-end to start a recording, both by the
/// in-app trigger command and by the global shortcut.
pub open spec fn spec_recording_event() -> Seq<char> {
    "start-recording"@
}

/// The name of the event that asks the front-end to start recording.
pub fn recording_event() -> (r: &'static str)
    ensures
        r@ == spec_recording_event(),
{
    "start-recording"
}

} // verus!
