//! Window layouts and the directive sequences that switch between them.

use vstd::prelude::*;

verus! {

/// One step the application must take on the OS window. The application
/// interprets a sequence of these with the platform's windowing calls.
#[derive(Clone, Copy, Debug, PartialEq, Eq, Structural)]
pub enum WindowDirective {
    /// Keep the window above all others, or stop doing so.
    SetAlwaysOnTop(bool),
    /// Resize the window to a logical width and height.
    SetLogicalSize(u32, u32),
    /// Center the window on the screen.
    Center,
    /// Make the window visible.
    Show,
    /// Give the window keyboard focus.
    Focus,
    /// Raise the start-recording event towards the front-end.
    EmitRecordingEvent,
}

/// The logical width of the compact (dictation) layout.
pub open spec fn spec_compact_width() -> u32 {
    250
}

/// The logical height of the compact (dictation) layout.
pub open spec fn spec_compact_height() -> u32 {
    280
}

/// The logical width of the normal layout.
pub open spec fn spec_normal_width() -> u32 {
    600
}

/// The logical height of the normal layout.
pub open spec fn spec_normal_height() -> u32 {
    500
}

/// The steps that move the window into a layout: pin it (or unpin it),
/// resize it, and center it, in that order.
pub open spec fn spec_mode_directives(compact: bool) -> Seq<WindowDirective> {
    seq![
        WindowDirective::SetAlwaysOnTop(compact),
        if compact {
            WindowDirective::SetLogicalSize(spec_compact_width(), spec_compact_height())
        } else {
            WindowDirective::SetLogicalSize(spec_normal_width(), spec_normal_height())
        },
        WindowDirective::Center,
    ]
}

/// The steps that enter compact mode: a small, always-on-top window,
/// centered.
pub fn enter_compact_mode_directives() -> (r: Vec<WindowDirective>)
    ensures
        r@ == spec_mode_directives(true),
{
    let mut r: Vec<WindowDirective> = Vec::new();
    r.push(WindowDirective::SetAlwaysOnTop(true));
    r.push(WindowDirective::SetLogicalSize(250, 280));
    r.push(WindowDirective::Center);
    proof {
        assert(r@ =~= spec_mode_directives(true));
    }
    r
}

/// The steps that exit compact mode: a normal-sized window, no longer
/// always on top, centered.
pub fn exit_compact_mode_directives() -> (r: Vec<WindowDirective>)
    ensures
        r@ == spec_mode_directives(false),
{
    let mut r: Vec<WindowDirective> = Vec::new();
    r.push(WindowDirective::SetAlwaysOnTop(false));
    r.push(WindowDirective::SetLogicalSize(600, 500));
    r.push(WindowDirective::Center);
    proof {
        assert(r@ =~= spec_mode_directives(false));
    }
    r
}

/// The global shortcut that starts a dictation from anywhere.
#[derive(Clone, Copy, Debug, PartialEq, Eq, Structural)]
pub struct Hotkey {
    /// Whether the Control modifier must be held.
    pub control: bool,
    /// Whether the Shift modifier must be held.
    pub shift: bool,
    /// Whether the Alt modifier must be held.
    pub alt: bool,
    /// Whether the platform's Super/Command modifier must be held.
    pub meta: bool,
    /// The key pressed together with the modifiers.
    pub key: char,
}

/// The shortcut registered with the OS: Ctrl+Shift+V.
pub fn recording_hotkey() -> (r: Hotkey)
    ensures
        r == (Hotkey { control: true, shift: true, alt: false, meta: false, key: 'V' }),
{
    Hotkey { control: true, shift: true, alt: false, meta: false, key: 'V' }
}

/// What the shortcut handler must do when the shortcut fires: if the main
/// window exists, show it, focus it, and raise the start-recording event;
/// if it does not, do nothing.
pub open spec fn spec_hotkey_directives(window_present: bool) -> Seq<WindowDirective> {
    if window_present {
        seq![WindowDirective::Show, WindowDirective::Focus, WindowDirective::EmitRecordingEvent]
    } else {
        Seq::<WindowDirective>::empty()
    }
}

/// The steps to take when the global shortcut fires.
pub fn hotkey_directives(window_present: bool) -> (r: Vec<WindowDirective>)
    ensures
        r@ == spec_hotkey_directives(window_present),
{
    let mut r: Vec<WindowDirective> = Vec::new();
    if window_present {
        r.push(WindowDirective::Show);
        r.push(WindowDirective::Focus);
        r.push(WindowDirective::EmitRecordingEvent);
    }
    proof {
        assert(r@ =~= spec_hotkey_directives(window_present));
    }
    r
}

} // verus!
