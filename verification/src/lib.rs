//! Native-backend logic for a voice-dictation desktop utility.
//!
//! The application is a thin shim between a web front-end and the OS: it
//! dispatches front-end commands, switches the window between a compact and a
//! normal layout, reacts to a global shortcut, and resolves the outcome of a
//! native save dialog. This crate holds the decisions those commands make —
//! the dispatch table, the layouts, the directive sequences, the outcome
//! mapping — each with a verified contract. The windowing, clipboard and file
//! calls themselves live in the surrounding application, which interprets the
//! directives this crate hands out.

pub mod commands;
pub mod save;
pub mod text;
pub mod window;
