//! A focus-aware global-hotkey engine for a single target application.
//!
//! The engine watches which window has input focus, grabs the keyboard
//! only while the target application is focused, and resolves captured
//! key presses either into a synthetic key event (a rebind) or into a
//! composite style value that is published to the clipboard and pasted
//! back into the target window.
//!
//! Everything that decides is here and verified; the windowing-server
//! round trips, the clipboard utility and the configuration file live
//! with the embedding program, which hands events in and carries
//! directives out as plain values.

pub mod clipboard;
pub mod keybind;
pub mod keys;
pub mod machine;
pub mod style;
pub mod window;
