//! A verified in-process developer console and diagnostics overlay.
//!
//! The crate models the logic of a live text-command interpreter and a
//! real-time metrics overlay that run inside a per-frame update loop:
//! a command registry with typed argument parsing, a frame-drained event
//! bus, a console widget with bounded scrollback, an edge-triggered
//! toggle state machine, and per-frame metric text rendering.
//! The host runtime (window, input devices, entity storage, metric
//! sampling) stays outside; it hands these functions plain values and
//! takes plain values back.

pub mod console;
pub mod diagnostics;
pub mod events;
pub mod registry;
pub mod text;
