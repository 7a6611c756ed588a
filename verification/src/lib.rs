//! Verified core of `evtr`, a terminal inspector for evdev input devices:
//! layout planning, monitor and selector state machines, the input model,
//! touch tracking and text helpers. Terminal and device I/O live outside.

pub mod monitor;
pub mod rect;
pub mod ui;
pub mod keys;
pub mod error;
pub mod selector;
