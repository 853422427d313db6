//! Playback transport control: position tracking against a monotonic clock,
//! key bindings, the status line and the per-tick decisions of the control
//! loop. Driving the audio engine and the terminal is left to the caller.

pub mod command;
pub mod control;
pub mod position;
pub mod render;
