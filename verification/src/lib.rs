//! Core decision logic for a proximity-sensor musical instrument.
//!
//! Eight distance sensors are polled once per tick. Each reading is mapped
//! to a candidate MIDI note, a per-channel state machine decides when held
//! notes start and stop (with a debounce window against flicker), and a
//! gesture recognizer watches the composite proximity pattern to rotate the
//! active instrument. All of the logic here is pure: sensor reads and
//! synthesizer calls happen outside, driven by the command sequences these
//! functions return.

pub mod command;
pub mod config;
pub mod control;
pub mod gesture;
pub mod key;
pub mod note;
pub mod rotator;
