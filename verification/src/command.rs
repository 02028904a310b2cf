//! Synthesizer commands emitted by the core logic.
//!
//! The core never talks to a synthesizer directly: each tick returns an
//! ordered sequence of these commands, and the caller dispatches them in
//! order. Channels here are 1-based, as the synthesizer expects; the core
//! adds 1 to its own 0-based channel indices when it emits a command.

use vstd::prelude::*;

verus! {

/// One call to make on the synthesizer, in emission order.
#[derive(Clone, Copy, PartialEq, Eq, Structural, Debug)]
pub enum Command {
    /// Start a note on a channel at the given loudness.
    NoteOn { channel: u8, note: u8, velocity: u8 },
    /// Stop a note on a channel. `note == 0` is a harmless no-op downstream.
    NoteOff { channel: u8, note: u8 },
    /// Assign a MIDI instrument to a channel.
    SetInstrument { channel: u8, instrument: u8 },
    /// Play a short confirmation scale starting at `base_note`, stepping by
    /// `step` semitones.
    PlayScale { channel: u8, base_note: u8, step: u8 },
}

} // verus!
