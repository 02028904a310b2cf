//! Immutable configuration shared by all channels, validated once at startup.

use vstd::prelude::*;

verus! {

/// How a distance reading is quantized to a step of the scale.
#[derive(Clone, Copy, PartialEq, Eq, Structural, Debug)]
pub enum Mode {
    /// The scale index is the distance modulo the scale length.
    Modulus,
    /// The scale index is the distance divided by the span of one note.
    Linear,
}

/// The number of sensor channels.
pub const CHANNELS: usize = 8;

/// The number of semitone offsets in a scale.
pub const SCALE_LEN: usize = 7;

/// Fixed note-on loudness.
pub const VELOCITY: u8 = 127;

/// Read-only configuration, constructed once at startup.
pub struct Config {
    /// Semitone offsets within an octave, one per scale step.
    pub scale: Vec<u8>,
    /// Base MIDI note for channel 0; each channel starts an octave higher.
    pub start_note: u8,
    /// Distance span allocated to each note in linear mode.
    pub cm_per_note: u8,
    /// Quantization policy.
    pub mode: Mode,
    /// Composite proximity code that triggers an instrument rotation.
    pub gesture_trigger_code: u8,
    /// MIDI instrument numbers to rotate through; never empty.
    pub instruments: Vec<u8>,
    /// Loudness passed with every note-on.
    pub velocity: u8,
}

impl Config {
    /// Well-formedness: the bounds that `Config::new` establishes and every
    /// consumer of a configuration relies on.
    pub open spec fn wf(&self) -> bool {
        &&& self.scale@.len() == SCALE_LEN
        &&& self.instruments@.len() > 0
        &&& self.cm_per_note >= 1
        &&& SCALE_LEN * self.cm_per_note <= u8::MAX
        &&& forall|i: int|
            0 <= i < self.scale@.len() ==> self.start_note + 12 * (CHANNELS - 1)
                + self.scale@[i] <= u8::MAX
    }

    /// Distances at or beyond this value leave the channel uncovered.
    pub open spec fn spec_max_distance(&self) -> int {
        self.scale@.len() * self.cm_per_note
    }

    /// Validates a configuration. Returns `None` exactly when the inputs
    /// break a startup constraint: the wrong number of scale steps, an empty
    /// instrument list, a zero note span, or values so large that computing
    /// a note or the coverage threshold would not fit in a byte.
    pub fn new(
        scale: Vec<u8>,
        start_note: u8,
        cm_per_note: u8,
        mode: Mode,
        gesture_trigger_code: u8,
        instruments: Vec<u8>,
    ) -> (r: Option<Config>)
        ensures
            r is Some <==> {
                &&& scale@.len() == SCALE_LEN
                &&& instruments@.len() > 0
                &&& cm_per_note >= 1
                &&& SCALE_LEN * cm_per_note <= u8::MAX
                &&& forall|i: int|
                    0 <= i < scale@.len() ==> start_note + 12 * (CHANNELS - 1)
                        + scale@[i] <= u8::MAX
            },
            r is Some ==> {
                &&& r->Some_0.wf()
                &&& r->Some_0.scale@ == scale@
                &&& r->Some_0.start_note == start_note
                &&& r->Some_0.cm_per_note == cm_per_note
                &&& r->Some_0.mode == mode
                &&& r->Some_0.gesture_trigger_code == gesture_trigger_code
                &&& r->Some_0.instruments@ == instruments@
                &&& r->Some_0.velocity == VELOCITY
            },
    {
        if scale.len() != SCALE_LEN {
            return None;
        }
        if instruments.len() == 0 {
            return None;
        }
        if cm_per_note < 1 {
            return None;
        }
        if (SCALE_LEN as u64) * (cm_per_note as u64) > u8::MAX as u64 {
            return None;
        }
        let mut i: usize = 0;
        while i < scale.len()
            invariant
                i <= scale@.len(),
                scale@.len() == SCALE_LEN,
                forall|j: int|
                    0 <= j < i ==> start_note + 12 * (CHANNELS - 1) + scale@[j] <= u8::MAX,
            decreases scale@.len() - i,
        {
            if (start_note as u64) + 12 * ((CHANNELS as u64) - 1) + (scale[i] as u64)
                > u8::MAX as u64 {
                return None;
            }
            i = i + 1;
        }
        Some(Config {
            scale,
            start_note,
            cm_per_note,
            mode,
            gesture_trigger_code,
            instruments,
            velocity: VELOCITY,
        })
    }

    /// The coverage threshold: `len(scale) * cm_per_note`.
    pub fn max_distance(&self) -> (d: u8)
        requires
            self.wf(),
        ensures
            d as int == self.spec_max_distance(),
    {
        (self.scale.len() as u8) * self.cm_per_note
    }
}

} // verus!
