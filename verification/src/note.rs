//! Mapping a sensor distance to a candidate MIDI note.

use vstd::prelude::*;
use crate::config::{Config, Mode, CHANNELS, SCALE_LEN};

verus! {

/// The scale step selected for a covered channel.
///
/// In modulus mode the distance is taken modulo the scale length; in linear
/// mode it is divided by the span of one note and clamped to the last step,
/// since integer truncation near the coverage threshold could otherwise
/// select one step past the end of the scale.
pub open spec fn spec_scale_index(c: Config, distance: u8) -> int
    recommends
        c.wf(),
{
    match c.mode {
        Mode::Modulus => distance as int % (SCALE_LEN as int),
        Mode::Linear => {
            let raw = distance as int / c.cm_per_note as int;
            if raw >= c.scale@.len() {
                c.scale@.len() - 1
            } else {
                raw
            }
        },
    }
}

/// What a distance reading means for a channel: `None` when the channel is
/// uncovered (`distance >= len(scale) * cm_per_note`), otherwise the note
/// `start_note + 12 * channel + scale[index]`.
pub open spec fn spec_map_note(c: Config, distance: u8, channel: u8) -> Option<u8>
    recommends
        c.wf(),
        channel < CHANNELS,
{
    if distance as int >= c.spec_max_distance() {
        None
    } else {
        Some((c.start_note + 12 * channel + c.scale@[spec_scale_index(c, distance)]) as u8)
    }
}

/// Maps a distance reading on a channel to a candidate note, or to "no note"
/// when the channel is uncovered.
pub fn map_note(c: &Config, distance: u8, channel: u8) -> (r: Option<u8>)
    requires
        c.wf(),
        channel < CHANNELS as u8,
    ensures
        r == spec_map_note(*c, distance, channel),
        r is None <==> distance as int >= c.spec_max_distance(),
{
    let max_distance = c.max_distance();
    if distance >= max_distance {
        return None;
    }
    let index: usize = match c.mode {
        Mode::Modulus => (distance % (SCALE_LEN as u8)) as usize,
        Mode::Linear => {
            let raw = (distance / c.cm_per_note) as usize;
            if raw >= c.scale.len() {
                c.scale.len() - 1
            } else {
                raw
            }
        },
    };
    let note = c.start_note + 12 * channel + c.scale[index];
    Some(note)
}

/// Any distance at or beyond the coverage threshold maps to "no note",
/// whatever the mode and the channel.
pub proof fn lemma_uncovered_is_no_note(c: Config, distance: u8, channel: u8)
    requires
        c.wf(),
        distance as int >= c.scale@.len() * c.cm_per_note,
    ensures
        spec_map_note(c, distance, channel) is None,
{
}

/// The selected scale step is always in range: linear mode never selects an
/// index at or past the scale length, and modulus mode always selects an
/// index in `[0, 7)`.
pub proof fn lemma_scale_index_in_range(c: Config, distance: u8)
    requires
        c.wf(),
    ensures
        0 <= spec_scale_index(c, distance) < c.scale@.len(),
        c.mode is Modulus ==> spec_scale_index(c, distance) < SCALE_LEN,
{
}

} // verus!
