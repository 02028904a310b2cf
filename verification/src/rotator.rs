//! Rotating the active instrument across all channels.
//!
//! When a gesture fires, every channel is silenced, the rotation advances to
//! the next instrument in the configured list (wrapping after the last), the
//! new instrument is assigned to every channel, and a short confirmation
//! scale is played.

use vstd::prelude::*;
use vstd::arithmetic::div_mod::lemma_small_mod;
use vstd::arithmetic::div_mod::lemma_mod_self_0;
use crate::command::Command;
use crate::config::{Config, CHANNELS};
use crate::key::Key;

verus! {

/// Channel and base note of the confirmation scale played after a rotation.
pub const CONFIRM_CHANNEL: u8 = 1;

/// First note of the confirmation scale.
pub const CONFIRM_BASE_NOTE: u8 = 48;

/// Semitone step of the confirmation scale.
pub const CONFIRM_STEP: u8 = 12;

/// Position of the active instrument within the configured list.
#[derive(Clone, Copy, PartialEq, Eq, Structural, Debug)]
pub struct Rotator {
    /// Always a valid index into the instrument list.
    pub current_index: usize,
}

impl Rotator {
    /// The index stays inside the configured instrument list.
    pub open spec fn wf(&self, c: Config) -> bool {
        (self.current_index as int) < c.instruments@.len()
    }

    /// The startup rotation: the first instrument of the list is active.
    pub fn new() -> (r: Rotator)
        ensures
            r.current_index == 0,
    {
        Rotator { current_index: 0 }
    }
}

/// The rotation index after one advance: the successor, wrapping to the
/// start of the instrument list after its last element.
pub open spec fn spec_rotate_next(r: Rotator, c: Config) -> int
    recommends
        c.instruments@.len() > 0,
{
    (r.current_index + 1) % (c.instruments@.len() as int)
}

/// The commands one rotation emits, in order: a `note_off` on every channel
/// (whether or not it tracks a sounding note), then the freshly advanced
/// instrument assigned to every channel, then the confirmation scale.
pub open spec fn spec_rotate_commands(keys: Seq<Key>, new_index: int, c: Config) -> Seq<Command>
    recommends
        keys.len() == CHANNELS,
        0 <= new_index < c.instruments@.len(),
{
    Seq::new(CHANNELS as nat, |i: int| Command::NoteOff {
        channel: (i + 1) as u8,
        note: keys[i].note,
    }) + Seq::new(CHANNELS as nat, |i: int| Command::SetInstrument {
        channel: (i + 1) as u8,
        instrument: c.instruments@[new_index],
    }) + seq![
        Command::PlayScale {
            channel: CONFIRM_CHANNEL,
            base_note: CONFIRM_BASE_NOTE,
            step: CONFIRM_STEP,
        },
    ]
}

/// Advances the rotation by one instrument and returns the commands to
/// dispatch, in order.
///
/// The `note_off` commands read the keys as they stand now; the keys
/// themselves are left untouched, so a channel that was sounding still
/// tracks its old note until its next natural transition.
pub fn rotate(r: &mut Rotator, keys: &Vec<Key>, c: &Config) -> (cmds: Vec<Command>)
    requires
        c.wf(),
        old(r).wf(*c),
        keys@.len() == CHANNELS,
    ensures
        final(r).current_index as int == spec_rotate_next(*old(r), *c),
        final(r).wf(*c),
        cmds@ == spec_rotate_commands(keys@, final(r).current_index as int, *c),
{
    proof {
        if old(r).current_index + 1 < c.instruments@.len() {
            lemma_small_mod((old(r).current_index + 1) as nat, c.instruments@.len() as nat);
        } else {
            lemma_mod_self_0(c.instruments@.len() as int);
        }
    }
    let len = c.instruments.len();
    if r.current_index + 1 == len {
        r.current_index = 0;
    } else {
        r.current_index = r.current_index + 1;
    }
    let instrument = c.instruments[r.current_index];
    let mut cmds: Vec<Command> = Vec::new();
    let mut i: usize = 0;
    while i < CHANNELS
        invariant
            i <= CHANNELS,
            keys@.len() == CHANNELS,
            cmds@.len() == i,
            forall|j: int|
                0 <= j < i ==> cmds@[j] == (Command::NoteOff {
                    channel: (j + 1) as u8,
                    note: keys@[j].note,
                }),
        decreases CHANNELS - i,
    {
        cmds.push(Command::NoteOff { channel: (i as u8) + 1, note: keys[i].note });
        i = i + 1;
    }
    let mut i: usize = 0;
    while i < CHANNELS
        invariant
            i <= CHANNELS,
            cmds@.len() == CHANNELS + i,
            instrument == c.instruments@[final(r).current_index as int],
            forall|j: int|
                0 <= j < CHANNELS ==> cmds@[j] == (Command::NoteOff {
                    channel: (j + 1) as u8,
                    note: keys@[j].note,
                }),
            forall|j: int|
                CHANNELS <= j < CHANNELS + i ==> cmds@[j] == (Command::SetInstrument {
                    channel: (j - CHANNELS + 1) as u8,
                    instrument,
                }),
        decreases CHANNELS - i,
    {
        cmds.push(Command::SetInstrument { channel: (i as u8) + 1, instrument });
        i = i + 1;
    }
    cmds.push(Command::PlayScale {
        channel: CONFIRM_CHANNEL,
        base_note: CONFIRM_BASE_NOTE,
        step: CONFIRM_STEP,
    });
    assert(cmds@ =~= spec_rotate_commands(keys@, final(r).current_index as int, *c));
    cmds
}

/// The rotation index cycles through `[0, len(instrument_list))`: an advance
/// from anywhere but the last element moves to the successor, and an advance
/// from the last element wraps to 0.
pub proof fn lemma_rotation_cycles(r: Rotator, c: Config)
    requires
        c.wf(),
        r.wf(c),
    ensures
        0 <= spec_rotate_next(r, c) < c.instruments@.len(),
        r.current_index + 1 < c.instruments@.len() ==> spec_rotate_next(r, c) == r.current_index
            + 1,
        r.current_index + 1 == c.instruments@.len() ==> spec_rotate_next(r, c) == 0,
{
    if r.current_index + 1 < c.instruments@.len() {
        lemma_small_mod((r.current_index + 1) as nat, c.instruments@.len() as nat);
    } else {
        lemma_mod_self_0(c.instruments@.len() as int);
    }
}

/// The commands sent once at startup, before the first tick: the first
/// instrument of the list assigned to every channel, then the confirmation
/// scale announcing that the instrument is ready.
pub open spec fn spec_startup_commands(r: Rotator, c: Config) -> Seq<Command>
    recommends
        0 <= r.current_index < c.instruments@.len(),
{
    Seq::new(CHANNELS as nat, |i: int| Command::SetInstrument {
        channel: (i + 1) as u8,
        instrument: c.instruments@[r.current_index as int],
    }) + seq![
        Command::PlayScale {
            channel: CONFIRM_CHANNEL,
            base_note: CONFIRM_BASE_NOTE,
            step: CONFIRM_STEP,
        },
    ]
}

/// Returns the startup commands: the active instrument assigned to every
/// channel, then the confirmation scale.
pub fn startup_commands(r: &Rotator, c: &Config) -> (cmds: Vec<Command>)
    requires
        c.wf(),
        r.wf(*c),
    ensures
        cmds@ == spec_startup_commands(*r, *c),
{
    let instrument = c.instruments[r.current_index];
    let mut cmds: Vec<Command> = Vec::new();
    let mut i: usize = 0;
    while i < CHANNELS
        invariant
            i <= CHANNELS,
            cmds@.len() == i,
            instrument == c.instruments@[r.current_index as int],
            forall|j: int|
                0 <= j < i ==> cmds@[j] == (Command::SetInstrument {
                    channel: (j + 1) as u8,
                    instrument,
                }),
        decreases CHANNELS - i,
    {
        cmds.push(Command::SetInstrument { channel: (i as u8) + 1, instrument });
        i = i + 1;
    }
    cmds.push(Command::PlayScale {
        channel: CONFIRM_CHANNEL,
        base_note: CONFIRM_BASE_NOTE,
        step: CONFIRM_STEP,
    });
    assert(cmds@ =~= spec_startup_commands(*r, *c));
    cmds
}

} // verus!
