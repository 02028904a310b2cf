//! One full polling tick: all eight channels, then the gesture.
//!
//! Per tick, each channel's distance reading is mapped to a candidate note
//! and its key state advances; afterwards the composite proximity code is
//! debounced, and a recognized gesture rotates the instrument. Commands are
//! emitted in exactly that order: per-channel note commands for channels 0
//! through 7, then, if the gesture fired, the rotation commands.

use vstd::prelude::*;
use crate::command::Command;
use crate::config::{Config, CHANNELS};
use crate::gesture::{GestureState, spec_gesture_code, spec_gesture_next, spec_gesture_fires,
    gesture_code, gesture_tick};
use crate::key::{Key, spec_key_next, spec_key_commands, key_tick};
use crate::note::{spec_map_note, map_note};
use crate::rotator::{Rotator, spec_rotate_next, spec_rotate_commands, rotate};

verus! {

/// All key states after one tick: each channel advances independently on its
/// own mapped note.
pub open spec fn spec_keys_next(keys: Seq<Key>, d: Seq<u8>, c: Config) -> Seq<Key>
    recommends
        keys.len() == CHANNELS,
        d.len() == CHANNELS,
{
    Seq::new(keys.len(), |i: int| spec_key_next(keys[i], spec_map_note(c, d[i], i as u8)))
}

/// The note commands of the first `n` channels of one tick, concatenated in
/// channel order.
pub open spec fn spec_key_commands_upto(keys: Seq<Key>, d: Seq<u8>, c: Config, n: int) -> Seq<
    Command,
>
    recommends
        keys.len() == CHANNELS,
        d.len() == CHANNELS,
        0 <= n <= CHANNELS,
    decreases n,
{
    if n <= 0 {
        Seq::empty()
    } else {
        spec_key_commands_upto(keys, d, c, n - 1) + spec_key_commands(
            keys[n - 1],
            (n - 1) as u8,
            spec_map_note(c, d[n - 1], (n - 1) as u8),
            c.velocity,
        )
    }
}

/// Everything one tick emits, in dispatch order: the note commands of the
/// eight channels, then, exactly when the gesture fires on this tick, the
/// rotation commands computed over the already-advanced key states.
pub open spec fn spec_tick_commands(
    keys: Seq<Key>,
    g: GestureState,
    r: Rotator,
    d: Seq<u8>,
    c: Config,
) -> Seq<Command>
    recommends
        keys.len() == CHANNELS,
        d.len() == CHANNELS,
        r.wf(c),
{
    let key_cmds = spec_key_commands_upto(keys, d, c, CHANNELS as int);
    if spec_gesture_fires(g, spec_gesture_code(d) as u8, c.gesture_trigger_code) {
        key_cmds + spec_rotate_commands(spec_keys_next(keys, d, c), spec_rotate_next(r, c), c)
    } else {
        key_cmds
    }
}

/// Runs one full tick over the given distance readings.
///
/// Advances every key, the gesture state, and — exactly when the gesture
/// fires — the rotation, and returns the commands to dispatch, in order.
pub fn tick(
    c: &Config,
    keys: &mut Vec<Key>,
    gesture: &mut GestureState,
    rotator: &mut Rotator,
    distances: &Vec<u8>,
) -> (cmds: Vec<Command>)
    requires
        c.wf(),
        old(keys)@.len() == CHANNELS,
        forall|i: int| 0 <= i < CHANNELS ==> (#[trigger] old(keys)@[i]).wf(),
        old(gesture).wf(),
        old(rotator).wf(*c),
        distances@.len() == CHANNELS,
    ensures
        final(keys)@ == spec_keys_next(old(keys)@, distances@, *c),
        final(keys)@.len() == CHANNELS,
        forall|i: int| 0 <= i < CHANNELS ==> (#[trigger] final(keys)@[i]).wf(),
        *final(gesture) == spec_gesture_next(
            *old(gesture),
            spec_gesture_code(distances@) as u8,
        ),
        final(gesture).wf(),
        final(rotator).current_index as int == if spec_gesture_fires(
            *old(gesture),
            spec_gesture_code(distances@) as u8,
            c.gesture_trigger_code,
        ) {
            spec_rotate_next(*old(rotator), *c)
        } else {
            old(rotator).current_index as int
        },
        final(rotator).wf(*c),
        cmds@ == spec_tick_commands(old(keys)@, *old(gesture), *old(rotator), distances@, *c),
{
    let ghost keys0 = keys@;
    let mut cmds: Vec<Command> = Vec::new();
    let mut new_keys: Vec<Key> = Vec::new();
    let mut i: usize = 0;
    while i < CHANNELS
        invariant
            i <= CHANNELS,
            c.wf(),
            keys@ == keys0,
            keys0.len() == CHANNELS,
            distances@.len() == CHANNELS,
            forall|j: int| 0 <= j < CHANNELS ==> (#[trigger] keys0[j]).wf(),
            new_keys@.len() == i,
            forall|j: int|
                0 <= j < i ==> #[trigger] new_keys@[j] == spec_key_next(
                    keys0[j],
                    spec_map_note(*c, distances@[j], j as u8),
                ),
            forall|j: int| 0 <= j < i ==> (#[trigger] new_keys@[j]).wf(),
            cmds@ == spec_key_commands_upto(keys0, distances@, *c, i as int),
        decreases CHANNELS - i,
    {
        let mapped = map_note(c, distances[i], i as u8);
        let mut key = keys[i];
        let mut channel_cmds = key_tick(&mut key, i as u8, mapped, c.velocity);
        cmds.append(&mut channel_cmds);
        new_keys.push(key);
        i = i + 1;
    }
    *keys = new_keys;
    assert(keys@ =~= spec_keys_next(keys0, distances@, *c));
    let code = gesture_code(distances);
    let fired = gesture_tick(gesture, code, c.gesture_trigger_code);
    if fired {
        let mut rotate_cmds = rotate(rotator, keys, c);
        cmds.append(&mut rotate_cmds);
    }
    cmds
}

} // verus!
