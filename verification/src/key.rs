//! Per-channel key state: when a held note starts and stops.
//!
//! Each channel is either silent (`note == 0`) or sounding (`note != 0`).
//! A covered channel switches notes immediately; an uncovered channel keeps
//! its note sounding through a debounce window of `RELEASE_TICKS`
//! consecutive uncovered ticks, and the release fires exactly on the last
//! tick of that window.

use vstd::prelude::*;
use crate::command::Command;
use crate::config::CHANNELS;

verus! {

/// Consecutive uncovered ticks a sounding note survives before release.
pub const RELEASE_TICKS: u8 = 100;

/// State associated with each key.
#[derive(Clone, Copy, PartialEq, Eq, Structural, Debug)]
pub struct Key {
    /// The MIDI note number for the currently playing note, or 0 for no note.
    pub note: u8,
    /// Count of consecutive uncovered ticks while the note keeps sounding.
    pub counter: u8,
}

impl Key {
    /// The counter counts uncovered ticks of a sounding note, so it is
    /// nonzero only while a note plays, and it resets before ever reaching
    /// the release threshold.
    pub open spec fn wf(&self) -> bool {
        &&& self.counter < RELEASE_TICKS
        &&& self.counter > 0 ==> self.note != 0
    }

    /// A silent key with a cleared counter.
    pub fn new() -> (k: Key)
        ensures
            k.note == 0,
            k.counter == 0,
            k.wf(),
    {
        Key { note: 0, counter: 0 }
    }

    /// Switches to a new note; the release counter resets whenever the note
    /// changes.
    pub fn set_note(&mut self, n: u8)
        ensures
            final(self).note == n,
            final(self).counter == 0,
            final(self).wf(),
    {
        self.note = n;
        self.counter = 0;
    }
}

/// The key state after one tick, given the mapped note for the channel.
///
/// A covered channel (`mapped` is `Some`) keeps its state when the note is
/// unchanged and otherwise switches to the new note with a cleared counter.
/// An uncovered, sounding channel counts up; on the tick that completes the
/// debounce window it falls silent. An uncovered, silent channel is
/// untouched.
pub open spec fn spec_key_next(k: Key, mapped: Option<u8>) -> Key {
    match mapped {
        Some(n) => if n == k.note {
            k
        } else {
            Key { note: n, counter: 0 }
        },
        None => if k.note != 0 {
            if k.counter + 1 == RELEASE_TICKS {
                Key { note: 0, counter: 0 }
            } else {
                Key { note: k.note, counter: (k.counter + 1) as u8 }
            }
        } else {
            k
        },
    }
}

/// The commands one tick of a key emits, in order.
///
/// Switching away from a sounding note stops it before the new note starts;
/// a completed debounce window stops the sounding note; everything else is
/// silent.
pub open spec fn spec_key_commands(
    k: Key,
    channel_index: u8,
    mapped: Option<u8>,
    velocity: u8,
) -> Seq<Command>
    recommends
        channel_index < CHANNELS,
{
    let channel = (channel_index + 1) as u8;
    match mapped {
        Some(n) => if n == k.note {
            Seq::empty()
        } else if k.note != 0 {
            seq![
                Command::NoteOff { channel, note: k.note },
                Command::NoteOn { channel, note: n, velocity },
            ]
        } else {
            seq![Command::NoteOn { channel, note: n, velocity }]
        },
        None => if k.note != 0 && k.counter + 1 == RELEASE_TICKS {
            seq![Command::NoteOff { channel, note: k.note }]
        } else {
            Seq::empty()
        },
    }
}

/// Advances one key by one tick and returns the commands to dispatch, in
/// order.
pub fn key_tick(key: &mut Key, channel_index: u8, mapped: Option<u8>, velocity: u8) -> (cmds: Vec<
    Command,
>)
    requires
        old(key).wf(),
        channel_index < CHANNELS as u8,
    ensures
        *final(key) == spec_key_next(*old(key), mapped),
        final(key).wf(),
        cmds@ == spec_key_commands(*old(key), channel_index, mapped, velocity),
{
    let channel = channel_index + 1;
    let mut cmds: Vec<Command> = Vec::new();
    match mapped {
        Some(n) => {
            if n != key.note {
                if key.note != 0 {
                    cmds.push(Command::NoteOff { channel, note: key.note });
                }
                key.set_note(n);
                cmds.push(Command::NoteOn { channel, note: n, velocity });
            }
        },
        None => {
            if key.note != 0 {
                key.counter = key.counter + 1;
                if key.counter == RELEASE_TICKS {
                    cmds.push(Command::NoteOff { channel, note: key.note });
                    key.set_note(0);
                }
            }
        },
    }
    assert(cmds@ =~= spec_key_commands(*old(key), channel_index, mapped, velocity));
    cmds
}

/// A key already sounding a note never emits a `NoteOn` for that same note:
/// a tick either keeps the note silent on the wire or switches to a
/// different one.
pub proof fn lemma_no_redundant_note_on(k: Key, channel_index: u8, mapped: Option<u8>, velocity: u8)
    requires
        k.note != 0,
    ensures
        forall|i: int|
            0 <= i < spec_key_commands(k, channel_index, mapped, velocity).len()
                ==> (#[trigger] spec_key_commands(k, channel_index, mapped, velocity)[i] matches Command::NoteOn {
                note,
                ..
            } ==> note != k.note),
{
}

/// The key state after `t` consecutive uncovered ticks.
pub open spec fn key_after_uncovered(k: Key, t: nat) -> Key
    decreases t,
{
    if t == 0 {
        k
    } else {
        spec_key_next(key_after_uncovered(k, (t - 1) as nat), None)
    }
}

/// While the debounce window of a sounding key is still open, each uncovered
/// tick only counts up: after `t < RELEASE_TICKS` uncovered ticks the note
/// still sounds and the counter reads exactly `t`.
pub proof fn lemma_release_counts(k: Key, t: nat)
    requires
        k.wf(),
        k.note != 0,
        k.counter == 0,
        t < RELEASE_TICKS,
    ensures
        key_after_uncovered(k, t) == (Key { note: k.note, counter: t as u8 }),
    decreases t,
{
    if t > 0 {
        lemma_release_counts(k, (t - 1) as nat);
    }
}

/// The debounced release of a sounding key fires on exactly the
/// `RELEASE_TICKS`-th consecutive uncovered tick: every earlier tick emits
/// nothing and keeps the note, and that tick emits a single `note_off` and
/// silences the key.
pub proof fn lemma_release_fires_on_final_tick(k: Key, channel_index: u8, velocity: u8, t: nat)
    requires
        k.wf(),
        k.note != 0,
        k.counter == 0,
        channel_index < CHANNELS,
        1 <= t <= RELEASE_TICKS,
    ensures
        t < RELEASE_TICKS ==> spec_key_commands(
            key_after_uncovered(k, (t - 1) as nat),
            channel_index,
            None,
            velocity,
        ) =~= Seq::<Command>::empty(),
        t < RELEASE_TICKS ==> key_after_uncovered(k, t).note == k.note,
        t == RELEASE_TICKS ==> spec_key_commands(
            key_after_uncovered(k, (t - 1) as nat),
            channel_index,
            None,
            velocity,
        ) =~= seq![
            Command::NoteOff { channel: (channel_index + 1) as u8, note: k.note },
        ],
        t == RELEASE_TICKS ==> key_after_uncovered(k, t) == (Key { note: 0, counter: 0 }),
{
    lemma_release_counts(k, (t - 1) as nat);
}

} // verus!
