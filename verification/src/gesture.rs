//! Gesture recognition over the composite proximity pattern.
//!
//! Each tick the eight channels are folded into one 8-bit code, one bit per
//! channel that reads closer than a fixed proximity threshold. A code that
//! stays stable for `STABLE_TICKS` consecutive ticks is evaluated once: if
//! it equals the configured trigger code, the instrument rotation fires.
//! Either way the window restarts, so a sustained code is evaluated at most
//! once per window.

use vstd::prelude::*;
use crate::config::CHANNELS;

verus! {

/// Distances below this value count as "close" for gesture purposes. This
/// threshold is independent from the per-note coverage threshold.
pub const CLOSE_DISTANCE: u8 = 15;

/// Consecutive ticks a code must stay stable before it is evaluated.
pub const STABLE_TICKS: u8 = 100;

/// Debounce state for the composite proximity code.
#[derive(Clone, Copy, PartialEq, Eq, Structural, Debug)]
pub struct GestureState {
    /// The last observed composite code.
    pub last_code: u8,
    /// Consecutive ticks the last code has repeated.
    pub counter: u8,
}

impl GestureState {
    /// The stability counter resets before ever reaching the threshold.
    pub open spec fn wf(&self) -> bool {
        self.counter < STABLE_TICKS
    }

    /// The startup state: code 0, nothing counted yet.
    pub fn new() -> (g: GestureState)
        ensures
            g.last_code == 0,
            g.counter == 0,
            g.wf(),
    {
        GestureState { last_code: 0, counter: 0 }
    }
}

/// The composite proximity code: bit `i` is set exactly when channel `i`
/// reads closer than `CLOSE_DISTANCE`.
pub open spec fn spec_gesture_code(d: Seq<u8>) -> int
    recommends
        d.len() == CHANNELS,
{
    (if d[0] < CLOSE_DISTANCE { 1int } else { 0int })
    + (if d[1] < CLOSE_DISTANCE { 2int } else { 0int })
    + (if d[2] < CLOSE_DISTANCE { 4int } else { 0int })
    + (if d[3] < CLOSE_DISTANCE { 8int } else { 0int })
    + (if d[4] < CLOSE_DISTANCE { 16int } else { 0int })
    + (if d[5] < CLOSE_DISTANCE { 32int } else { 0int })
    + (if d[6] < CLOSE_DISTANCE { 64int } else { 0int })
    + (if d[7] < CLOSE_DISTANCE { 128int } else { 0int })
}

/// Folds the eight distance readings into the composite proximity code.
pub fn gesture_code(distances: &Vec<u8>) -> (code: u8)
    requires
        distances@.len() == CHANNELS,
    ensures
        code as int == spec_gesture_code(distances@),
{
    let mut code: u8 = 0;
    if distances[0] < CLOSE_DISTANCE {
        code = code + 1;
    }
    if distances[1] < CLOSE_DISTANCE {
        code = code + 2;
    }
    if distances[2] < CLOSE_DISTANCE {
        code = code + 4;
    }
    if distances[3] < CLOSE_DISTANCE {
        code = code + 8;
    }
    if distances[4] < CLOSE_DISTANCE {
        code = code + 16;
    }
    if distances[5] < CLOSE_DISTANCE {
        code = code + 32;
    }
    if distances[6] < CLOSE_DISTANCE {
        code = code + 64;
    }
    if distances[7] < CLOSE_DISTANCE {
        code = code + 128;
    }
    code
}

/// The gesture state after one tick that observed `code`.
///
/// A repeated code counts up; completing the window resets the counter so a
/// sustained code starts a fresh window. A changed code restarts the count
/// at zero under the new code.
pub open spec fn spec_gesture_next(g: GestureState, code: u8) -> GestureState {
    if code == g.last_code {
        if g.counter + 1 == STABLE_TICKS {
            GestureState { last_code: g.last_code, counter: 0 }
        } else {
            GestureState { last_code: g.last_code, counter: (g.counter + 1) as u8 }
        }
    } else {
        GestureState { last_code: code, counter: 0 }
    }
}

/// Whether this tick completes a stable window whose code is the trigger:
/// only then does the instrument rotation fire.
pub open spec fn spec_gesture_fires(g: GestureState, code: u8, trigger: u8) -> bool {
    &&& code == g.last_code
    &&& g.counter + 1 == STABLE_TICKS
    &&& code == trigger
}

/// Advances the gesture state by one tick and reports whether the rotation
/// fires on this tick.
pub fn gesture_tick(g: &mut GestureState, code: u8, trigger: u8) -> (fired: bool)
    requires
        old(g).wf(),
    ensures
        *final(g) == spec_gesture_next(*old(g), code),
        final(g).wf(),
        fired == spec_gesture_fires(*old(g), code, trigger),
{
    let mut fired = false;
    if code == g.last_code {
        g.counter = g.counter + 1;
        if g.counter == STABLE_TICKS {
            if code == trigger {
                fired = true;
            }
            g.counter = 0;
        }
    } else {
        g.last_code = code;
        g.counter = 0;
    }
    fired
}

/// A rotation fires only on a code that both repeats the observed code and
/// equals the configured trigger, and only on the tick that completes the
/// stable window.
pub proof fn lemma_fires_only_on_stable_trigger(g: GestureState, code: u8, trigger: u8)
    ensures
        spec_gesture_fires(g, code, trigger) ==> code == trigger && code == g.last_code
            && g.counter + 1 == STABLE_TICKS,
{
}

/// The gesture state after `t` further ticks that all observe `code`.
pub open spec fn gesture_after(g: GestureState, code: u8, t: nat) -> GestureState
    decreases t,
{
    if t == 0 {
        g
    } else {
        spec_gesture_next(gesture_after(g, code, (t - 1) as nat), code)
    }
}

/// Within an open window over an unchanged code, each tick only counts up:
/// after `t < STABLE_TICKS` ticks the counter reads exactly `t`.
pub proof fn lemma_stability_counts(g: GestureState, code: u8, t: nat)
    requires
        g.last_code == code,
        g.counter == 0,
        t < STABLE_TICKS,
    ensures
        gesture_after(g, code, t) == (GestureState { last_code: code, counter: t as u8 }),
    decreases t,
{
    if t > 0 {
        lemma_stability_counts(g, code, (t - 1) as nat);
    }
}

/// A rotation fires at most once per stable window: once it fires, none of
/// the following `STABLE_TICKS - 1` ticks of the same sustained code fires
/// again.
pub proof fn lemma_at_most_once_per_window(g: GestureState, code: u8, trigger: u8, t: nat)
    requires
        g.wf(),
        spec_gesture_fires(g, code, trigger),
        1 <= t < STABLE_TICKS,
    ensures
        !spec_gesture_fires(
            gesture_after(spec_gesture_next(g, code), code, (t - 1) as nat),
            code,
            trigger,
        ),
{
    lemma_stability_counts(spec_gesture_next(g, code), code, (t - 1) as nat);
}

} // verus!
