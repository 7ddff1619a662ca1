//! One scheduler frame over the whole core: movement resolution first, then
//! the animation state machine, in that order, so the animation reads the
//! facing and attack flag the resolver has just written.

use vstd::prelude::*;
use crate::animation::{advance_animation, animate_spec, timer_after, timer_expires, AnimationTimer};
use crate::movement::{can_resolve, resolve_movement, resolve_spec};
use crate::player::{FrameInput, PlayerState};

verus! {

/// Run one full frame: resolve this frame's input against the player state,
/// then advance the animation timer by `delta_ns` and, on expiry, the
/// sprite cell. The cell is recomputed from the facing and attack flag as
/// the resolver left them, never from the previous frame's values.
pub fn frame_update(
    state: &mut PlayerState,
    timer: &mut AnimationTimer,
    input: FrameInput,
    delta_ns: u64,
)
    requires
        can_resolve(*old(state), input),
    ensures
        *final(timer) == timer_after(*old(timer), delta_ns),
        final(timer).wf(),
        *final(state) == animate_spec(
            resolve_spec(*old(state), input),
            timer_expires(*old(timer), delta_ns),
        ),
        old(state).wf() ==> final(state).wf(),
{
    resolve_movement(state, input);
    advance_animation(state, timer, delta_ns);
}

} // verus!
