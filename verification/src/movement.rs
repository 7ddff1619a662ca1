//! The movement/input resolver: turns one frame's input snapshot into a
//! displacement, a new facing, and the attack/run flags, and applies them to
//! the player state in place.

use vstd::prelude::*;
use crate::player::{FrameInput, PlayerState, Vec2i, RUN_SPEED, WALK_SPEED};

verus! {

/// Distance moved per frame on an active axis: doubled while running.
pub open spec fn speed_of(running: bool) -> int {
    if running {
        RUN_SPEED as int
    } else {
        WALK_SPEED as int
    }
}

/// Net horizontal displacement this frame: every active signal contributes,
/// so opposing signals cancel.
pub open spec fn displacement_x(input: FrameInput, speed: int) -> int {
    (if input.left { -speed } else { 0 }) + (if input.right { speed } else { 0 })
}

/// Net vertical displacement this frame (up is positive).
pub open spec fn displacement_y(input: FrameInput, speed: int) -> int {
    (if input.up { speed } else { 0 }) + (if input.down { -speed } else { 0 })
}

/// Whether this frame's net displacement is non-zero; only then are the
/// position and the facing touched.
pub open spec fn moved(pre: PlayerState, input: FrameInput) -> bool {
    ||| displacement_x(input, speed_of(pre.is_running)) != 0
    ||| displacement_y(input, speed_of(pre.is_running)) != 0
}

/// The facing a moving frame resolves to. Each active directional signal
/// overwrites it in the fixed evaluation order left, right, up, down, so the
/// last active one wins; with none active it stays the zero vector (and the
/// frame has no displacement either, so it is never stored).
pub open spec fn new_facing(input: FrameInput) -> Vec2i {
    if input.down {
        Vec2i { x: 0i64, y: -1i64 }
    } else if input.up {
        Vec2i { x: 0i64, y: 1i64 }
    } else if input.right {
        Vec2i { x: 1i64, y: 0i64 }
    } else if input.left {
        Vec2i { x: -1i64, y: 0i64 }
    } else {
        Vec2i { x: 0i64, y: 0i64 }
    }
}

/// The attack flag after a frame: set on the rising edge of the attack
/// signal, cleared on its falling edge, and untouched between edges.
pub open spec fn next_attacking(held_before: bool, was_attacking: bool, signal: bool) -> bool {
    if signal && !held_before {
        true
    } else if !signal && held_before {
        false
    } else {
        was_attacking
    }
}

/// Whether this frame's displacement keeps the position within `i64`.
pub open spec fn can_resolve(pre: PlayerState, input: FrameInput) -> bool {
    let speed = speed_of(pre.is_running);
    &&& i64::MIN <= pre.position.x + displacement_x(input, speed) <= i64::MAX
    &&& i64::MIN <= pre.position.y + displacement_y(input, speed) <= i64::MAX
}

/// The whole state one resolver step produces from `pre` under `input`.
pub open spec fn resolve_spec(pre: PlayerState, input: FrameInput) -> PlayerState {
    let speed = speed_of(pre.is_running);
    let dx = displacement_x(input, speed);
    let dy = displacement_y(input, speed);
    PlayerState {
        facing: if moved(pre, input) {
            new_facing(input)
        } else {
            pre.facing
        },
        is_attacking: next_attacking(pre.attack_signal_held, pre.is_attacking, input.attack),
        is_running: input.run,
        position: if moved(pre, input) {
            Vec2i { x: (pre.position.x + dx) as i64, y: (pre.position.y + dy) as i64 }
        } else {
            pre.position
        },
        sprite_cell_index: pre.sprite_cell_index,
        attack_signal_held: input.attack,
    }
}

/// Resolve one frame of input against the player state, in place.
///
/// The speed is taken from the run flag as it stood at the start of the
/// frame; the flag itself is then refreshed from the run signal, so a newly
/// pressed run modifier takes effect on the next frame's displacement.
pub fn resolve_movement(state: &mut PlayerState, input: FrameInput)
    requires
        can_resolve(*old(state), input),
    ensures
        *final(state) == resolve_spec(*old(state), input),
        final(state).position.x == old(state).position.x
            + displacement_x(input, speed_of(old(state).is_running)),
        final(state).position.y == old(state).position.y
            + displacement_y(input, speed_of(old(state).is_running)),
        old(state).wf() ==> final(state).wf(),
{
    let speed: i64 = if state.is_running {
        RUN_SPEED
    } else {
        WALK_SPEED
    };
    let mut dx: i64 = 0;
    let mut dy: i64 = 0;
    let mut facing = Vec2i { x: 0, y: 0 };
    if input.left {
        dx = dx - speed;
        facing = Vec2i { x: -1, y: 0 };
    }
    if input.right {
        dx = dx + speed;
        facing = Vec2i { x: 1, y: 0 };
    }
    if input.up {
        dy = dy + speed;
        facing = Vec2i { x: 0, y: 1 };
    }
    if input.down {
        dy = dy - speed;
        facing = Vec2i { x: 0, y: -1 };
    }
    if input.attack && !state.attack_signal_held {
        state.is_attacking = true;
    } else if !input.attack && state.attack_signal_held {
        state.is_attacking = false;
    }
    state.attack_signal_held = input.attack;
    state.is_running = input.run;
    if dx != 0 || dy != 0 {
        state.position = Vec2i { x: state.position.x + dx, y: state.position.y + dy };
        state.facing = facing;
    }
}

/// Law: with both members of each opposing pair equally held (both or
/// neither), the frame's net displacement is zero and the resolver leaves
/// the position and the facing exactly as they were, even though individual
/// signals may have been active.
pub proof fn lemma_net_zero_input(pre: PlayerState, input: FrameInput)
    requires
        input.left == input.right,
        input.up == input.down,
    ensures
        !moved(pre, input),
        resolve_spec(pre, input).position == pre.position,
        resolve_spec(pre, input).facing == pre.facing,
{
}

/// Law: a frame with exactly one directional signal held changes the
/// position by the current speed on that signal's axis alone, and turns the
/// facing to that signal's unit vector, both in the same frame.
pub proof fn lemma_single_direction(pre: PlayerState, input: FrameInput)
    requires
        can_resolve(pre, input),
    ensures
        (input.left && !input.right && !input.up && !input.down) ==> (
            resolve_spec(pre, input).position.x == pre.position.x - speed_of(pre.is_running)
            && resolve_spec(pre, input).position.y == pre.position.y
            && resolve_spec(pre, input).facing == (Vec2i { x: -1i64, y: 0i64 })
        ),
        (input.right && !input.left && !input.up && !input.down) ==> (
            resolve_spec(pre, input).position.x == pre.position.x + speed_of(pre.is_running)
            && resolve_spec(pre, input).position.y == pre.position.y
            && resolve_spec(pre, input).facing == (Vec2i { x: 1i64, y: 0i64 })
        ),
        (input.up && !input.left && !input.right && !input.down) ==> (
            resolve_spec(pre, input).position.y == pre.position.y + speed_of(pre.is_running)
            && resolve_spec(pre, input).position.x == pre.position.x
            && resolve_spec(pre, input).facing == (Vec2i { x: 0i64, y: 1i64 })
        ),
        (input.down && !input.left && !input.right && !input.up) ==> (
            resolve_spec(pre, input).position.y == pre.position.y - speed_of(pre.is_running)
            && resolve_spec(pre, input).position.x == pre.position.x
            && resolve_spec(pre, input).facing == (Vec2i { x: 0i64, y: -1i64 })
        ),
{
}

/// Law: the run modifier doubles the per-frame displacement on each active
/// axis, from 2 to 4 distance units.
pub proof fn lemma_run_doubles_displacement(input: FrameInput)
    ensures
        speed_of(false) == 2,
        speed_of(true) == 4,
        displacement_x(input, speed_of(true)) == 2 * displacement_x(input, speed_of(false)),
        displacement_y(input, speed_of(true)) == 2 * displacement_y(input, speed_of(false)),
{
}

/// Law: the attack flag moves only on edges of the attack signal. A frame
/// whose signal level equals the level seen last frame leaves the flag
/// untouched; a rising edge sets it and a falling edge clears it.
pub proof fn lemma_attack_edges_only(pre: PlayerState, input: FrameInput)
    ensures
        input.attack == pre.attack_signal_held ==> resolve_spec(
            pre,
            input,
        ).is_attacking == pre.is_attacking,
        input.attack && !pre.attack_signal_held ==> resolve_spec(pre, input).is_attacking,
        !input.attack && pre.attack_signal_held ==> !resolve_spec(pre, input).is_attacking,
        resolve_spec(pre, input).attack_signal_held == input.attack,
{
}

/// Law: holding the attack signal across consecutive frames without a
/// release triggers no further transition after the first frame: the second
/// of two such frames leaves the flag where the first put it.
pub proof fn lemma_attack_hold_no_retrigger(pre: PlayerState, first: FrameInput, later: FrameInput)
    requires
        first.attack,
        later.attack,
    ensures
        resolve_spec(resolve_spec(pre, first), later).is_attacking == resolve_spec(
            pre,
            first,
        ).is_attacking,
{
}

} // verus!
