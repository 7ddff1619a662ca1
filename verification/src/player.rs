//! The player's data model: 2D integer vectors, the per-frame input
//! snapshot, and the full player state with its well-formedness invariant.

use vstd::prelude::*;

verus! {

/// Columns per row of the sprite sheet.
pub const SHEET_COLS: u32 = 9;

/// Rows of the sprite sheet (rows 4 to 7 exist in the asset but are
/// reserved: no rule below ever selects them).
pub const SHEET_ROWS: u32 = 8;

/// The single attack cell, shown regardless of facing.
pub const ATTACK_CELL: u32 = 8;

/// Distance units moved per frame on an active axis while walking.
pub const WALK_SPEED: i64 = 2;

/// Distance units moved per frame on an active axis while running.
pub const RUN_SPEED: i64 = 4;

/// A 2D vector with integer components, used both for positions (distance
/// units) and for the axis-aligned unit facing directions.
#[derive(Clone, Copy, Debug, PartialEq, Eq, Structural)]
pub struct Vec2i {
    pub x: i64,
    pub y: i64,
}

/// One frame's input snapshot: the level (held or not) of each of the four
/// movement signals, the attack signal and the run modifier.
#[derive(Clone, Copy, Debug, PartialEq, Eq, Structural)]
pub struct FrameInput {
    pub left: bool,
    pub right: bool,
    pub up: bool,
    pub down: bool,
    pub attack: bool,
    pub run: bool,
}

/// The state of one controllable character.
#[derive(Clone, Copy, Debug, PartialEq, Eq, Structural)]
pub struct PlayerState {
    /// The last non-zero axis-aligned direction the player moved in;
    /// persists across frames without movement.
    pub facing: Vec2i,
    /// Set on the rising edge of the attack signal, cleared on its falling
    /// edge, untouched between edges.
    pub is_attacking: bool,
    /// Level of the run modifier, re-read every frame.
    pub is_running: bool,
    /// World position, mutated additively on every frame with net movement.
    pub position: Vec2i,
    /// The cell of the sprite sheet to draw, always within the sheet.
    pub sprite_cell_index: u32,
    /// Level of the attack signal seen last frame, kept so the next frame
    /// can detect its edges.
    pub attack_signal_held: bool,
}

/// The four legal facing directions: the axis-aligned unit vectors.
pub open spec fn facing_is_legal(f: Vec2i) -> bool {
    ||| f == (Vec2i { x: 0i64, y: 1i64 })
    ||| f == (Vec2i { x: 0i64, y: -1i64 })
    ||| f == (Vec2i { x: -1i64, y: 0i64 })
    ||| f == (Vec2i { x: 1i64, y: 0i64 })
}

impl PlayerState {
    /// Well-formedness: the facing is one of the four legal unit directions
    /// and the sprite cell lies within the sheet.
    pub open spec fn wf(self) -> bool {
        &&& facing_is_legal(self.facing)
        &&& self.sprite_cell_index < SHEET_COLS * SHEET_ROWS
    }
}

/// The state a freshly spawned player starts in: facing down, idle, at the
/// origin, showing the first cell of the sheet.
pub fn initial_player_state() -> (s: PlayerState)
    ensures
        s == (PlayerState {
            facing: Vec2i { x: 0i64, y: -1i64 },
            is_attacking: false,
            is_running: false,
            position: Vec2i { x: 0i64, y: 0i64 },
            sprite_cell_index: 0u32,
            attack_signal_held: false,
        }),
        s.wf(),
{
    PlayerState {
        facing: Vec2i { x: 0, y: -1 },
        is_attacking: false,
        is_running: false,
        position: Vec2i { x: 0, y: 0 },
        sprite_cell_index: 0,
        attack_signal_held: false,
    }
}

} // verus!
