//! The animation state machine: a repeating frame timer and the rule that
//! picks the next sprite-sheet cell on each expiry.

use vstd::prelude::*;
use crate::player::{PlayerState, Vec2i, ATTACK_CELL, SHEET_COLS, SHEET_ROWS};
use crate::player::facing_is_legal;

verus! {

/// The timer's fixed period: 0.1 time-units, counted in nanoseconds.
pub const TIMER_PERIOD_NS: u64 = 100_000_000;

/// A repeating countdown. It accumulates elapsed time; the tick that carries
/// it to or past the period reports an expiry and immediately re-arms it,
/// keeping the overshoot beyond the period.
pub struct AnimationTimer {
    pub elapsed_ns: u64,
}

/// The accumulated time after a tick of `delta_ns`: the sum, wrapped back
/// into the period on expiry.
pub open spec fn timer_after(t: AnimationTimer, delta_ns: u64) -> AnimationTimer {
    AnimationTimer { elapsed_ns: ((t.elapsed_ns + delta_ns) % (TIMER_PERIOD_NS as int)) as u64 }
}

/// Whether a tick of `delta_ns` carries the timer to or past its period.
pub open spec fn timer_expires(t: AnimationTimer, delta_ns: u64) -> bool {
    t.elapsed_ns + delta_ns >= TIMER_PERIOD_NS
}

impl AnimationTimer {
    /// A timer always holds strictly less than one full period.
    pub open spec fn wf(self) -> bool {
        self.elapsed_ns < TIMER_PERIOD_NS
    }

    /// A freshly armed timer, with the whole period ahead of it.
    pub fn new() -> (t: AnimationTimer)
        ensures
            t.elapsed_ns == 0,
            t.wf(),
    {
        AnimationTimer { elapsed_ns: 0 }
    }

    /// Advance the timer by `delta_ns` and report whether it expired on this
    /// tick. However far past the period one tick reaches, it reports a
    /// single expiry: the machine never batches missed periods.
    pub fn tick(&mut self, delta_ns: u64) -> (expired: bool)
        ensures
            expired == timer_expires(*old(self), delta_ns),
            *final(self) == timer_after(*old(self), delta_ns),
            final(self).wf(),
    {
        let total: u128 = self.elapsed_ns as u128 + delta_ns as u128;
        let expired: bool = total >= TIMER_PERIOD_NS as u128;
        self.elapsed_ns = (total % (TIMER_PERIOD_NS as u128)) as u64;
        expired
    }
}

/// The sheet row that a facing selects: up, down, left and right walk on
/// rows 0 to 3; anything else, the zero vector included, falls back to the
/// down row.
pub open spec fn row_of_facing(f: Vec2i) -> int {
    if f.x == 0 && f.y == 1 {
        0
    } else if f.x == 0 && f.y == -1 {
        1
    } else if f.x == -1 && f.y == 0 {
        2
    } else if f.x == 1 && f.y == 0 {
        3
    } else {
        1
    }
}

/// The column a cell index lies in.
pub open spec fn column_of(cell: int) -> int {
    cell % (SHEET_COLS as int)
}

/// One step of the walk cycle: the next column after `col`, wrapping after
/// the last column of the row.
pub open spec fn next_column(col: int) -> int {
    (col % (SHEET_COLS as int) + 1) % (SHEET_COLS as int)
}

/// The cell shown after an expiry: the fixed attack cell while attacking;
/// otherwise the facing's row with the walk column advanced by one. The
/// column phase carries over from whatever row was shown before, so a change
/// of facing does not reset the cycle.
pub open spec fn next_cell(prev: u32, facing: Vec2i, attacking: bool) -> int {
    if attacking {
        ATTACK_CELL as int
    } else {
        next_column(prev as int) + row_of_facing(facing) * (SHEET_COLS as int)
    }
}

/// Exec counterpart of `row_of_facing`.
pub fn row_for_facing(f: Vec2i) -> (row: u32)
    ensures
        row as int == row_of_facing(f),
        row < 4,
{
    if f.x == 0 && f.y == 1 {
        0
    } else if f.x == 0 && f.y == -1 {
        1
    } else if f.x == -1 && f.y == 0 {
        2
    } else if f.x == 1 && f.y == 0 {
        3
    } else {
        1
    }
}

/// Exec counterpart of `next_cell`. The result always lies in the four walk
/// rows or on the attack cell, so in particular within the sheet.
pub fn advance_cell(prev: u32, facing: Vec2i, attacking: bool) -> (cell: u32)
    ensures
        cell as int == next_cell(prev, facing, attacking),
        cell < SHEET_COLS * SHEET_ROWS,
{
    if attacking {
        ATTACK_CELL
    } else {
        let row: u32 = row_for_facing(facing);
        (prev % SHEET_COLS + 1) % SHEET_COLS + row * SHEET_COLS
    }
}

/// The player state after the animation machine ran with expiry flag
/// `expired`: only the sprite cell can change, and only on an expiry.
pub open spec fn animate_spec(pre: PlayerState, expired: bool) -> PlayerState {
    PlayerState {
        sprite_cell_index: if expired {
            next_cell(pre.sprite_cell_index, pre.facing, pre.is_attacking) as u32
        } else {
            pre.sprite_cell_index
        },
        ..pre
    }
}

/// Run the animation state machine for one frame: advance the timer by
/// `delta_ns` and, only if it expires on this tick, recompute the sprite
/// cell from the current facing and attack flag.
pub fn advance_animation(state: &mut PlayerState, timer: &mut AnimationTimer, delta_ns: u64)
    ensures
        *final(timer) == timer_after(*old(timer), delta_ns),
        final(timer).wf(),
        *final(state) == animate_spec(*old(state), timer_expires(*old(timer), delta_ns)),
        old(state).wf() ==> final(state).wf(),
{
    let expired: bool = timer.tick(delta_ns);
    if expired {
        state.sprite_cell_index = advance_cell(state.sprite_cell_index, state.facing, state.is_attacking);
    }
}

/// The column shown after `n` walk-cycle advances starting from `col`.
pub open spec fn column_after_steps(col: int, n: nat) -> int
    decreases n,
{
    if n == 0 {
        col % (SHEET_COLS as int)
    } else {
        next_column(column_after_steps(col, (n - 1) as nat))
    }
}

/// Law: row lookup maps the four legal facings to the documented rows
/// (up to 0, down to 1, left to 2, right to 3), and every other vector, the
/// zero vector included, to the down row.
pub proof fn lemma_row_lookup(f: Vec2i)
    ensures
        row_of_facing(Vec2i { x: 0i64, y: 1i64 }) == 0,
        row_of_facing(Vec2i { x: 0i64, y: -1i64 }) == 1,
        row_of_facing(Vec2i { x: -1i64, y: 0i64 }) == 2,
        row_of_facing(Vec2i { x: 1i64, y: 0i64 }) == 3,
        !facing_is_legal(f) ==> row_of_facing(f) == 1,
{
}

/// The iterated advance follows the closed form `(col + n) % 9`.
pub proof fn lemma_column_after_steps_formula(col: int, n: nat)
    requires
        0 <= col,
    ensures
        column_after_steps(col, n) == (col + n) % (SHEET_COLS as int),
    decreases n,
{
    let m: int = SHEET_COLS as int;
    if n > 0 {
        lemma_column_after_steps_formula(col, (n - 1) as nat);
        let prev: int = (col + n - 1) % m;
        vstd::arithmetic::div_mod::lemma_mod_bound(col + n - 1, m);
        vstd::arithmetic::div_mod::lemma_small_mod(prev as nat, m as nat);
        vstd::arithmetic::div_mod::lemma_add_mod_noop(col + n - 1, 1, m);
        vstd::arithmetic::div_mod::lemma_small_mod(1nat, m as nat);
        assert(next_column(prev) == (col + n) % m);
    }
}

/// Law: the walk-cycle advance is a cycle whose length is the width of the
/// sheet: nine advances return any column to where it started.
pub proof fn lemma_column_cycle(col: int)
    requires
        0 <= col < SHEET_COLS as int,
    ensures
        column_after_steps(col, SHEET_COLS as nat) == col,
{
    let m: int = SHEET_COLS as int;
    lemma_column_after_steps_formula(col, SHEET_COLS as nat);
    vstd::arithmetic::div_mod::lemma_mod_add_multiples_vanish(col, m);
    vstd::arithmetic::div_mod::lemma_small_mod(col as nat, m as nat);
}

/// Law: an expiry while attacking yields the fixed attack cell, whatever
/// the facing and whatever cell was shown before.
pub proof fn lemma_attack_overrides(prev: u32, facing: Vec2i)
    ensures
        next_cell(prev, facing, true) == ATTACK_CELL as int,
{
}

/// Law: a tick that expires the timer advances the sprite cell exactly
/// once, however many whole periods the tick's elapsed time spans: missed
/// periods are never batched into extra advances.
pub proof fn lemma_single_advance_per_tick(pre: PlayerState, t: AnimationTimer, delta_ns: u64)
    requires
        timer_expires(t, delta_ns),
    ensures
        animate_spec(pre, timer_expires(t, delta_ns)).sprite_cell_index as int == next_cell(
            pre.sprite_cell_index,
            pre.facing,
            pre.is_attacking,
        ),
{
}

/// Law: accumulating exactly one period expires the timer and re-arms it
/// with the whole period ahead of it again.
pub proof fn lemma_exact_period_expiry(t: AnimationTimer, delta_ns: u64)
    requires
        t.elapsed_ns + delta_ns == TIMER_PERIOD_NS,
    ensures
        timer_expires(t, delta_ns),
        timer_after(t, delta_ns).elapsed_ns == 0,
{
}

} // verus!
