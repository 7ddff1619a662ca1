use sprite_anim::animation::{advance_animation, advance_cell, row_for_facing, AnimationTimer};
use sprite_anim::frame::frame_update;
use sprite_anim::movement::resolve_movement;
use sprite_anim::player::{initial_player_state, FrameInput, PlayerState, Vec2i};

const PERIOD_NS: u64 = 100_000_000;

fn no_input() -> FrameInput {
    FrameInput { left: false, right: false, up: false, down: false, attack: false, run: false }
}

#[test]
fn initial_state_faces_down_at_origin() {
    let s = initial_player_state();
    assert_eq!(s.facing, Vec2i { x: 0, y: -1 });
    assert_eq!(s.position, Vec2i { x: 0, y: 0 });
    assert_eq!(s.sprite_cell_index, 0);
    assert!(!s.is_attacking);
    assert!(!s.is_running);
}

#[test]
fn row_lookup_maps_legal_facings() {
    assert_eq!(row_for_facing(Vec2i { x: 0, y: 1 }), 0);
    assert_eq!(row_for_facing(Vec2i { x: 0, y: -1 }), 1);
    assert_eq!(row_for_facing(Vec2i { x: -1, y: 0 }), 2);
    assert_eq!(row_for_facing(Vec2i { x: 1, y: 0 }), 3);
}

#[test]
fn row_lookup_falls_back_to_down_row() {
    assert_eq!(row_for_facing(Vec2i { x: 0, y: 0 }), 1);
    assert_eq!(row_for_facing(Vec2i { x: 1, y: 1 }), 1);
    assert_eq!(row_for_facing(Vec2i { x: -1, y: -1 }), 1);
    assert_eq!(row_for_facing(Vec2i { x: 0, y: 2 }), 1);
}

#[test]
fn column_advance_nine_times_returns_to_start() {
    let facing = Vec2i { x: 1, y: 0 };
    for start in 0u32..9u32 {
        let mut cell = start;
        for _ in 0..9 {
            cell = advance_cell(cell, facing, false);
        }
        assert_eq!(cell % 9, start % 9);
    }
    // The phase also survives starting from a cell of another row.
    let mut cell = 17u32;
    for _ in 0..9 {
        cell = advance_cell(cell, facing, false);
    }
    assert_eq!(cell % 9, 17 % 9);
}

#[test]
fn column_wraps_after_last_column() {
    // Column 8 advances to column 0 of the facing's row.
    assert_eq!(advance_cell(17, Vec2i { x: 1, y: 0 }, false), 27);
    assert_eq!(advance_cell(8, Vec2i { x: 0, y: -1 }, false), 9);
}

#[test]
fn attack_overrides_row_and_column() {
    let facings = [
        Vec2i { x: 0, y: 1 },
        Vec2i { x: 0, y: -1 },
        Vec2i { x: -1, y: 0 },
        Vec2i { x: 1, y: 0 },
        Vec2i { x: 0, y: 0 },
    ];
    for f in facings {
        for prev in [0u32, 5, 8, 17, 35, 71] {
            assert_eq!(advance_cell(prev, f, true), 8);
        }
    }
}

#[test]
fn net_zero_input_changes_nothing() {
    let mut s = initial_player_state();
    s.facing = Vec2i { x: 1, y: 0 };
    s.position = Vec2i { x: 7, y: -3 };
    let before = s;
    let input = FrameInput { left: true, right: true, ..no_input() };
    resolve_movement(&mut s, input);
    assert_eq!(s.position, before.position);
    assert_eq!(s.facing, before.facing);
    // All four held: both axes cancel.
    let input = FrameInput { left: true, right: true, up: true, down: true, ..no_input() };
    resolve_movement(&mut s, input);
    assert_eq!(s.position, before.position);
    assert_eq!(s.facing, before.facing);
}

#[test]
fn single_direction_moves_and_turns() {
    let cases = [
        (FrameInput { left: true, ..no_input() }, Vec2i { x: -2, y: 0 }, Vec2i { x: -1, y: 0 }),
        (FrameInput { right: true, ..no_input() }, Vec2i { x: 2, y: 0 }, Vec2i { x: 1, y: 0 }),
        (FrameInput { up: true, ..no_input() }, Vec2i { x: 0, y: 2 }, Vec2i { x: 0, y: 1 }),
        (FrameInput { down: true, ..no_input() }, Vec2i { x: 0, y: -2 }, Vec2i { x: 0, y: -1 }),
    ];
    for (input, delta, facing) in cases {
        let mut s = initial_player_state();
        resolve_movement(&mut s, input);
        assert_eq!(s.position, delta);
        assert_eq!(s.facing, facing);
    }
}

#[test]
fn run_modifier_doubles_displacement() {
    let mut walking = initial_player_state();
    resolve_movement(&mut walking, FrameInput { right: true, ..no_input() });
    assert_eq!(walking.position, Vec2i { x: 2, y: 0 });

    let mut running = initial_player_state();
    running.is_running = true;
    resolve_movement(&mut running, FrameInput { right: true, up: true, ..no_input() });
    assert_eq!(running.position, Vec2i { x: 4, y: 4 });
}

#[test]
fn run_signal_takes_effect_next_frame() {
    // The frame that first holds the run modifier still moves at walk
    // speed: the displacement is computed before the flag is refreshed.
    let mut s = initial_player_state();
    resolve_movement(&mut s, FrameInput { right: true, run: true, ..no_input() });
    assert_eq!(s.position, Vec2i { x: 2, y: 0 });
    assert!(s.is_running);
    resolve_movement(&mut s, FrameInput { right: true, run: true, ..no_input() });
    assert_eq!(s.position, Vec2i { x: 6, y: 0 });
}

#[test]
fn diagonal_moves_both_axes_single_facing() {
    let mut s = initial_player_state();
    resolve_movement(&mut s, FrameInput { right: true, up: true, ..no_input() });
    assert_eq!(s.position, Vec2i { x: 2, y: 2 });
    // Facing resolves to one axis: up is evaluated after right, so it wins.
    assert_eq!(s.facing, Vec2i { x: 0, y: 1 });
}

#[test]
fn facing_persists_without_movement() {
    let mut s = initial_player_state();
    resolve_movement(&mut s, FrameInput { left: true, ..no_input() });
    assert_eq!(s.facing, Vec2i { x: -1, y: 0 });
    resolve_movement(&mut s, no_input());
    assert_eq!(s.facing, Vec2i { x: -1, y: 0 });
    assert_eq!(s.position, Vec2i { x: -2, y: 0 });
}

#[test]
fn timer_expires_at_exact_period() {
    let mut t = AnimationTimer::new();
    assert!(!t.tick(PERIOD_NS - 1));
    assert_eq!(t.elapsed_ns, PERIOD_NS - 1);
    assert!(t.tick(1));
    assert_eq!(t.elapsed_ns, 0);
}

#[test]
fn timer_single_expiry_without_catch_up() {
    // 0.25 time-units in one tick: one expiry, overshoot kept.
    let mut t = AnimationTimer::new();
    assert!(t.tick(2 * PERIOD_NS + PERIOD_NS / 2));
    assert_eq!(t.elapsed_ns, PERIOD_NS / 2);

    let mut s = initial_player_state();
    let mut t = AnimationTimer::new();
    advance_animation(&mut s, &mut t, 2 * PERIOD_NS + PERIOD_NS / 2);
    // One advance, not two: column 1 of the down row, not column 2.
    assert_eq!(s.sprite_cell_index, 10);
}

#[test]
fn animation_only_changes_cell_on_expiry() {
    let mut s = initial_player_state();
    let mut t = AnimationTimer::new();
    advance_animation(&mut s, &mut t, PERIOD_NS / 4);
    assert_eq!(s.sprite_cell_index, 0);
    assert_eq!(t.elapsed_ns, PERIOD_NS / 4);
    advance_animation(&mut s, &mut t, PERIOD_NS);
    assert_eq!(s.sprite_cell_index, 10);
}

#[test]
fn attack_cell_shown_while_attacking() {
    let mut s = initial_player_state();
    s.is_attacking = true;
    s.sprite_cell_index = 22;
    let mut t = AnimationTimer::new();
    advance_animation(&mut s, &mut t, PERIOD_NS);
    assert_eq!(s.sprite_cell_index, 8);
}

#[test]
fn attack_flag_follows_signal_edges() {
    let mut s = initial_player_state();
    // Rising edge sets the flag.
    resolve_movement(&mut s, FrameInput { attack: true, ..no_input() });
    assert!(s.is_attacking);
    // Holding the signal re-triggers nothing.
    resolve_movement(&mut s, FrameInput { attack: true, ..no_input() });
    assert!(s.is_attacking);
    resolve_movement(&mut s, FrameInput { attack: true, ..no_input() });
    assert!(s.is_attacking);
    // Falling edge clears it.
    resolve_movement(&mut s, no_input());
    assert!(!s.is_attacking);
    // And it stays clear on a steady low signal.
    resolve_movement(&mut s, no_input());
    assert!(!s.is_attacking);
}

#[test]
fn attack_flag_held_between_edges() {
    // Between edges the flag is left as it is, whatever it holds: a state
    // whose flag disagrees with the steady signal level keeps its flag.
    let mut s = initial_player_state();
    s.is_attacking = true;
    s.attack_signal_held = false;
    resolve_movement(&mut s, no_input());
    assert!(s.is_attacking);
}

#[test]
fn walk_down_three_periods_scenario() {
    // Start facing down on cell 0; hold the down key for three timer
    // periods with no attack. The down row stays fixed while the column
    // steps 0, 1, 2, 3, so the cell runs 0, 10, 11, 12; the position drops
    // by three frames of walk speed.
    let mut s = initial_player_state();
    let mut t = AnimationTimer::new();
    let down = FrameInput { down: true, ..no_input() };

    let mut cells: Vec<u32> = vec![s.sprite_cell_index];
    let mut columns: Vec<u32> = vec![s.sprite_cell_index % 9];
    for _ in 0..3 {
        frame_update(&mut s, &mut t, down, PERIOD_NS);
        cells.push(s.sprite_cell_index);
        columns.push(s.sprite_cell_index % 9);
    }
    assert_eq!(cells, vec![0, 10, 11, 12]);
    assert_eq!(columns, vec![0, 1, 2, 3]);
    assert!(cells[1..].iter().all(|c| c / 9 == 1));
    assert_eq!(s.position, Vec2i { x: 0, y: -6 });
    assert_eq!(s.facing, Vec2i { x: 0, y: -1 });
}

#[test]
fn frame_update_reads_fresh_facing() {
    // Within one frame the resolver runs first: an expiry in the same
    // frame as a turn already animates the new row.
    let mut s = initial_player_state();
    let mut t = AnimationTimer::new();
    frame_update(&mut s, &mut t, FrameInput { right: true, ..no_input() }, PERIOD_NS);
    assert_eq!(s.facing, Vec2i { x: 1, y: 0 });
    // Column advanced to 1 on the right-facing row 3.
    assert_eq!(s.sprite_cell_index, 28);
}

#[test]
fn cell_index_stays_within_sheet() {
    let mut s = initial_player_state();
    let mut t = AnimationTimer::new();
    let inputs = [
        FrameInput { down: true, ..no_input() },
        FrameInput { right: true, attack: true, ..no_input() },
        FrameInput { up: true, run: true, ..no_input() },
        no_input(),
        FrameInput { left: true, ..no_input() },
    ];
    for i in 0..100usize {
        frame_update(&mut s, &mut t, inputs[i % inputs.len()], PERIOD_NS / 3);
        assert!(s.sprite_cell_index < 72);
    }
}
