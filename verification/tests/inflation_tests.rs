use balloon_core::grid::TileCollisionGrid;
use balloon_core::inflation::{InflationOutcome, ResizeDirection, direction_from_input, inflation_tick};
use balloon_core::player::{Body, PlayerState, ResizeActivity, compute_size};
use balloon_core::progress::GameProgress;

const CELL: i64 = 32_000_000;

fn empty_grid() -> TileCollisionGrid {
    TileCollisionGrid::new(4, 4, CELL, vec![0u32; 16])
}

fn solid_grid() -> TileCollisionGrid {
    TileCollisionGrid::new(4, 4, CELL, vec![1u32; 16])
}

fn body_at(x: i64, y: i64) -> Body {
    Body {
        pos_x: x,
        pos_y: y,
        vel_x: 0,
        vel_y: 0,
        accel_x: 0,
        accel_y: 0,
        friction_x: 2_000_000,
        mass: 1_000_000,
        gravity_scale: 1_000_000,
        restitution: 0,
    }
}

#[test]
fn direction_inflate_wins_simultaneous_press() {
    assert_eq!(direction_from_input(true, false), ResizeDirection::Grow);
    assert_eq!(direction_from_input(false, true), ResizeDirection::Shrink);
    assert_eq!(direction_from_input(true, true), ResizeDirection::Grow);
    assert_eq!(direction_from_input(false, false), ResizeDirection::Idle);
}

#[test]
fn grow_tick_commits_exact_candidate() {
    // rate 2.8, dt 0.016, speed 1.2, full gauge: new rate 2.8 + 1.2 * 0.016.
    let mut state = PlayerState::new();
    let mut body = body_at(32_000_000, 32_000_000);
    let mut progress = GameProgress::new();
    progress.refill_resource();
    let grid = empty_grid();

    let outcome = inflation_tick(
        &mut state,
        &mut body,
        &mut progress,
        &grid,
        ResizeDirection::Grow,
        16_000,
    );

    assert_eq!(outcome, InflationOutcome::Grew);
    assert_eq!(state.inflation_rate, 2_819_200);
    assert_eq!(state.size_w, 31_791_554);
    assert_eq!(state.size_h, 31_791_554);
    assert_eq!(state.activity, ResizeActivity::Growing);
    // gauge drained by exactly 0.5 * 0.016.
    assert_eq!(progress.remaining_resource, 1_000_000 - 8_000);
    // center-anchored: the minimum corner backs off half the growth.
    assert_eq!(body.pos_x, 32_000_000 - 215_777);
    assert_eq!(body.pos_y, 32_000_000 - 215_777);
    assert_eq!(body.mass, 354_710);
    assert_eq!(body.gravity_scale, 354_710);
    assert_eq!(body.restitution, 281_920);
}

#[test]
fn shrink_tick_commits_exact_candidate() {
    let mut state = PlayerState::new();
    let mut body = body_at(32_000_000, 32_000_000);
    let mut progress = GameProgress::new();
    let grid = empty_grid();

    let outcome = inflation_tick(
        &mut state,
        &mut body,
        &mut progress,
        &grid,
        ResizeDirection::Shrink,
        16_000,
    );

    assert_eq!(outcome, InflationOutcome::Shrunk);
    assert_eq!(state.inflation_rate, 2_780_800);
    assert_eq!(state.size_w, 30_931_394);
    assert_eq!(state.activity, ResizeActivity::Shrinking);
    // shrinking needs no air.
    assert_eq!(progress.remaining_resource, 0);
    // the minimum corner moves forward half the (negative) difference.
    let half = (31_360_000 - 30_931_394) / 2;
    assert_eq!(body.pos_x, 32_000_000 + half);
}

#[test]
fn grow_with_empty_gauge_changes_nothing() {
    // resource 0, grow requested: rate, size, position unchanged; no cue.
    let mut state = PlayerState::new();
    let mut body = body_at(32_000_000, 32_000_000);
    let mut progress = GameProgress::new();
    let grid = empty_grid();
    let before_state = state;
    let before_body = body;
    let before_progress = progress;

    let outcome = inflation_tick(
        &mut state,
        &mut body,
        &mut progress,
        &grid,
        ResizeDirection::Grow,
        16_000,
    );

    assert_eq!(outcome, InflationOutcome::OutOfAir);
    assert_eq!(state, before_state);
    assert_eq!(body, before_body);
    assert_eq!(progress, before_progress);
    let accepted = outcome == InflationOutcome::Grew;
    assert_eq!(balloon_core::cue::growth_loop_cue(accepted, false), None);
}

#[test]
fn obstructed_candidate_rejects_but_keeps_drain() {
    // candidate box surrounded by solid cells: resize rejected, physical
    // parameters untouched, drained air not refunded.
    let mut state = PlayerState::new();
    let mut body = body_at(32_000_000, 32_000_000);
    let mut progress = GameProgress::new();
    progress.refill_resource();
    let grid = solid_grid();
    let before_state = state;
    let before_body = body;

    let outcome = inflation_tick(
        &mut state,
        &mut body,
        &mut progress,
        &grid,
        ResizeDirection::Grow,
        16_000,
    );

    assert_eq!(outcome, InflationOutcome::Obstructed);
    assert_eq!(state.inflation_rate, before_state.inflation_rate);
    assert_eq!(state.size_w, before_state.size_w);
    assert_eq!(state.size_h, before_state.size_h);
    assert_eq!(body.pos_x, before_body.pos_x);
    assert_eq!(body.pos_y, before_body.pos_y);
    assert_eq!(body.mass, before_body.mass);
    assert_eq!(body.gravity_scale, before_body.gravity_scale);
    assert_eq!(body.restitution, before_body.restitution);
    assert_eq!(state, before_state);
    assert_eq!(body, before_body);
    // the drain stands.
    assert_eq!(progress.remaining_resource, 1_000_000 - 8_000);
}

#[test]
fn idle_direction_clears_activity_only() {
    let mut state = PlayerState::new();
    state.activity = ResizeActivity::Growing;
    let mut body = body_at(32_000_000, 32_000_000);
    let mut progress = GameProgress::new();
    progress.refill_resource();
    let grid = empty_grid();
    let before_body = body;

    let outcome = inflation_tick(
        &mut state,
        &mut body,
        &mut progress,
        &grid,
        ResizeDirection::Idle,
        16_000,
    );

    assert_eq!(outcome, InflationOutcome::Rested);
    assert_eq!(state.activity, ResizeActivity::Idle);
    assert_eq!(body, before_body);
    assert_eq!(progress.remaining_resource, 1_000_000);
}

#[test]
fn rate_clamps_at_the_bounds() {
    let mut state = PlayerState::new();
    state.inflation_rate = 1_600_000;
    state.size_w = compute_size(state.original_w, state.inflation_rate);
    state.size_h = compute_size(state.original_h, state.inflation_rate);
    let mut body = body_at(32_000_000, 32_000_000);
    let mut progress = GameProgress::new();
    let grid = empty_grid();

    let outcome = inflation_tick(
        &mut state,
        &mut body,
        &mut progress,
        &grid,
        ResizeDirection::Shrink,
        16_000,
    );

    assert_eq!(outcome, InflationOutcome::Shrunk);
    assert_eq!(state.inflation_rate, 1_600_000);
}

#[test]
fn growing_at_the_cap_holds_the_rate_but_still_drains() {
    let mut state = PlayerState::new();
    state.inflation_rate = 8_000_000;
    state.size_w = compute_size(state.original_w, state.inflation_rate);
    state.size_h = compute_size(state.original_h, state.inflation_rate);
    assert_eq!(state.size_w, 256_000_000);
    let mut body = body_at(64_000_000, 64_000_000);
    let mut progress = GameProgress::new();
    progress.refill_resource();
    let grid = TileCollisionGrid::new(16, 16, CELL, vec![0u32; 256]);

    let outcome = inflation_tick(
        &mut state,
        &mut body,
        &mut progress,
        &grid,
        ResizeDirection::Grow,
        16_000,
    );

    assert_eq!(outcome, InflationOutcome::Grew);
    assert_eq!(state.inflation_rate, 8_000_000);
    assert_eq!(state.size_w, 256_000_000);
    assert_eq!(body.pos_x, 64_000_000);
    assert_eq!(progress.remaining_resource, 992_000);
}

#[test]
fn size_curve_samples_are_monotone_and_exact_at_max() {
    let mut previous = 0i64;
    let mut rate = 1_600_000i64;
    while rate <= 8_000_000 {
        let size = compute_size(32_000_000, rate);
        assert!(size >= previous);
        previous = size;
        rate += 100_000;
    }
    // at MAX_RATE the curve reaches exactly original * MAX_SCALE.
    assert_eq!(compute_size(32_000_000, 8_000_000), 256_000_000);
    assert_eq!(compute_size(32_000_000, 2_800_000), 31_360_000);
}

#[test]
fn power_up_doubles_original_size_permanently() {
    let mut state = PlayerState::new();
    state.collect_power_up();
    assert_eq!(state.original_w, 64_000_000);
    assert_eq!(state.original_h, 64_000_000);
    assert_eq!(state.size_w, 62_720_000);
    assert_eq!(state.inflation_rate, 2_800_000);
}

#[test]
fn resource_never_leaves_unit_interval() {
    let mut state = PlayerState::new();
    let mut body = body_at(32_000_000, 32_000_000);
    let mut progress = GameProgress::new();
    progress.refill_resource();
    let grid = empty_grid();
    // a very long tick drains far more than the gauge holds; it floors at 0.
    let outcome = inflation_tick(
        &mut state,
        &mut body,
        &mut progress,
        &grid,
        ResizeDirection::Grow,
        1_000_000_000,
    );
    assert!(outcome == InflationOutcome::Grew || outcome == InflationOutcome::Obstructed);
    assert_eq!(progress.remaining_resource, 0);
}
