use balloon_core::jump::{JUMP_VELOCITY, jump_tick};
use balloon_core::player::{Body, PlayerState, ResizeActivity, movement_tick};

fn resting_body() -> Body {
    Body {
        pos_x: 0,
        pos_y: 0,
        vel_x: 0,
        vel_y: 0,
        accel_x: 0,
        accel_y: 0,
        friction_x: 2_000_000,
        mass: 1_000_000,
        gravity_scale: 1_000_000,
        restitution: 0,
    }
}

/// A grounded tick with the button released arms the jump.
fn armed_player() -> PlayerState {
    let mut state = PlayerState::new();
    let mut body = resting_body();
    jump_tick(&mut state, &mut body, false, false, true, 16_000);
    assert!(state.can_jump);
    state
}

#[test]
fn fresh_press_launches_and_opens_the_window() {
    let mut state = armed_player();
    let mut body = resting_body();
    jump_tick(&mut state, &mut body, true, true, true, 16_000);
    assert_eq!(body.vel_y, -JUMP_VELOCITY);
    assert!(!state.can_jump);
    assert_eq!(state.jump_charge_remaining, 80_000);
}

#[test]
fn holding_for_the_full_window_gains_the_exact_boost() {
    let mut state = armed_player();
    let mut body = resting_body();
    jump_tick(&mut state, &mut body, true, true, true, 16_000);

    // five airborne ticks of 16 ms cover the 80 ms window exactly.
    for _ in 0..5 {
        jump_tick(&mut state, &mut body, false, true, false, 16_000);
    }
    assert_eq!(state.jump_charge_remaining, 0);
    assert_eq!(body.vel_y, -(200_000_000 + 62_400_000));

    // once the window is exhausted further holding adds nothing.
    jump_tick(&mut state, &mut body, false, true, false, 16_000);
    assert_eq!(body.vel_y, -262_400_000);
}

#[test]
fn the_boost_does_not_depend_on_how_ticks_cut_the_window() {
    let mut state = armed_player();
    let mut body = resting_body();
    jump_tick(&mut state, &mut body, true, true, true, 16_000);

    // 50 ms then 30 ms: the second tick only gets the positive remainder.
    jump_tick(&mut state, &mut body, false, true, false, 50_000);
    assert_eq!(state.jump_charge_remaining, 30_000);
    jump_tick(&mut state, &mut body, false, true, false, 50_000);
    assert_eq!(state.jump_charge_remaining, 0);
    assert_eq!(body.vel_y, -262_400_000);
}

#[test]
fn releasing_immediately_gains_nothing() {
    let mut state = armed_player();
    let mut body = resting_body();
    jump_tick(&mut state, &mut body, true, true, true, 16_000);

    jump_tick(&mut state, &mut body, false, false, false, 16_000);
    assert_eq!(state.jump_charge_remaining, 0);
    assert_eq!(body.vel_y, -JUMP_VELOCITY);
    // held run peaks strictly higher: 262.4 > 200 upward.
}

#[test]
fn jump_rearms_only_grounded_with_button_released() {
    let mut state = armed_player();
    let mut body = resting_body();
    jump_tick(&mut state, &mut body, true, true, true, 16_000);
    assert!(!state.can_jump);

    // exhaust the charge window, then land while still holding: no re-arm.
    for _ in 0..5 {
        jump_tick(&mut state, &mut body, false, true, false, 16_000);
    }
    jump_tick(&mut state, &mut body, false, true, true, 16_000);
    assert!(!state.can_jump);

    // a held press on unarmed ground does not launch again.
    let vel_before = body.vel_y;
    jump_tick(&mut state, &mut body, true, true, true, 16_000);
    assert_eq!(body.vel_y, vel_before);

    // releasing on the ground re-arms.
    jump_tick(&mut state, &mut body, false, false, true, 16_000);
    assert!(state.can_jump);
}

#[test]
fn airborne_without_jumping_disarms() {
    let mut state = armed_player();
    let mut body = resting_body();
    // walked off a ledge: airborne, button released.
    jump_tick(&mut state, &mut body, false, false, false, 16_000);
    assert!(!state.can_jump);
}

#[test]
fn grounded_right_input_accelerates_and_faces_right() {
    let mut state = PlayerState::new();
    let mut body = resting_body();
    let flip = movement_tick(&mut state, &mut body, true, false, false, false, true);
    assert_eq!(body.accel_x, 600_000_000);
    assert_eq!(body.accel_y, 0);
    assert_eq!(body.friction_x, 2_000_000);
    assert_eq!(state.facing_x, 1);
    assert!(!flip);
}

#[test]
fn airborne_left_input_uses_air_acceleration_and_flips() {
    let mut state = PlayerState::new();
    let mut body = resting_body();
    let flip = movement_tick(&mut state, &mut body, false, true, false, false, false);
    assert_eq!(body.accel_x, -300_000_000);
    assert_eq!(state.facing_x, -1);
    assert!(flip);
}

#[test]
fn facing_keeps_its_last_horizontal_direction() {
    let mut state = PlayerState::new();
    let mut body = resting_body();
    movement_tick(&mut state, &mut body, false, true, false, false, true);
    assert_eq!(state.facing_x, -1);
    // no input: the stored horizontal facing survives.
    movement_tick(&mut state, &mut body, false, false, false, false, true);
    assert_eq!(state.facing_x, -1);
    assert_eq!(body.accel_x, 0);
}

#[test]
fn deflation_thrusts_along_the_effective_normal() {
    let mut state = PlayerState::new();
    state.activity = ResizeActivity::Shrinking;
    let mut body = resting_body();
    // no directional input: thrust along the stored facing (right, level).
    movement_tick(&mut state, &mut body, false, false, false, false, false);
    assert_eq!(body.accel_x, 900_000_000);
    assert_eq!(body.accel_y, 0);

    // airborne left+up while shrinking: air accel plus diagonal thrust.
    let mut state = PlayerState::new();
    state.activity = ResizeActivity::Shrinking;
    let mut body = resting_body();
    movement_tick(&mut state, &mut body, false, true, true, false, false);
    assert_eq!(body.accel_x, -300_000_000 - 900_000_000);
    assert_eq!(body.accel_y, -900_000_000);
}

#[test]
fn vertical_facing_tracks_current_input_only() {
    let mut state = PlayerState::new();
    let mut body = resting_body();
    movement_tick(&mut state, &mut body, false, false, true, false, true);
    assert_eq!(state.facing_y, -1);
    movement_tick(&mut state, &mut body, false, false, false, true, true);
    assert_eq!(state.facing_y, 1);
    movement_tick(&mut state, &mut body, false, false, false, false, true);
    assert_eq!(state.facing_y, 0);
}
