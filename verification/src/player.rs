//! The player's variable-geometry state and its directional movement.
//!
//! The player is an inflatable balloon: a scalar inflation rate drives its
//! size, mass, gravity scale and restitution through a fixed nonlinear
//! easing curve, quadratic in `rate / MAX_RATE`. This module owns the state
//! record, the size curve with its laws, the power-up that doubles the
//! original size, and the per-tick directional input handling (facing
//! normal, acceleration, friction).

use vstd::prelude::*;
use crate::fixed::{SCALE, floor_div, floor_div_i64};
use vstd::arithmetic::div_mod::{lemma_div_is_ordered, lemma_div_multiples_vanish};
use vstd::arithmetic::mul::{lemma_mul_inequality, lemma_mul_nonnegative};

verus! {

/// Smallest inflation rate, in fixed-point sub-units (1.6 world units).
pub const MIN_RATE: i64 = 1_600_000;

/// Largest inflation rate (8.0 world units).
pub const MAX_RATE: i64 = 8_000_000;

/// Inflation rate a freshly spawned player starts with (2.8 world units).
pub const DEFAULT_RATE: i64 = 2_800_000;

/// At the largest rate the player measures `MAX_SCALE` times its original
/// size. The easing curve is `original * rate^2 / MAX_RATE`, so this equals
/// `MAX_RATE / SCALE`.
pub const MAX_SCALE: i64 = 8;

/// Side length of the player's original (uninflated reference) square.
pub const PLAYER_SIZE: i64 = 32_000_000;

/// Upper bound on an original size component, so that the size curve can
/// be evaluated without `i64` overflow.
pub const ORIGINAL_SIZE_MAX: i64 = 10_000_000_000;

/// Lower bound on an original size component (one world unit), so that
/// the fixed-point size curve never rounds the player away entirely.
pub const ORIGINAL_SIZE_MIN: i64 = 1_000_000;

/// Positions handed to the controllers must stay below this magnitude.
pub const POS_LIMIT: i64 = 100_000_000_000_000;

/// Velocities handed to the controllers must stay below this magnitude.
pub const VEL_LIMIT: i64 = 1_000_000_000_000_000;

/// Longest accepted tick duration (1000 seconds).
pub const DT_MAX: i64 = 1_000_000_000;

/// Full length of the high-jump charge window (0.08 seconds).
pub const JUMP_HIGH_TIME: i64 = 80_000;

/// Horizontal acceleration while grounded (600 world units / s^2).
pub const ACCEL_GROUND: i64 = 600_000_000;

/// Horizontal acceleration while airborne (300 world units / s^2).
pub const ACCEL_AIR: i64 = 300_000_000;

/// Thrust applied along the facing normal while deflating (900 units/s^2).
pub const ACCEL_DEFLATION: i64 = 900_000_000;

/// Horizontal friction coefficient while grounded.
pub const FRICTION_GROUND: i64 = 2_000_000;

/// Horizontal friction coefficient while airborne.
pub const FRICTION_AIR: i64 = 2_000_000;

/// What the most recent committed resize did. `Growing` is the "growing"
/// flag of the state record; `Shrinking` drives the deflation thrust and
/// the shrink cue.
#[derive(Clone, Copy, Debug, PartialEq, Eq, Structural)]
pub enum ResizeActivity {
    Idle,
    Growing,
    Shrinking,
}

/// The player's controller-owned state. Recreated on every level (re)load;
/// the integrator-owned quantities live in [`Body`].
#[derive(Clone, Copy, Debug, PartialEq, Eq, Structural)]
pub struct PlayerState {
    /// Bounded scalar driving the easing curve.
    pub inflation_rate: i64,
    /// Original width; doubles permanently on a power-up event.
    pub original_w: i64,
    /// Original height; doubles permanently on a power-up event.
    pub original_h: i64,
    /// Current width, always `size_curve(original_w, inflation_rate)`.
    pub size_w: i64,
    /// Current height, always `size_curve(original_h, inflation_rate)`.
    pub size_h: i64,
    /// Last non-zero horizontal directional input: -1 or 1.
    pub facing_x: i64,
    /// Last vertical directional input: -1, 0 or 1.
    pub facing_y: i64,
    /// Ground contact flag observed on the most recent tick.
    pub grounded: bool,
    /// Whether a fresh press of the jump input may start a jump.
    pub can_jump: bool,
    /// Time left in the high-jump charge window.
    pub jump_charge_remaining: i64,
    /// Whether an active resize is in progress, and in which direction.
    pub activity: ResizeActivity,
}

/// The integrator-owned quantities the controllers read and write.
/// `pos_x`/`pos_y` is the minimum corner of the player's bounding box.
#[derive(Clone, Copy, Debug, PartialEq, Eq, Structural)]
pub struct Body {
    pub pos_x: i64,
    pub pos_y: i64,
    pub vel_x: i64,
    pub vel_y: i64,
    pub accel_x: i64,
    pub accel_y: i64,
    pub friction_x: i64,
    pub mass: i64,
    pub gravity_scale: i64,
    pub restitution: i64,
}

/// The fixed nonlinear easing curve from original size and inflation rate
/// to current size: `original * MAX_RATE * (rate / MAX_RATE)^2`, evaluated
/// exactly in fixed point as `((original * rate) / SCALE) * rate / MAX_RATE`.
pub open spec fn size_curve(ori: int, rate: int) -> int {
    floor_div(floor_div(ori * rate, SCALE as int) * rate, MAX_RATE as int)
}

impl PlayerState {
    /// Validity of a player record: the rate stays in its bounds, the
    /// current size is exactly the curve of the original size and the
    /// rate, the facing normal components are unit steps, and the jump
    /// charge never exceeds its window.
    pub open spec fn wf(self) -> bool {
        &&& MIN_RATE <= self.inflation_rate <= MAX_RATE
        &&& ORIGINAL_SIZE_MIN <= self.original_w <= ORIGINAL_SIZE_MAX
        &&& ORIGINAL_SIZE_MIN <= self.original_h <= ORIGINAL_SIZE_MAX
        &&& self.size_w == size_curve(self.original_w as int, self.inflation_rate as int)
        &&& self.size_h == size_curve(self.original_h as int, self.inflation_rate as int)
        &&& (self.facing_x == -1 || self.facing_x == 1)
        &&& (self.facing_y == -1 || self.facing_y == 0 || self.facing_y == 1)
        &&& 0 <= self.jump_charge_remaining <= JUMP_HIGH_TIME
    }

    /// The "growing" flag of the data model.
    pub open spec fn growing(self) -> bool {
        self.activity is Growing
    }

    /// A freshly spawned player: default rate, original size, facing
    /// right, unable to jump until the ground is touched with the jump
    /// input released.
    pub fn new() -> (s: PlayerState)
        ensures
            s.wf(),
            s.inflation_rate == DEFAULT_RATE,
            s.original_w == PLAYER_SIZE,
            s.original_h == PLAYER_SIZE,
            s.size_w == size_curve(PLAYER_SIZE as int, DEFAULT_RATE as int),
            s.size_h == size_curve(PLAYER_SIZE as int, DEFAULT_RATE as int),
            s.facing_x == 1,
            s.facing_y == 0,
            !s.grounded,
            !s.can_jump,
            s.jump_charge_remaining == 0,
            s.activity is Idle,
    {
        let size = compute_size(PLAYER_SIZE, DEFAULT_RATE);
        PlayerState {
            inflation_rate: DEFAULT_RATE,
            original_w: PLAYER_SIZE,
            original_h: PLAYER_SIZE,
            size_w: size,
            size_h: size,
            facing_x: 1,
            facing_y: 0,
            grounded: false,
            can_jump: false,
            jump_charge_remaining: 0,
            activity: ResizeActivity::Idle,
        }
    }

    /// The power-up event: the original size doubles permanently and the
    /// current size follows the curve at the unchanged rate.
    pub fn collect_power_up(&mut self)
        requires
            old(self).wf(),
            2 * old(self).original_w <= ORIGINAL_SIZE_MAX,
            2 * old(self).original_h <= ORIGINAL_SIZE_MAX,
        ensures
            final(self).wf(),
            final(self).original_w == 2 * old(self).original_w,
            final(self).original_h == 2 * old(self).original_h,
            final(self).size_w == size_curve(
                2 * old(self).original_w,
                old(self).inflation_rate as int,
            ),
            final(self).size_h == size_curve(
                2 * old(self).original_h,
                old(self).inflation_rate as int,
            ),
            *final(self) == (PlayerState {
                original_w: final(self).original_w,
                original_h: final(self).original_h,
                size_w: final(self).size_w,
                size_h: final(self).size_h,
                ..*old(self)
            }),
    {
        self.original_w = 2 * self.original_w;
        self.original_h = 2 * self.original_h;
        self.size_w = compute_size(self.original_w, self.inflation_rate);
        self.size_h = compute_size(self.original_h, self.inflation_rate);
    }
}

/// Evaluate the size curve, exactly as [`size_curve`] states it.
pub fn compute_size(ori: i64, rate: i64) -> (s: i64)
    requires
        ORIGINAL_SIZE_MIN <= ori <= ORIGINAL_SIZE_MAX,
        MIN_RATE <= rate <= MAX_RATE,
    ensures
        s == size_curve(ori as int, rate as int),
        0 < s <= ori * MAX_SCALE,
{
    proof {
        lemma_size_curve_bounds(ori as int, rate as int);
        assert(0 <= ori * rate <= ORIGINAL_SIZE_MAX * MAX_RATE) by (nonlinear_arith)
            requires
                0 < ori <= ORIGINAL_SIZE_MAX,
                0 < rate <= MAX_RATE,
        ;
    }
    let a = floor_div_i64(ori * rate, SCALE);
    proof {
        lemma_div_is_ordered(
            ori as int * rate as int,
            ORIGINAL_SIZE_MAX as int * MAX_RATE as int,
            SCALE as int,
        );
        crate::fixed::lemma_floor_div_in_range(ori as int * rate as int, SCALE as int);
        assert(a * rate <= 640_000_000_000_000_000) by (nonlinear_arith)
            requires
                0 <= a <= 80_000_000_000,
                0 < rate <= MAX_RATE,
        ;
        assert(0 <= a * rate) by (nonlinear_arith)
            requires
                0 <= a,
                0 < rate,
        ;
    }
    floor_div_i64(a * rate, MAX_RATE)
}

/// The size curve stays positive and never exceeds `original * MAX_SCALE`
/// on the accepted rate range.
pub proof fn lemma_size_curve_bounds(ori: int, rate: int)
    requires
        ORIGINAL_SIZE_MIN <= ori,
        MIN_RATE <= rate <= MAX_RATE,
    ensures
        0 < size_curve(ori, rate) <= ori * MAX_SCALE,
{
    lemma_size_curve_monotone(ori, rate, MAX_RATE as int);
    lemma_size_curve_max(ori);
    let a = floor_div(ori * rate, SCALE as int);
    assert(ori * rate >= (SCALE as int) * (MIN_RATE as int)) by (nonlinear_arith)
        requires
            ori >= SCALE,
            rate >= MIN_RATE > 0,
    ;
    crate::fixed::lemma_floor_div_bounds(ori * rate, SCALE as int);
    assert(a >= MIN_RATE) by (nonlinear_arith)
        requires
            ori * rate < (SCALE as int) * (a + 1),
            ori * rate >= (SCALE as int) * (MIN_RATE as int),
            SCALE > 0,
    ;
    assert(a * rate >= MAX_RATE) by (nonlinear_arith)
        requires
            a >= MIN_RATE,
            rate >= MIN_RATE,
    ;
    crate::fixed::lemma_floor_div_bounds(a * rate, MAX_RATE as int);
    assert(size_curve(ori, rate) >= 1) by (nonlinear_arith)
        requires
            (MAX_RATE as int) * size_curve(ori, rate) <= a * rate
                < (MAX_RATE as int) * (size_curve(ori, rate) + 1),
            a * rate >= MAX_RATE,
    ;
}

/// First law of the size curve: it is monotonically non-decreasing in the
/// inflation rate.
pub proof fn lemma_size_curve_monotone(ori: int, r1: int, r2: int)
    requires
        0 <= ori,
        0 <= r1 <= r2,
    ensures
        size_curve(ori, r1) <= size_curve(ori, r2),
{
    lemma_mul_inequality(r1, r2, ori);
    vstd::arithmetic::mul::lemma_mul_is_commutative(r1, ori);
    vstd::arithmetic::mul::lemma_mul_is_commutative(r2, ori);
    lemma_div_is_ordered(ori * r1, ori * r2, SCALE as int);
    let a1 = floor_div(ori * r1, SCALE as int);
    let a2 = floor_div(ori * r2, SCALE as int);
    lemma_mul_nonnegative(ori, r1);
    vstd::arithmetic::div_mod::lemma_div_pos_is_pos(ori * r1, SCALE as int);
    assert(a1 * r1 <= a2 * r2) by (nonlinear_arith)
        requires
            0 <= a1 <= a2,
            0 <= r1 <= r2,
    ;
    lemma_div_is_ordered(a1 * r1, a2 * r2, MAX_RATE as int);
}

/// Second law of the size curve: at the largest rate it reaches exactly
/// `original * MAX_SCALE`.
pub proof fn lemma_size_curve_max(ori: int)
    ensures
        size_curve(ori, MAX_RATE as int) == ori * MAX_SCALE,
{
    assert(ori * (MAX_RATE as int) == (SCALE as int) * (ori * (MAX_SCALE as int)))
        by (nonlinear_arith);
    lemma_div_multiples_vanish(ori * (MAX_SCALE as int), SCALE as int);
    let a = floor_div(ori * (MAX_RATE as int), SCALE as int);
    assert(a == ori * (MAX_SCALE as int));
    assert(a * (MAX_RATE as int) == (MAX_RATE as int) * a) by (nonlinear_arith);
    lemma_div_multiples_vanish(a, MAX_RATE as int);
}

/// The horizontal input axis: positive right, negative left; a
/// simultaneous press resolves to the right.
pub open spec fn input_axis_x(right: bool, left: bool) -> int {
    if right {
        1
    } else if left {
        -1
    } else {
        0
    }
}

/// The vertical input axis: negative up, positive down (screen
/// coordinates); a simultaneous press resolves upward.
pub open spec fn input_axis_y(up: bool, down: bool) -> int {
    if up {
        -1
    } else if down {
        1
    } else {
        0
    }
}

/// The facing normal the tick leaves stored: the horizontal component
/// keeps its last non-zero value, the vertical component tracks the
/// current input.
pub open spec fn stored_facing_x(prev: int, right: bool, left: bool) -> int {
    if right {
        1
    } else if left {
        -1
    } else {
        prev
    }
}

/// The effective normal the tick acts along: the raw input axes, or the
/// stored facing direction (with a level vertical component) when no
/// directional input is pressed.
pub open spec fn effective_x(prev: int, right: bool, left: bool, up: bool, down: bool) -> int {
    if !right && !left && !up && !down {
        prev
    } else {
        input_axis_x(right, left)
    }
}

/// Vertical component of the effective normal; see [`effective_x`].
pub open spec fn effective_y(right: bool, left: bool, up: bool, down: bool) -> int {
    if !right && !left && !up && !down {
        0
    } else {
        input_axis_y(up, down)
    }
}

/// One tick of directional input handling: update the facing normal,
/// choose the horizontal acceleration and friction, and add the deflation
/// thrust along the effective normal while a shrink is in progress.
/// Returns whether the sprite should be drawn flipped (facing left).
pub fn movement_tick(
    state: &mut PlayerState,
    body: &mut Body,
    right: bool,
    left: bool,
    up: bool,
    down: bool,
    grounded: bool,
) -> (flip: bool)
    requires
        old(state).wf(),
    ensures
        final(state).wf(),
        final(state).facing_x == stored_facing_x(old(state).facing_x as int, right, left),
        final(state).facing_y == input_axis_y(up, down),
        final(state).grounded == grounded,
        *final(state) == (PlayerState {
            facing_x: final(state).facing_x,
            facing_y: final(state).facing_y,
            grounded,
            ..*old(state)
        }),
        final(body).friction_x == if grounded { FRICTION_GROUND as int } else { FRICTION_AIR as int },
        final(body).accel_x == input_axis_x(right, left) * (
            if grounded { ACCEL_GROUND as int } else { ACCEL_AIR as int }
        ) + (
            if old(state).activity is Shrinking {
                effective_x(old(state).facing_x as int, right, left, up, down)
                    * (ACCEL_DEFLATION as int)
            } else {
                0
            }
        ),
        final(body).accel_y == if old(state).activity is Shrinking {
            effective_y(right, left, up, down) * (ACCEL_DEFLATION as int)
        } else {
            0int
        },
        *final(body) == (Body {
            accel_x: final(body).accel_x,
            accel_y: final(body).accel_y,
            friction_x: final(body).friction_x,
            ..*old(body)
        }),
        flip == (effective_x(old(state).facing_x as int, right, left, up, down) < 0),
{
    let base: i64 = if grounded {
        ACCEL_GROUND
    } else {
        ACCEL_AIR
    };
    let ax_input: i64 = if right {
        1
    } else if left {
        -1
    } else {
        0
    };
    let ay_input: i64 = if up {
        -1
    } else if down {
        1
    } else {
        0
    };
    let eff_x: i64 = if !right && !left && !up && !down {
        state.facing_x
    } else {
        ax_input
    };
    let eff_y: i64 = if !right && !left && !up && !down {
        0
    } else {
        ay_input
    };
    if right {
        state.facing_x = 1;
    } else if left {
        state.facing_x = -1;
    }
    state.facing_y = ay_input;
    state.grounded = grounded;
    body.friction_x = if grounded {
        FRICTION_GROUND
    } else {
        FRICTION_AIR
    };
    let mut accel_x: i64 = ax_input * base;
    let mut accel_y: i64 = 0;
    if matches!(state.activity, ResizeActivity::Shrinking) {
        accel_x = accel_x + eff_x * ACCEL_DEFLATION;
        accel_y = eff_y * ACCEL_DEFLATION;
    }
    body.accel_x = accel_x;
    body.accel_y = accel_y;
    eff_x < 0
}

} // verus!
