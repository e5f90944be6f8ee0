//! The charge-based jump controller.
//!
//! A fresh press while grounded and armed launches the jump and opens a
//! bounded charge window; while the button stays held and charge remains,
//! extra upward acceleration is applied for exactly the portion of each
//! tick during which charge remained positive, so jump height is
//! proportional to how long the button is held within the window. The
//! jump re-arms only on a tick where the player is grounded with the
//! button released, which prevents auto-repeat.

use vstd::prelude::*;
use crate::fixed::{SCALE, floor_div, max_i64, max_int, min_i64, min_int};
use crate::player::{Body, DT_MAX, JUMP_HIGH_TIME, PlayerState, VEL_LIMIT};

verus! {

/// Upward launch speed of a jump (200 world units / s). The vertical axis
/// points down, so a launch sets the velocity to `-JUMP_VELOCITY`.
pub const JUMP_VELOCITY: i64 = 200_000_000;

/// Extra upward acceleration while the charge window is open (780 /s^2).
pub const JUMP_HIGH_ACCEL: i64 = 780_000_000;

/// The jump-relevant projection of the player and body state.
pub struct JumpModel {
    pub can_jump: bool,
    pub charge: int,
    pub vel_y: int,
}

/// Project the jump-relevant fields out of the full state.
pub open spec fn jump_model(s: PlayerState, vel_y: int) -> JumpModel {
    JumpModel { can_jump: s.can_jump, charge: s.jump_charge_remaining as int, vel_y }
}

/// The portion of a tick during which charge remains positive.
pub open spec fn charge_consumed(charge: int, dt: int) -> int {
    min_int(charge, dt)
}

/// The charge left after a tick, clamped at zero.
pub open spec fn charge_after(charge: int, dt: int) -> int {
    max_int(charge - dt, 0)
}

/// The upward speed gained from `time` of held charge.
pub open spec fn boost_of(time: int) -> int {
    floor_div(JUMP_HIGH_ACCEL * time, SCALE as int)
}

/// One tick of the jump state machine.
///
/// - A fresh press while grounded and armed: launch upward, disarm, open
///   the full charge window.
/// - Held with charge remaining: boost upward for the positive portion of
///   the tick and count the window down, clamped at zero.
/// - Otherwise (released, or charge exhausted): close the window; the
///   jump re-arms exactly when grounded with the button released.
pub open spec fn jump_step(
    m: JumpModel,
    pressed: bool,
    held: bool,
    grounded: bool,
    dt: int,
) -> JumpModel {
    if pressed && grounded && m.can_jump {
        JumpModel {
            can_jump: false,
            charge: JUMP_HIGH_TIME as int,
            vel_y: -(JUMP_VELOCITY as int),
        }
    } else if held && m.charge > 0 {
        JumpModel {
            can_jump: m.can_jump,
            charge: charge_after(m.charge, dt),
            vel_y: m.vel_y - boost_of(charge_consumed(m.charge, dt)),
        }
    } else {
        JumpModel { can_jump: grounded && !held, charge: 0, vel_y: m.vel_y }
    }
}

/// One tick of the jump controller; behaves exactly as [`jump_step`]
/// states on the jump-relevant projection and touches nothing else.
pub fn jump_tick(
    state: &mut PlayerState,
    body: &mut Body,
    pressed: bool,
    held: bool,
    grounded: bool,
    dt: i64,
)
    requires
        old(state).wf(),
        1 <= dt <= DT_MAX,
        -VEL_LIMIT <= old(body).vel_y <= VEL_LIMIT,
    ensures
        final(state).wf(),
        jump_model(*final(state), final(body).vel_y as int) == jump_step(
            jump_model(*old(state), old(body).vel_y as int),
            pressed,
            held,
            grounded,
            dt as int,
        ),
        *final(state) == (PlayerState {
            can_jump: final(state).can_jump,
            jump_charge_remaining: final(state).jump_charge_remaining,
            grounded,
            ..*old(state)
        }),
        *final(body) == (Body { vel_y: final(body).vel_y, ..*old(body) }),
        pressed && grounded && old(state).can_jump ==> final(body).vel_y == -JUMP_VELOCITY
            && !final(state).can_jump && final(state).jump_charge_remaining == JUMP_HIGH_TIME,
{
    if pressed && grounded && state.can_jump {
        body.vel_y = -JUMP_VELOCITY;
        state.can_jump = false;
        state.jump_charge_remaining = JUMP_HIGH_TIME;
    } else if held && state.jump_charge_remaining > 0 {
        let eff = min_i64(state.jump_charge_remaining, dt);
        proof {
            crate::fixed::lemma_floor_div_in_range(JUMP_HIGH_ACCEL as int * eff as int,
                SCALE as int);
            assert(JUMP_HIGH_ACCEL as int * eff as int <= JUMP_HIGH_ACCEL as int * (
            JUMP_HIGH_TIME as int)) by (nonlinear_arith)
                requires
                    0 <= eff <= JUMP_HIGH_TIME,
            ;
            assert(0 <= JUMP_HIGH_ACCEL as int * eff as int) by (nonlinear_arith)
                requires
                    0 <= eff,
            ;
        }
        let boost = crate::fixed::floor_div_i64(JUMP_HIGH_ACCEL * eff, SCALE);
        body.vel_y = body.vel_y - boost;
        state.jump_charge_remaining = max_i64(state.jump_charge_remaining - dt, 0);
    } else {
        state.jump_charge_remaining = 0;
        state.can_jump = grounded && !held;
    }
    state.grounded = grounded;
}

/// Total duration of a sequence of tick lengths.
pub open spec fn sum_durations(dts: Seq<int>) -> int
    decreases dts.len(),
{
    if dts.len() == 0 {
        0
    } else {
        dts[0] + sum_durations(dts.drop_first())
    }
}

/// The jump model after a run of airborne ticks with the button uniformly
/// held or uniformly released and no fresh press.
pub open spec fn airborne_run(m: JumpModel, held: bool, dts: Seq<int>) -> JumpModel
    decreases dts.len(),
{
    if dts.len() == 0 {
        m
    } else {
        airborne_run(jump_step(m, false, held, false, dts[0]), held, dts.drop_first())
    }
}

/// The boost is exact in fixed point: `JUMP_HIGH_ACCEL` is a whole
/// multiple of `SCALE`, so no charge time is lost to rounding.
pub proof fn lemma_boost_exact(time: int)
    ensures
        boost_of(time) == (JUMP_HIGH_ACCEL as int / SCALE as int) * time,
{
    assert(JUMP_HIGH_ACCEL as int * time == (SCALE as int) * ((JUMP_HIGH_ACCEL as int
        / SCALE as int) * time)) by (nonlinear_arith);
    vstd::arithmetic::div_mod::lemma_div_multiples_vanish(
        (JUMP_HIGH_ACCEL as int / SCALE as int) * time,
        SCALE as int,
    );
}

/// A sequence of positive tick lengths has a non-negative total.
proof fn lemma_sum_nonneg(dts: Seq<int>)
    requires
        forall|i: int| 0 <= i < dts.len() ==> dts[i] >= 1,
    ensures
        sum_durations(dts) >= 0,
    decreases dts.len(),
{
    if dts.len() > 0 {
        lemma_sum_nonneg(dts.drop_first());
    }
}

/// Holding the button through any run of ticks that covers the whole
/// charge window consumes the window exactly and gains the full boost:
/// the final upward speed is greater by `boost_of(charge)`, regardless of
/// how the window was cut into ticks.
pub proof fn lemma_held_run_exhausts_charge(m: JumpModel, dts: Seq<int>)
    requires
        0 <= m.charge,
        forall|i: int| 0 <= i < dts.len() ==> dts[i] >= 1,
        sum_durations(dts) >= m.charge,
    ensures
        airborne_run(m, true, dts).vel_y == m.vel_y - boost_of(m.charge),
        airborne_run(m, true, dts).charge == 0,
    decreases dts.len(),
{
    if dts.len() == 0 {
        lemma_boost_exact(0);
    } else {
        let d0 = dts[0];
        let m1 = jump_step(m, false, true, false, d0);
        lemma_sum_nonneg(dts.drop_first());
        if m.charge == 0 {
            lemma_held_run_exhausts_charge(m1, dts.drop_first());
        } else {
            let eff = charge_consumed(m.charge, d0);
            lemma_held_run_exhausts_charge(m1, dts.drop_first());
            lemma_boost_exact(eff);
            lemma_boost_exact(m1.charge);
            lemma_boost_exact(m.charge);
            assert(eff + m1.charge == m.charge);
        }
    }
}

/// Releasing the button at once gains nothing: the velocity never moves
/// during a released airborne run.
pub proof fn lemma_release_keeps_velocity(m: JumpModel, dts: Seq<int>)
    ensures
        airborne_run(m, false, dts).vel_y == m.vel_y,
    decreases dts.len(),
{
    if dts.len() > 0 {
        lemma_release_keeps_velocity(jump_step(m, false, false, false, dts[0]), dts.drop_first());
    }
}

/// Ballistic peak height comparison measure: under constant gravity `g`
/// an upward launch speed `v` peaks at `v^2 / (2g)`, so comparing the
/// squares of two upward speeds compares the peaks.
pub open spec fn peak_height_measure(upward_vel: int) -> int {
    upward_vel * upward_vel
}

/// Holding jump for the full charge window yields a strictly greater
/// ballistic peak height than releasing immediately at the start, for
/// identical starting velocity and ground state: starting from the state
/// the launch tick leaves behind, a fully held run leaves strictly more
/// upward speed than an immediately released run, whatever positive tick
/// lengths cover the window.
pub proof fn lemma_full_hold_beats_immediate_release(m: JumpModel, dts: Seq<int>)
    requires
        m.charge == JUMP_HIGH_TIME,
        m.vel_y == -(JUMP_VELOCITY as int),
        forall|i: int| 0 <= i < dts.len() ==> dts[i] >= 1,
        sum_durations(dts) >= JUMP_HIGH_TIME,
    ensures
        -airborne_run(m, true, dts).vel_y > -airborne_run(m, false, dts).vel_y > 0,
        peak_height_measure(-airborne_run(m, true, dts).vel_y) > peak_height_measure(
            -airborne_run(m, false, dts).vel_y,
        ),
{
    lemma_held_run_exhausts_charge(m, dts);
    lemma_release_keeps_velocity(m, dts);
    lemma_boost_exact(JUMP_HIGH_TIME as int);
    let u_held = -airborne_run(m, true, dts).vel_y;
    let u_released = -airborne_run(m, false, dts).vel_y;
    assert(u_held * u_held > u_released * u_released) by (nonlinear_arith)
        requires
            u_held > u_released > 0,
    ;
}

} // verus!
