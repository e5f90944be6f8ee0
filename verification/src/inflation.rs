//! The inflation controller: validated, collision-safe resizing.
//!
//! Each tick consumes one direction request (grow, shrink, or none),
//! drains the air gauge while growth is requested, computes the candidate
//! rate, size and re-anchored position, and commits them only when the
//! collision probe reports the candidate bounding box unobstructed. A
//! rejected candidate leaves rate, size, position and the derived physical
//! parameters untouched (the drained air is not refunded); an exhausted
//! gauge rejects growth silently with no state change at all.

use vstd::prelude::*;
use crate::fixed::{
    SCALE, clamp_i64, clamped, floor_div, floor_div_i64, half_i64, half_toward_zero, max_i64,
    max_int,
};
use crate::grid::TileCollisionGrid;
use crate::player::{
    Body, DT_MAX, MAX_RATE, MIN_RATE, ORIGINAL_SIZE_MAX, POS_LIMIT, PlayerState, ResizeActivity,
    compute_size, lemma_size_curve_bounds, size_curve,
};
use crate::progress::GameProgress;

verus! {

/// How fast the inflation rate moves per second of held input (1.2/s).
pub const INFLATION_SPEED: i64 = 1_200_000;

/// How much air one second of accepted growth drains (0.5/s).
pub const RESOURCE_DRAIN_RATE: i64 = 500_000;

/// Mass is `1 / rate`, clamped to `[0.1, 1.0]`.
pub const MASS_MIN: i64 = 100_000;

/// See [`MASS_MIN`].
pub const MASS_MAX: i64 = 1_000_000;

/// Gravity scale is `1 / rate`, clamped to `[0.3, 1.0]`.
pub const GRAVITY_MIN: i64 = 300_000;

/// See [`GRAVITY_MIN`].
pub const GRAVITY_MAX: i64 = 1_000_000;

/// Restitution is `rate / RESTITUTION_DIVISOR`, clamped to `[0.1, 2.0]`.
pub const RESTITUTION_MIN: i64 = 100_000;

/// See [`RESTITUTION_MIN`].
pub const RESTITUTION_MAX: i64 = 2_000_000;

/// Canonical restitution denominator: bounciness rises with the rate at
/// one tenth of it before clamping.
pub const RESTITUTION_DIVISOR: i64 = 10;

/// The direction request of one tick, derived from the inflate/deflate
/// inputs with grow taking priority when both are pressed.
#[derive(Clone, Copy, Debug, PartialEq, Eq, Structural)]
pub enum ResizeDirection {
    Grow,
    Shrink,
    Idle,
}

/// What the inflation tick did.
#[derive(Clone, Copy, Debug, PartialEq, Eq, Structural)]
pub enum InflationOutcome {
    /// No resize was requested; any growth loop cue should fade out.
    Rested,
    /// Growth was requested with an empty gauge: rejected outright.
    OutOfAir,
    /// The candidate box hit a solid cell: rejected, drain kept.
    Obstructed,
    /// A grow step was committed.
    Grew,
    /// A shrink step was committed.
    Shrunk,
}

/// Direction request from the raw inputs: inflate wins a simultaneous
/// press (exclusive-or with grow priority).
pub open spec fn direction_of(inflate: bool, deflate: bool) -> ResizeDirection {
    if inflate {
        ResizeDirection::Grow
    } else if deflate {
        ResizeDirection::Shrink
    } else {
        ResizeDirection::Idle
    }
}

/// Derive the tick's direction request from the sampled inputs.
pub fn direction_from_input(inflate_pressed: bool, deflate_pressed: bool) -> (d: ResizeDirection)
    ensures
        d == direction_of(inflate_pressed, deflate_pressed),
{
    if inflate_pressed {
        ResizeDirection::Grow
    } else if deflate_pressed {
        ResizeDirection::Shrink
    } else {
        ResizeDirection::Idle
    }
}

/// The sign a direction contributes to the rate movement.
pub open spec fn dir_sign(d: ResizeDirection) -> int {
    match d {
        ResizeDirection::Grow => 1,
        ResizeDirection::Shrink => -1,
        ResizeDirection::Idle => 0,
    }
}

/// How far the rate moves in one tick of duration `dt`.
pub open spec fn rate_step(dt: int) -> int {
    floor_div(INFLATION_SPEED * dt, SCALE as int)
}

/// The candidate rate: the current rate moved one step in the requested
/// direction and clamped into `[MIN_RATE, MAX_RATE]`.
pub open spec fn candidate_rate(rate: int, d: ResizeDirection, dt: int) -> int {
    clamped(rate + dir_sign(d) * rate_step(dt), MIN_RATE as int, MAX_RATE as int)
}

/// How much air one tick of duration `dt` drains.
pub open spec fn drain_amount(dt: int) -> int {
    floor_div(RESOURCE_DRAIN_RATE * dt, SCALE as int)
}

/// The gauge after one tick of requested growth, floored at empty.
pub open spec fn resource_after_drain(resource: int, dt: int) -> int {
    max_int(resource - drain_amount(dt), 0)
}

/// `1 / rate` in fixed point.
pub open spec fn inv_rate(rate: int) -> int {
    floor_div((SCALE as int) * (SCALE as int), rate)
}

/// Mass derived from a committed rate.
pub open spec fn mass_of(rate: int) -> int {
    clamped(inv_rate(rate), MASS_MIN as int, MASS_MAX as int)
}

/// Gravity scale derived from a committed rate.
pub open spec fn gravity_of(rate: int) -> int {
    clamped(inv_rate(rate), GRAVITY_MIN as int, GRAVITY_MAX as int)
}

/// Restitution derived from a committed rate.
pub open spec fn restitution_of(rate: int) -> int {
    clamped(
        floor_div(rate, RESTITUTION_DIVISOR as int),
        RESTITUTION_MIN as int,
        RESTITUTION_MAX as int,
    )
}

/// A resize is anchored at the geometric center: the minimum corner moves
/// back by half of the size increase on each axis, so the box stays
/// visually centered (an odd difference rounds toward zero).
pub open spec fn anchored_pos(pos: int, old_size: int, new_size: int) -> int {
    pos - half_toward_zero(new_size - old_size)
}

/// Candidate width of a tick that moves the rate for `s`.
pub open spec fn candidate_w(s: PlayerState, d: ResizeDirection, dt: int) -> int {
    size_curve(s.original_w as int, candidate_rate(s.inflation_rate as int, d, dt))
}

/// Candidate height; see [`candidate_w`].
pub open spec fn candidate_h(s: PlayerState, d: ResizeDirection, dt: int) -> int {
    size_curve(s.original_h as int, candidate_rate(s.inflation_rate as int, d, dt))
}

/// Candidate minimum-corner x position; see [`anchored_pos`].
pub open spec fn candidate_x(s: PlayerState, b: Body, d: ResizeDirection, dt: int) -> int {
    anchored_pos(b.pos_x as int, s.size_w as int, candidate_w(s, d, dt))
}

/// Candidate minimum-corner y position; see [`anchored_pos`].
pub open spec fn candidate_y(s: PlayerState, b: Body, d: ResizeDirection, dt: int) -> int {
    anchored_pos(b.pos_y as int, s.size_h as int, candidate_h(s, d, dt))
}

/// Whether the tick's candidate bounding box is obstructed in `g`.
pub open spec fn candidate_blocked(
    s: PlayerState,
    b: Body,
    g: TileCollisionGrid,
    d: ResizeDirection,
    dt: int,
) -> bool {
    g.box_blocked(candidate_x(s, b, d, dt), candidate_y(s, b, d, dt), candidate_w(s, d, dt),
        candidate_h(s, d, dt))
}

/// The gauge law: while growth is requested and drained, the remaining
/// resource never rises and never leaves the unit interval.
pub proof fn lemma_resource_monotone_under_drain(resource: int, dt: int)
    requires
        0 <= resource <= crate::progress::RESOURCE_FULL,
        1 <= dt,
    ensures
        0 <= resource_after_drain(resource, dt) <= resource,
        resource_after_drain(resource, dt) <= crate::progress::RESOURCE_FULL,
{
    crate::fixed::lemma_floor_div_in_range(RESOURCE_DRAIN_RATE as int * dt, SCALE as int);
    assert(0 <= RESOURCE_DRAIN_RATE as int * dt) by (nonlinear_arith)
        requires
            1 <= dt,
    ;
}

/// One tick of the inflation controller.
///
/// With no direction requested the tick only marks the resize inactive.
/// Requested growth on an empty gauge is rejected outright with no state
/// change. Otherwise growth drains the gauge, the candidate rate, size
/// and center-anchored position are computed, and the candidate is
/// committed exactly when the collision probe finds its bounding box
/// unobstructed; a committed tick also recomputes mass, gravity scale and
/// restitution from the new rate. An obstructed candidate changes nothing
/// but the already-drained gauge.
pub fn inflation_tick(
    state: &mut PlayerState,
    body: &mut Body,
    progress: &mut GameProgress,
    grid: &TileCollisionGrid,
    dir: ResizeDirection,
    dt: i64,
) -> (outcome: InflationOutcome)
    requires
        old(state).wf(),
        old(progress).wf(),
        grid.wf(),
        1 <= dt <= DT_MAX,
        -POS_LIMIT <= old(body).pos_x <= POS_LIMIT,
        -POS_LIMIT <= old(body).pos_y <= POS_LIMIT,
    ensures
        final(state).wf(),
        final(progress).wf(),
        // The gauge: drained exactly while growth is requested against a
        // non-empty reserve, never otherwise, and never refunded.
        final(progress).remaining_resource == (
            if dir is Grow && old(progress).remaining_resource > 0 {
                resource_after_drain(old(progress).remaining_resource as int, dt as int)
            } else {
                old(progress).remaining_resource as int
            }
        ),
        *final(progress) == (GameProgress {
            remaining_resource: final(progress).remaining_resource,
            ..*old(progress)
        }),
        dir is Grow ==> final(progress).remaining_resource <= old(
            progress,
        ).remaining_resource,
        // Outcome classification, exhaustively.
        outcome is Rested <==> dir is Idle,
        outcome is OutOfAir <==> dir is Grow && old(progress).remaining_resource == 0,
        outcome is Obstructed <==> (dir is Grow && old(progress).remaining_resource > 0
            || dir is Shrink) && candidate_blocked(*old(state), *old(body), *grid, dir, dt as int),
        outcome is Grew <==> dir is Grow && old(progress).remaining_resource > 0
            && !candidate_blocked(*old(state), *old(body), *grid, dir, dt as int),
        outcome is Shrunk <==> dir is Shrink && !candidate_blocked(
            *old(state),
            *old(body),
            *grid,
            dir,
            dt as int,
        ),
        // No direction: only the activity flag falls back to idle.
        outcome is Rested ==> *final(state) == (PlayerState {
            activity: ResizeActivity::Idle,
            ..*old(state)
        }) && *final(body) == *old(body),
        // Rejections leave the player and body untouched.
        outcome is OutOfAir ==> *final(state) == *old(state) && *final(body) == *old(body)
            && *final(progress) == *old(progress),
        outcome is Obstructed ==> *final(state) == *old(state) && *final(body) == *old(body),
        // A committed resize.
        outcome is Grew || outcome is Shrunk ==> {
            &&& final(state).inflation_rate == candidate_rate(
                old(state).inflation_rate as int,
                dir,
                dt as int,
            )
            &&& final(state).size_w == candidate_w(*old(state), dir, dt as int)
            &&& final(state).size_h == candidate_h(*old(state), dir, dt as int)
            &&& final(state).activity == (if dir is Grow {
                ResizeActivity::Growing
            } else {
                ResizeActivity::Shrinking
            })
            &&& *final(state) == (PlayerState {
                inflation_rate: final(state).inflation_rate,
                size_w: final(state).size_w,
                size_h: final(state).size_h,
                activity: final(state).activity,
                ..*old(state)
            })
            &&& final(body).pos_x == candidate_x(*old(state), *old(body), dir, dt as int)
            &&& final(body).pos_y == candidate_y(*old(state), *old(body), dir, dt as int)
            &&& final(body).mass == mass_of(final(state).inflation_rate as int)
            &&& final(body).gravity_scale == gravity_of(final(state).inflation_rate as int)
            &&& final(body).restitution == restitution_of(final(state).inflation_rate as int)
            &&& *final(body) == (Body {
                pos_x: final(body).pos_x,
                pos_y: final(body).pos_y,
                mass: final(body).mass,
                gravity_scale: final(body).gravity_scale,
                restitution: final(body).restitution,
                ..*old(body)
            })
            // The committed bounding box does not overlap any solid cell.
            &&& !grid.box_blocked(
                final(body).pos_x as int,
                final(body).pos_y as int,
                final(state).size_w as int,
                final(state).size_h as int,
            )
        },
{
    let grow = matches!(dir, ResizeDirection::Grow);
    if matches!(dir, ResizeDirection::Idle) {
        state.activity = ResizeActivity::Idle;
        return InflationOutcome::Rested;
    }
    if grow {
        if progress.remaining_resource <= 0 {
            return InflationOutcome::OutOfAir;
        }
        proof {
            crate::fixed::lemma_floor_div_in_range(
                RESOURCE_DRAIN_RATE as int * dt as int,
                SCALE as int,
            );
        }
        let drain = floor_div_i64(RESOURCE_DRAIN_RATE * dt, SCALE);
        progress.remaining_resource = max_i64(progress.remaining_resource - drain, 0);
    }
    proof {
        crate::fixed::lemma_floor_div_in_range(INFLATION_SPEED as int * dt as int, SCALE as int);
    }
    let step = floor_div_i64(INFLATION_SPEED * dt, SCALE);
    let signed_step: i64 = if grow {
        step
    } else {
        -step
    };
    let cand_rate = clamp_i64(state.inflation_rate + signed_step, MIN_RATE, MAX_RATE);
    let new_w = compute_size(state.original_w, cand_rate);
    let new_h = compute_size(state.original_h, cand_rate);
    proof {
        lemma_size_curve_bounds(state.original_w as int, state.inflation_rate as int);
        lemma_size_curve_bounds(state.original_h as int, state.inflation_rate as int);
        crate::fixed::lemma_half_in_range(new_w as int - state.size_w as int);
        crate::fixed::lemma_half_in_range(new_h as int - state.size_h as int);
    }
    let dx = half_i64(new_w - state.size_w);
    let dy = half_i64(new_h - state.size_h);
    let cand_x = body.pos_x - dx;
    let cand_y = body.pos_y - dy;
    if grid.probe_blocked(cand_x, cand_y, new_w, new_h) {
        return InflationOutcome::Obstructed;
    }
    state.inflation_rate = cand_rate;
    state.size_w = new_w;
    state.size_h = new_h;
    state.activity = if grow {
        ResizeActivity::Growing
    } else {
        ResizeActivity::Shrinking
    };
    body.pos_x = cand_x;
    body.pos_y = cand_y;
    proof {
        crate::fixed::lemma_floor_div_in_range((SCALE as int) * (SCALE as int), cand_rate as int);
        crate::fixed::lemma_floor_div_in_range(cand_rate as int, RESTITUTION_DIVISOR as int);
    }
    let ir = floor_div_i64(SCALE * SCALE, cand_rate);
    body.mass = clamp_i64(ir, MASS_MIN, MASS_MAX);
    body.gravity_scale = clamp_i64(ir, GRAVITY_MIN, GRAVITY_MAX);
    body.restitution = clamp_i64(
        floor_div_i64(cand_rate, RESTITUTION_DIVISOR),
        RESTITUTION_MIN,
        RESTITUTION_MAX,
    );
    if grow {
        InflationOutcome::Grew
    } else {
        InflationOutcome::Shrunk
    }
}

} // verus!
