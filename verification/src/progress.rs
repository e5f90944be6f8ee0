//! Session-wide progress and the level-flow state machine.
//!
//! `GameProgress` persists across level loads within one session. Exit
//! triggers and death events record a pending level transition
//! (last-write-wins within a tick); at a single fixed point per tick the
//! pending index is taken, the external loader is attempted, and the
//! result is committed. The pending index is cleared exactly once whether
//! or not the load succeeds; `death_count` never decreases.

use vstd::prelude::*;

verus! {

/// The gauge value of a completely filled air reserve (1.0 world units).
pub const RESOURCE_FULL: i64 = 1_000_000;

/// Process-wide progress record, created once at game start.
#[derive(Clone, Copy, Debug, PartialEq, Eq)]
pub struct GameProgress {
    /// Index of the level currently being played.
    pub current_level: usize,
    /// Level transition recorded during this tick, if any; consumed at
    /// most once per tick boundary.
    pub pending_level: Option<usize>,
    /// How often the player has died this session; never decreases.
    pub death_count: usize,
    /// Consumable "air" gauge in `[0, RESOURCE_FULL]`, drained by growth.
    pub remaining_resource: i64,
}

/// The progress record after a death event: the death counter steps up
/// and the current level is recorded as the pending (reload) target.
pub open spec fn death_step(p: GameProgress) -> GameProgress {
    GameProgress {
        death_count: (p.death_count + 1) as usize,
        pending_level: Some(p.current_level),
        ..p
    }
}

/// The progress record after an exit trigger: the next level becomes the
/// pending target.
pub open spec fn exit_step(p: GameProgress) -> GameProgress {
    GameProgress { pending_level: Some((p.current_level + 1) as usize), ..p }
}

/// Taking the pending transition at the tick boundary clears it; nothing
/// else changes.
pub open spec fn take_step(p: GameProgress) -> GameProgress {
    GameProgress { pending_level: None, ..p }
}

/// Committing a load attempt: on success the target becomes current and
/// the per-level resettable gauge empties; on failure nothing changes.
/// The death counter is untouched either way.
pub open spec fn finish_step(p: GameProgress, target: usize, success: bool) -> GameProgress {
    if success {
        GameProgress { current_level: target, remaining_resource: 0, ..p }
    } else {
        p
    }
}

impl GameProgress {
    /// The gauge always stays within its unit interval.
    pub open spec fn wf(self) -> bool {
        0 <= self.remaining_resource <= RESOURCE_FULL
    }

    /// Session start: level zero, no deaths, no pending transition, an
    /// empty gauge.
    pub fn new() -> (p: GameProgress)
        ensures
            p.wf(),
            p.current_level == 0,
            p.pending_level is None,
            p.death_count == 0,
            p.remaining_resource == 0,
    {
        GameProgress {
            current_level: 0,
            pending_level: None,
            death_count: 0,
            remaining_resource: 0,
        }
    }

    /// Record a transition request toward `target`. A later request in
    /// the same tick simply overwrites this one: last write wins, there
    /// is no queue.
    pub fn request_transition(&mut self, target: usize)
        ensures
            *final(self) == (GameProgress { pending_level: Some(target), ..*old(self) }),
    {
        self.pending_level = Some(target);
    }

    /// An exit-trigger touch: request the next level.
    pub fn trigger_exit(&mut self)
        requires
            old(self).current_level < usize::MAX,
        ensures
            *final(self) == exit_step(*old(self)),
            final(self).pending_level == Some((old(self).current_level + 1) as usize),
    {
        let target = self.current_level + 1;
        self.request_transition(target);
    }

    /// A player-death event: the death counter increments
    /// unconditionally, before and independently of the respawn load, and
    /// the current level is requested for reload.
    pub fn record_death(&mut self)
        requires
            old(self).death_count < usize::MAX,
        ensures
            *final(self) == death_step(*old(self)),
            final(self).death_count == old(self).death_count + 1,
            final(self).pending_level == Some(old(self).current_level),
    {
        self.death_count = self.death_count + 1;
        let target = self.current_level;
        self.request_transition(target);
    }

    /// An air pick-up refills the gauge completely.
    pub fn refill_resource(&mut self)
        ensures
            *final(self) == (GameProgress { remaining_resource: RESOURCE_FULL as i64, ..*old(
                self,
            ) }),
            final(self).wf(),
    {
        self.remaining_resource = RESOURCE_FULL;
    }

    /// The tick boundary: take the pending transition, clearing it
    /// exactly once whether or not the coming load attempt succeeds.
    pub fn take_pending(&mut self) -> (target: Option<usize>)
        ensures
            target == old(self).pending_level,
            *final(self) == take_step(*old(self)),
    {
        let target = self.pending_level;
        self.pending_level = None;
        target
    }

    /// Commit the outcome of the external load attempt for `target`. On
    /// success the target becomes the current level and every per-level
    /// resettable field clears; on failure the game continues on the
    /// current level. There is no automatic retry: the pending slot was
    /// already cleared by [`Self::take_pending`].
    pub fn finish_load(&mut self, target: usize, success: bool)
        requires
            old(self).wf(),
        ensures
            *final(self) == finish_step(*old(self), target, success),
            final(self).wf(),
            final(self).death_count == old(self).death_count,
            success ==> final(self).current_level == target
                && final(self).remaining_resource == 0,
            !success ==> *final(self) == *old(self),
    {
        if success {
            self.current_level = target;
            self.remaining_resource = 0;
        }
    }
}

/// One death event raises `death_count` by exactly one, whether or not
/// the respawn load that follows succeeds: the event itself steps the
/// counter, and the take/finish boundary never touches it.
pub proof fn lemma_death_counts_once(p: GameProgress, success: bool)
    requires
        p.death_count < usize::MAX,
    ensures
        ({
            let after_event = death_step(p);
            let at_boundary = take_step(after_event);
            let after_load = finish_step(at_boundary, p.current_level, success);
            after_load.death_count == p.death_count + 1
        }),
{
}

/// Within one tick the last recorded transition wins: whatever was
/// pending before, a later request replaces it, and the boundary loads
/// only that target.
pub proof fn lemma_last_transition_wins(p: GameProgress, first: usize, second: usize)
    ensures
        ({
            let q = GameProgress { pending_level: Some(second), ..
                (GameProgress { pending_level: Some(first), ..p }) };
            q.pending_level == Some(second) && take_step(q).pending_level is None
        }),
{
}

/// The percentage the HUD gauge shows: the unit-interval resource mapped
/// to `[0, 100]`.
pub fn gauge_percent(resource: i64) -> (pct: u8)
    requires
        0 <= resource <= RESOURCE_FULL,
    ensures
        pct == resource as int * 100 / (RESOURCE_FULL as int),
        0 <= pct <= 100,
{
    proof {
        vstd::arithmetic::div_mod::lemma_div_is_ordered(
            resource as int * 100,
            RESOURCE_FULL as int * 100,
            RESOURCE_FULL as int,
        );
        assert(resource as int * 100 <= RESOURCE_FULL as int * 100) by (nonlinear_arith)
            requires
                resource <= RESOURCE_FULL,
        ;
        assert(resource as int * 100 >= 0) by (nonlinear_arith)
            requires
                resource >= 0,
        ;
        vstd::arithmetic::div_mod::lemma_div_pos_is_pos(resource as int * 100, RESOURCE_FULL as int);
        assert(RESOURCE_FULL as int * 100 / (RESOURCE_FULL as int) == 100) by {
            vstd::arithmetic::div_mod::lemma_div_multiples_vanish(100, RESOURCE_FULL as int);
        }
    }
    let scaled = crate::fixed::floor_div_i64(resource * 100, RESOURCE_FULL);
    scaled as u8
}

} // verus!
