//! The cue dispatcher: mapping gameplay events to audio-cue decisions.
//!
//! Every decision here is about *which* clip to trigger, at what volume,
//! playback rate and loop settings; actually mixing and playing the clip
//! is the audio backend's business. The backend reports plain facts in
//! (whether the growth loop is playing, the elapsed position of the
//! current cue) and receives plain requests out. An empty clip pool
//! degrades to "no cue fires" rather than raising an error.

use vstd::prelude::*;
use crate::fixed::abs_int;
use crate::player::VEL_LIMIT;
use vstd::arithmetic::div_mod::lemma_mod_division_less_than_divisor;

verus! {

/// A hard landing fires only above this total speed (120 world units/s).
pub const IMPACT_THRESHOLD: i64 = 120_000_000;

/// Volume of a landing one-shot (0.3).
pub const LANDING_VOLUME: i64 = 300_000;

/// Lower end of the random landing playback-rate band (2.8).
pub const LANDING_RATE_LO: i64 = 2_800_000;

/// Upper end (exclusive) of the random landing playback-rate band (3.4).
pub const LANDING_RATE_HI: i64 = 3_400_000;

/// Volume of the growth loop (0.5).
pub const GROWTH_VOLUME: i64 = 500_000;

/// Playback rate of the growth loop (2.4).
pub const GROWTH_RATE: i64 = 2_400_000;

/// End of the growth loop region (1.0 second).
pub const GROWTH_LOOP_END: i64 = 1_000_000;

/// Fade applied when the growth loop is stopped (0.5 seconds).
pub const STOP_FADE: i64 = 500_000;

/// Volume of the shrink one-shot (0.5).
pub const SHRINK_VOLUME: i64 = 500_000;

/// Playback rate of the shrink one-shot (3.8).
pub const SHRINK_RATE: i64 = 3_800_000;

/// A shrink one-shot is suppressed while the current cue's elapsed
/// position is under this window (2.0 seconds).
pub const SHRINK_SUPPRESS_WINDOW: i64 = 2_000_000;

/// Playback rate of the death one-shot (2.0).
pub const DEATH_RATE: i64 = 2_000_000;

/// Unattenuated volume (1.0).
pub const FULL_VOLUME: i64 = 1_000_000;

/// Which clip a cue request names.
#[derive(Clone, Copy, Debug, PartialEq, Eq, Structural)]
pub enum CueClip {
    /// One clip of the landing pool, by index.
    Landing(usize),
    /// The inflate/deflate clip.
    Inflate,
    /// The death clip.
    Death,
}

/// A complete cue decision: clip choice, volume, playback rate, and the
/// loop region end for a looping cue.
#[derive(Clone, Copy, Debug, PartialEq, Eq)]
pub struct CueRequest {
    pub clip: CueClip,
    pub volume: i64,
    pub playback_rate: i64,
    pub loop_end: Option<i64>,
}

/// The dispatcher's record of what the external loader made available.
#[derive(Clone, Copy, Debug, PartialEq, Eq, Structural)]
pub struct CuePool {
    /// Number of clips in the landing pool; zero degrades to silence.
    pub landing_clip_count: usize,
}

impl CuePool {
    /// An empty pool: every landing cue degrades to silence until the
    /// external loader reports its clips.
    pub fn new() -> (pool: CuePool)
        ensures
            pool.landing_clip_count == 0,
    {
        CuePool { landing_clip_count: 0 }
    }

    /// The hard-landing decision. Fires only when the impact was not
    /// jump-armed (the player was airborne, not freshly jump-initiated)
    /// and the total speed exceeds the impact threshold; picks a clip
    /// uniformly from the pool and a playback rate uniformly within the
    /// band, to avoid audible repetition.
    pub fn landing_cue(&self, can_jump: bool, vel_x: i64, vel_y: i64) -> (cue: Option<CueRequest>)
        requires
            -VEL_LIMIT <= vel_x <= VEL_LIMIT,
            -VEL_LIMIT <= vel_y <= VEL_LIMIT,
        ensures
            cue is Some <==> !can_jump && abs_int(vel_x as int) + abs_int(vel_y as int)
                > IMPACT_THRESHOLD && self.landing_clip_count > 0,
            cue matches Some(c) ==> {
                &&& c.clip matches CueClip::Landing(i) && i < self.landing_clip_count
                &&& c.volume == LANDING_VOLUME
                &&& LANDING_RATE_LO <= c.playback_rate < LANDING_RATE_HI
                &&& c.loop_end is None
            },
    {
        let ax = if vel_x >= 0 {
            vel_x
        } else {
            -vel_x
        };
        let ay = if vel_y >= 0 {
            vel_y
        } else {
            -vel_y
        };
        if can_jump || ax + ay <= IMPACT_THRESHOLD || self.landing_clip_count == 0 {
            return None;
        }
        let idx = random_below(self.landing_clip_count as u64) as usize;
        let offset = random_below((LANDING_RATE_HI - LANDING_RATE_LO) as u64) as i64;
        Some(
            CueRequest {
                clip: CueClip::Landing(idx),
                volume: LANDING_VOLUME,
                playback_rate: LANDING_RATE_LO + offset,
                loop_end: None,
            },
        )
    }
}

/// Record how many landing clips the external sound loader has made
/// available to the dispatcher.
pub fn load_sound_files(pool: &mut CuePool, landing_clip_count: usize)
    ensures
        *final(pool) == (CuePool { landing_clip_count }),
{
    pool.landing_clip_count = landing_clip_count;
}

/// The growth-loop decision: start the looping inflate cue exactly when
/// growth was accepted this tick and no loop is currently playing;
/// otherwise the already-running loop is left alone.
pub fn growth_loop_cue(growth_accepted: bool, loop_playing: bool) -> (cue: Option<CueRequest>)
    ensures
        cue is Some <==> growth_accepted && !loop_playing,
        cue matches Some(c) ==> c == (CueRequest {
            clip: CueClip::Inflate,
            volume: GROWTH_VOLUME,
            playback_rate: GROWTH_RATE,
            loop_end: Some(GROWTH_LOOP_END),
        }),
{
    if growth_accepted && !loop_playing {
        Some(
            CueRequest {
                clip: CueClip::Inflate,
                volume: GROWTH_VOLUME,
                playback_rate: GROWTH_RATE,
                loop_end: Some(GROWTH_LOOP_END),
            },
        )
    } else {
        None
    }
}

/// The stop decision: fade the active growth loop out the first tick
/// growth is no longer requested.
pub fn stop_growth_loop(growth_requested: bool, loop_active: bool) -> (fade: Option<i64>)
    ensures
        fade is Some <==> !growth_requested && loop_active,
        fade matches Some(d) ==> d == STOP_FADE,
{
    if !growth_requested && loop_active {
        Some(STOP_FADE)
    } else {
        None
    }
}

/// The shrink one-shot decision: play the inflate clip at the distinct
/// shrink pitch, unless a recent instance is still inside its suppression
/// window (measured against the currently playing cue's elapsed
/// position).
pub fn shrink_cue(cue_playing: bool, position: i64) -> (cue: Option<CueRequest>)
    requires
        0 <= position,
    ensures
        cue is None <==> cue_playing && position < SHRINK_SUPPRESS_WINDOW,
        cue matches Some(c) ==> c == (CueRequest {
            clip: CueClip::Inflate,
            volume: SHRINK_VOLUME,
            playback_rate: SHRINK_RATE,
            loop_end: None,
        }),
{
    if cue_playing && position < SHRINK_SUPPRESS_WINDOW {
        None
    } else {
        Some(
            CueRequest {
                clip: CueClip::Inflate,
                volume: SHRINK_VOLUME,
                playback_rate: SHRINK_RATE,
                loop_end: None,
            },
        )
    }
}

/// The death decision: the fixed death clip with its fixed pitch shift,
/// unconditionally, once per death event.
pub fn death_cue() -> (cue: CueRequest)
    ensures
        cue == (CueRequest {
            clip: CueClip::Death,
            volume: FULL_VOLUME as i64,
            playback_rate: DEATH_RATE,
            loop_end: None,
        }),
{
    CueRequest { clip: CueClip::Death, volume: FULL_VOLUME, playback_rate: DEATH_RATE, loop_end: None }
}

/// Relies on `rand::random`: an arbitrary value of the target type drawn
/// from the thread-local generator. Nothing can be promised of a random
/// value, so this carries no postcondition.
pub assume_specification<T>[ rand::random::<T> ]() -> (r: T)
    where
        rand::distributions::Standard: rand::distributions::Distribution<T>,
;

/// A uniformly-ish distributed index below `n`, reduced from a random
/// machine word.
fn random_below(n: u64) -> (r: u64)
    requires
        1 <= n,
    ensures
        r < n,
{
    let raw = rand::random::<u64>();
    let r = raw % n;
    proof {
        lemma_mod_division_less_than_divisor(raw as int, n as int);
    }
    r
}

} // verus!
