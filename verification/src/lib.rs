//! Core logic of a 2D "inflatable balloon" platformer: the variable-geometry
//! player controller, its tile-aware collision-safe resize algorithm, the
//! charge-based jump mechanic, the level-progression/respawn state machine,
//! and the audio-cue dispatch decisions coupled to physical events.
//!
//! All scalar quantities (rates, sizes, positions, velocities, durations)
//! are fixed-point integers with `fixed::SCALE` sub-units per world unit,
//! so that every computation here is exact and verified. The rendering,
//! audio mixing, asset loading and rigid-body integration that surround this
//! core are external collaborators and are only described at their interface
//! boundary (plain values in, plain values out).

pub mod cue;
pub mod fixed;
pub mod grid;
pub mod inflation;
pub mod jump;
pub mod player;
pub mod progress;
