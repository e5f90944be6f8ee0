use balloon_core::cue::{
    CueClip, CuePool, CueRequest, death_cue, growth_loop_cue, load_sound_files, shrink_cue,
    stop_growth_loop,
};
use balloon_core::grid::TileCollisionGrid;

const CELL: i64 = 32_000_000;

fn grid_from(width: usize, height: usize, cells: Vec<u32>) -> TileCollisionGrid {
    TileCollisionGrid::new(width, height, CELL, cells)
}

#[test]
fn get_returns_cells_inside_and_none_outside() {
    let grid = grid_from(2, 2, vec![0, 7, 0, 0]);
    assert_eq!(grid.get(0, 0), Some(0));
    assert_eq!(grid.get(1, 0), Some(7));
    assert_eq!(grid.get(2, 0), None);
    assert_eq!(grid.get(0, -1), None);
}

#[test]
fn probe_is_clear_over_empty_cells() {
    let grid = grid_from(4, 4, vec![0; 16]);
    assert!(!grid.probe_blocked(32_000_000, 32_000_000, 31_000_000, 31_000_000));
}

#[test]
fn probe_blocks_on_an_occupied_cell() {
    let mut cells = vec![0u32; 16];
    cells[1 * 4 + 1] = 9;
    let grid = grid_from(4, 4, cells);
    assert!(grid.probe_blocked(32_000_000, 32_000_000, 31_000_000, 31_000_000));
}

#[test]
fn probe_fails_closed_outside_the_known_grid() {
    let grid = grid_from(4, 4, vec![0; 16]);
    // crossing the left edge reaches cell -1.
    assert!(grid.probe_blocked(-64_000_000, 32_000_000, 31_000_000, 31_000_000));
    // crossing the bottom edge reaches a row past the grid.
    assert!(grid.probe_blocked(32_000_000, 120_000_000, 31_000_000, 31_000_000));
}

#[test]
fn probe_covers_no_cell_strictly_inside_one_tile() {
    // a box that crosses no cell boundary covers an empty inclusive
    // range, so even an all-solid grid reports it clear.
    let grid = grid_from(4, 4, vec![1; 16]);
    assert!(!grid.probe_blocked(33_000_000, 33_000_000, 20_000_000, 20_000_000));
}

#[test]
fn probe_counts_a_touched_upper_boundary() {
    // the box [32e6, 64e6] touches the boundary of cell 2, which the
    // inclusive ceil/floor range covers.
    let mut cells = vec![0u32; 16];
    cells[1 * 4 + 2] = 1;
    let grid = grid_from(4, 4, cells);
    assert!(grid.probe_blocked(32_000_000, 32_000_000, 32_000_000, 31_000_000));
}

#[test]
fn landing_cue_fires_only_on_hard_unarmed_impacts() {
    let mut pool = CuePool::new();
    load_sound_files(&mut pool, 8);

    // armed (grounded, fresh) impacts stay silent.
    assert_eq!(pool.landing_cue(true, 200_000_000, 0), None);
    // |vx| + |vy| at the threshold exactly does not fire.
    assert_eq!(pool.landing_cue(false, 60_000_000, 60_000_000), None);
    // just above the threshold it fires.
    let cue = pool.landing_cue(false, -60_000_000, 60_000_001).unwrap();
    match cue.clip {
        CueClip::Landing(i) => assert!(i < 8),
        other => panic!("unexpected clip {:?}", other),
    }
    assert_eq!(cue.volume, 300_000);
    assert!(cue.playback_rate >= 2_800_000 && cue.playback_rate < 3_400_000);
    assert_eq!(cue.loop_end, None);
}

#[test]
fn landing_cue_randomness_stays_inside_its_bands() {
    let mut pool = CuePool::new();
    load_sound_files(&mut pool, 3);
    for _ in 0..200 {
        let cue = pool.landing_cue(false, 500_000_000, 0).unwrap();
        match cue.clip {
            CueClip::Landing(i) => assert!(i < 3),
            other => panic!("unexpected clip {:?}", other),
        }
        assert!(cue.playback_rate >= 2_800_000 && cue.playback_rate < 3_400_000);
    }
}

#[test]
fn empty_pool_degrades_to_silence() {
    let pool = CuePool::new();
    assert_eq!(pool.landing_cue(false, 500_000_000, 0), None);
}

#[test]
fn growth_loop_starts_once_and_idles_while_running() {
    let started = growth_loop_cue(true, false).unwrap();
    assert_eq!(
        started,
        CueRequest {
            clip: CueClip::Inflate,
            volume: 500_000,
            playback_rate: 2_400_000,
            loop_end: Some(1_000_000),
        }
    );
    // already running: left idempotently alone.
    assert_eq!(growth_loop_cue(true, true), None);
    // not accepted this tick: nothing starts.
    assert_eq!(growth_loop_cue(false, false), None);
}

#[test]
fn growth_loop_stops_with_a_fade_when_growth_ends() {
    assert_eq!(stop_growth_loop(false, true), Some(500_000));
    assert_eq!(stop_growth_loop(true, true), None);
    assert_eq!(stop_growth_loop(false, false), None);
}

#[test]
fn shrink_cue_respects_its_suppression_window() {
    // a recent instance still inside the window suppresses the restart.
    assert_eq!(shrink_cue(true, 1_900_000), None);
    // past the window, or with nothing playing, it fires at its pitch.
    let fired = shrink_cue(true, 2_000_000).unwrap();
    assert_eq!(fired.playback_rate, 3_800_000);
    assert_eq!(fired.volume, 500_000);
    assert_eq!(fired.loop_end, None);
    assert!(shrink_cue(false, 0).is_some());
}

#[test]
fn death_cue_is_fixed_and_unconditional() {
    let cue = death_cue();
    assert_eq!(
        cue,
        CueRequest {
            clip: CueClip::Death,
            volume: 1_000_000,
            playback_rate: 2_000_000,
            loop_end: None,
        }
    );
}
