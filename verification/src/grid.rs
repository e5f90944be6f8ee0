//! The tile occupancy grid and the collision probe.
//!
//! A level's collision data is a per-level immutable 2D array of cell
//! occupancy values plus a cell size. The probe is a pure query: given an
//! axis-aligned bounding box it reports whether the box is obstructed. A
//! cell is obstructing when its occupancy value is non-zero or when it lies
//! outside the known grid bounds (the query fails closed, so nothing can
//! resize or move into unmapped territory).

use vstd::prelude::*;
use crate::fixed::{ceil_div, ceil_div_i64, floor_div, floor_div_i64};

verus! {

/// Coordinates handed to the probe must stay below this magnitude
/// (fixed-point sub-units) so that the covered cell range can be computed
/// without overflow.
pub const COORD_LIMIT: i64 = 1_000_000_000_000_000;

/// Largest accepted cell size, in fixed-point sub-units.
pub const CELL_SIZE_MAX: i64 = 1_000_000_000_000;

/// Immutable tile occupancy data for one level.
///
/// `cells` is stored row-major: the occupancy of cell `(x, y)` is
/// `cells[y * width + x]`. An occupancy of `0` means empty; any other value
/// is solid.
pub struct TileCollisionGrid {
    pub width: usize,
    pub height: usize,
    pub cell_size: i64,
    pub cells: Vec<u32>,
}

impl TileCollisionGrid {
    /// Shape validity: a positive, bounded cell size and a cell vector that
    /// covers exactly `width * height` entries.
    pub open spec fn wf(self) -> bool {
        &&& 1 <= self.cell_size <= CELL_SIZE_MAX
        &&& self.cells@.len() == self.width * self.height
    }

    /// Is `(x, y)` a cell of the known grid?
    pub open spec fn in_bounds(self, x: int, y: int) -> bool {
        0 <= x < self.width && 0 <= y < self.height
    }

    /// The occupancy lookup of the external interface: `None` outside the
    /// known bounds, otherwise the stored occupancy value.
    pub open spec fn spec_get(self, x: int, y: int) -> Option<u32> {
        if self.in_bounds(x, y) {
            Some(self.cells@[y * self.width + x])
        } else {
            None
        }
    }

    /// A cell obstructs when it is unknown (fail closed) or occupied.
    pub open spec fn solid_at(self, x: int, y: int) -> bool {
        !self.in_bounds(x, y) || self.cells@[y * self.width + x] != 0
    }

    /// Is the axis-aligned box with minimum corner `(min_x, min_y)` and
    /// size `(w, h)` obstructed? The box covers the inclusive cell range
    /// from `ceil(min / cell_size)` to `floor((min + size) / cell_size)`
    /// on each axis; the box is obstructed when any covered cell is solid.
    pub open spec fn box_blocked(self, min_x: int, min_y: int, w: int, h: int) -> bool {
        exists |cx: int, cy: int|
            ceil_div(min_x, self.cell_size as int) <= cx
                <= floor_div(min_x + w, self.cell_size as int)
            && ceil_div(min_y, self.cell_size as int) <= cy
                <= floor_div(min_y + h, self.cell_size as int)
            && #[trigger] self.solid_at(cx, cy)
    }

    /// Build a grid from its dimensions and row-major occupancy values.
    pub fn new(width: usize, height: usize, cell_size: i64, cells: Vec<u32>) -> (g:
        TileCollisionGrid)
        requires
            1 <= cell_size <= CELL_SIZE_MAX,
            cells@.len() == width * height,
        ensures
            g.wf(),
            g == (TileCollisionGrid { width, height, cell_size, cells }),
    {
        TileCollisionGrid { width, height, cell_size, cells }
    }

    /// The occupancy lookup of the external interface.
    pub fn get(&self, x: i64, y: i64) -> (c: Option<u32>)
        requires
            self.wf(),
        ensures
            c == self.spec_get(x as int, y as int),
    {
        if 0 <= x && 0 <= y && (x as u64) < (self.width as u64) && (y as u64) < (self.height
            as u64) {
            let xi = x as usize;
            let yi = y as usize;
            let n = self.cells.len();
            proof {
                assert(yi * self.width + xi < self.width * self.height) by (nonlinear_arith)
                    requires
                        0 <= xi < self.width,
                        0 <= yi < self.height,
                ;
                assert(yi * self.width + xi < n);
            }
            Some(self.cells[yi * self.width + xi])
        } else {
            None
        }
    }

    /// Is the cell `(x, y)` solid (occupied or outside the known grid)?
    pub fn solid(&self, x: i64, y: i64) -> (s: bool)
        requires
            self.wf(),
        ensures
            s == self.solid_at(x as int, y as int),
    {
        match self.get(x, y) {
            Some(v) => v != 0,
            None => true,
        }
    }

    /// The collision probe: scan every cell covered by the box and report
    /// whether one of them obstructs. Pure and side-effect free, so a
    /// caller may probe a speculative candidate box and discard it.
    pub fn probe_blocked(&self, min_x: i64, min_y: i64, w: i64, h: i64) -> (b: bool)
        requires
            self.wf(),
            0 <= w <= COORD_LIMIT,
            0 <= h <= COORD_LIMIT,
            -COORD_LIMIT <= min_x <= COORD_LIMIT,
            -COORD_LIMIT <= min_y <= COORD_LIMIT,
        ensures
            b == self.box_blocked(min_x as int, min_y as int, w as int, h as int),
    {
        let cs = self.cell_size;
        let x_lo = ceil_div_i64(min_x, cs);
        let x_hi = floor_div_i64(min_x + w, cs);
        let y_lo = ceil_div_i64(min_y, cs);
        let y_hi = floor_div_i64(min_y + h, cs);
        proof {
            crate::fixed::lemma_floor_div_in_range(min_x as int + w as int, cs as int);
            crate::fixed::lemma_floor_div_in_range(min_y as int + h as int, cs as int);
            crate::fixed::lemma_ceil_div_in_range(min_x as int, cs as int);
            crate::fixed::lemma_ceil_div_in_range(min_y as int, cs as int);
        }
        let mut cy = y_lo;
        while cy <= y_hi
            invariant
                self.wf(),
                x_lo == ceil_div(min_x as int, cs as int),
                x_hi == floor_div(min_x as int + w as int, cs as int),
                y_lo == ceil_div(min_y as int, cs as int),
                y_hi == floor_div(min_y as int + h as int, cs as int),
                y_lo <= cy,
                -2 * COORD_LIMIT <= cy <= 2 * COORD_LIMIT + 1,
                -2 * COORD_LIMIT <= y_hi <= 2 * COORD_LIMIT,
                -2 * COORD_LIMIT <= x_lo <= 2 * COORD_LIMIT,
                -2 * COORD_LIMIT <= x_hi <= 2 * COORD_LIMIT,
                cs == self.cell_size,
                forall |ax: int, ay: int|
                    x_lo <= ax <= x_hi && y_lo <= ay < cy ==> !(#[trigger] self.solid_at(ax, ay)),
            decreases y_hi - cy + 1,
        {
            let mut cx = x_lo;
            while cx <= x_hi
                invariant
                    self.wf(),
                    x_lo <= cx,
                    -2 * COORD_LIMIT <= cx <= 2 * COORD_LIMIT + 1,
                    -2 * COORD_LIMIT <= x_hi <= 2 * COORD_LIMIT,
                    x_lo == ceil_div(min_x as int, cs as int),
                    x_hi == floor_div(min_x as int + w as int, cs as int),
                    y_lo == ceil_div(min_y as int, cs as int),
                    y_hi == floor_div(min_y as int + h as int, cs as int),
                    y_lo <= cy <= y_hi,
                    cs == self.cell_size,
                    forall |ax: int| x_lo <= ax < cx ==> !(#[trigger] self.solid_at(ax, cy as int)),
                decreases x_hi - cx + 1,
            {
                if self.solid(cx, cy) {
                    assert(self.box_blocked(min_x as int, min_y as int, w as int, h as int));
                    return true;
                }
                cx = cx + 1;
            }
            cy = cy + 1;
        }
        false
    }
}

} // verus!
