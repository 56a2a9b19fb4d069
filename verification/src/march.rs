//! Walking the grid: classify every cell and collect its contour segments,
//! column by column, each column top to bottom.

use vstd::prelude::*;
use crate::classify::{cell_state, classify_cell};
use crate::grid::ScalarGrid;
use crate::segment::{
    interp_segments, midpoint_segments, segments_interpolated, segments_midpoint, Segment,
    MAX_RESOLUTION,
};

verus! {

/// The midpoint-mode segments of cell `(i, j)` of a grid at resolution `r`.
pub open spec fn cell_segments_mid(g: ScalarGrid, r: int, i: int, j: int) -> Seq<Segment> {
    midpoint_segments(
        cell_state(g.val(i, j), g.val(i + 1, j), g.val(i + 1, j + 1), g.val(i, j + 1)),
        1000 * (i * r),
        1000 * (j * r),
        r,
    )
}

/// The midpoint-mode segments of the first `n` cells of column `i`, top to
/// bottom.
pub open spec fn col_segments_mid(g: ScalarGrid, r: int, i: int, n: int) -> Seq<Segment>
    decreases n,
{
    if n <= 0 {
        Seq::empty()
    } else {
        col_segments_mid(g, r, i, n - 1) + cell_segments_mid(g, r, i, n - 1)
    }
}

/// The midpoint-mode segments of the first `n` cell columns of the grid.
pub open spec fn grid_segments_mid(g: ScalarGrid, r: int, n: int) -> Seq<Segment>
    decreases n,
{
    if n <= 0 {
        Seq::empty()
    } else {
        grid_segments_mid(g, r, n - 1) + col_segments_mid(g, r, n - 1, g.spec_rows() - 1)
    }
}

/// The interpolated-mode segments of cell `(i, j)` of a grid at resolution
/// `r` with interpolation parameter `t`.
pub open spec fn cell_segments_interp(g: ScalarGrid, r: int, t: int, i: int, j: int) -> Seq<
    Segment,
> {
    interp_segments(
        cell_state(g.val(i, j), g.val(i + 1, j), g.val(i + 1, j + 1), g.val(i, j + 1)),
        1000 * (i * r),
        1000 * (j * r),
        r,
        t,
        g.val(i, j),
        g.val(i + 1, j),
        g.val(i, j + 1),
        g.val(i + 1, j + 1),
    )
}

/// The interpolated-mode segments of the first `n` cells of column `i`.
pub open spec fn col_segments_interp(g: ScalarGrid, r: int, t: int, i: int, n: int) -> Seq<
    Segment,
>
    decreases n,
{
    if n <= 0 {
        Seq::empty()
    } else {
        col_segments_interp(g, r, t, i, n - 1) + cell_segments_interp(g, r, t, i, n - 1)
    }
}

/// The interpolated-mode segments of the first `n` cell columns of the grid.
pub open spec fn grid_segments_interp(g: ScalarGrid, r: int, t: int, n: int) -> Seq<Segment>
    decreases n,
{
    if n <= 0 {
        Seq::empty()
    } else {
        grid_segments_interp(g, r, t, n - 1) + col_segments_interp(
            g,
            r,
            t,
            n - 1,
            g.spec_rows() - 1,
        )
    }
}

/// A cell origin at bounded index and resolution stays within coordinate
/// bounds.
proof fn lemma_cell_origin(i: int, r: int)
    by (nonlinear_arith)
    requires
        0 <= i < 30_000,
        1 <= r <= 100_000,
    ensures
        0 <= i * r <= 3_000_000_000,
        0 <= 1000 * (i * r) <= 3_000_000_000_000,
{
}

/// Classify every cell of the grid and collect the midpoint-mode segments of
/// all of them, column by column, each column top to bottom.
#[verifier::loop_isolation(false)]
pub fn march_midpoint(grid: &ScalarGrid, r: i64) -> (segs: Vec<Segment>)
    requires
        grid.wf(),
        1 <= r <= MAX_RESOLUTION,
    ensures
        segs@ == grid_segments_mid(*grid, r as int, grid.spec_cols() - 1),
{
    let cols = grid.cols();
    let rows = grid.rows();
    let mut segs: Vec<Segment> = Vec::new();
    let mut i: usize = 0;
    while i < cols - 1
        invariant
            i <= cols - 1,
            segs@ == grid_segments_mid(*grid, r as int, i as int),
        decreases cols - 1 - i,
    {
        let mut j: usize = 0;
        while j < rows - 1
            invariant
                j <= rows - 1,
                i < cols - 1,
                segs@ == grid_segments_mid(*grid, r as int, i as int) + col_segments_mid(
                    *grid,
                    r as int,
                    i as int,
                    j as int,
                ),
            decreases rows - 1 - j,
        {
            proof {
                lemma_cell_origin(i as int, r as int);
                lemma_cell_origin(j as int, r as int);
            }
            let x: i64 = (i as i64) * r * 1000;
            let y: i64 = (j as i64) * r * 1000;
            let tl = grid.get(i, j);
            let tr = grid.get(i + 1, j);
            let br = grid.get(i + 1, j + 1);
            let bl = grid.get(i, j + 1);
            let state = classify_cell(tl, tr, br, bl);
            let mut cell = segments_midpoint(state, x, y, r);
            segs.append(&mut cell);
            j = j + 1;
        }
        i = i + 1;
    }
    segs
}

/// Classify every cell of the grid and collect the interpolated-mode
/// segments of all of them, column by column, each column top to bottom.
#[verifier::loop_isolation(false)]
pub fn march_interpolated(grid: &ScalarGrid, r: i64, t: i64) -> (segs: Vec<Segment>)
    requires
        grid.wf(),
        1 <= r <= MAX_RESOLUTION,
        0 <= t <= 1000,
    ensures
        segs@ == grid_segments_interp(*grid, r as int, t as int, grid.spec_cols() - 1),
{
    let cols = grid.cols();
    let rows = grid.rows();
    let mut segs: Vec<Segment> = Vec::new();
    let mut i: usize = 0;
    while i < cols - 1
        invariant
            i <= cols - 1,
            segs@ == grid_segments_interp(*grid, r as int, t as int, i as int),
        decreases cols - 1 - i,
    {
        let mut j: usize = 0;
        while j < rows - 1
            invariant
                j <= rows - 1,
                i < cols - 1,
                segs@ == grid_segments_interp(*grid, r as int, t as int, i as int)
                    + col_segments_interp(*grid, r as int, t as int, i as int, j as int),
            decreases rows - 1 - j,
        {
            proof {
                lemma_cell_origin(i as int, r as int);
                lemma_cell_origin(j as int, r as int);
            }
            let x: i64 = (i as i64) * r * 1000;
            let y: i64 = (j as i64) * r * 1000;
            let tl = grid.get(i, j);
            let tr = grid.get(i + 1, j);
            let br = grid.get(i + 1, j + 1);
            let bl = grid.get(i, j + 1);
            let state = classify_cell(tl, tr, br, bl);
            let mut cell = segments_interpolated(state, x, y, r, t, tl, tr, bl, br);
            segs.append(&mut cell);
            j = j + 1;
        }
        i = i + 1;
    }
    segs
}

} // verus!
