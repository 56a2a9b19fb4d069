//! The scalar grid: one fixed-point sample per grid vertex, row-major, with
//! fixed dimensions. The grid is overwritten vertex by vertex each frame and
//! read back during classification.

use vstd::prelude::*;
use crate::segment::SAMPLE_LIMIT;

verus! {

/// Largest accepted vertex count along either axis.
pub const MAX_DIM: usize = 30_000;

/// A row-major grid of fixed-point samples, one per vertex.
pub struct ScalarGrid {
    pub cols: usize,
    pub rows: usize,
    pub vals: Vec<i64>,
}

impl ScalarGrid {
    /// Well-formed: bounded dimensions, exactly `rows * cols` samples, every
    /// sample within `SAMPLE_LIMIT`.
    pub open spec fn wf(&self) -> bool {
        &&& 1 <= self.cols <= MAX_DIM
        &&& 1 <= self.rows <= MAX_DIM
        &&& self.vals@.len() == self.rows * self.cols
        &&& forall|k: int|
            0 <= k < self.vals@.len() ==> -SAMPLE_LIMIT <= #[trigger] self.vals@[k]
                <= SAMPLE_LIMIT
    }

    /// The number of vertex columns.
    pub open spec fn spec_cols(&self) -> int {
        self.cols as int
    }

    /// The number of vertex rows.
    pub open spec fn spec_rows(&self) -> int {
        self.rows as int
    }

    /// The sample at vertex `(i, j)`: column `i`, row `j`.
    pub open spec fn val(&self, i: int, j: int) -> int {
        self.vals@[j * self.spec_cols() + i] as int
    }

    /// Row `j` of the grid as a sequence of samples.
    pub open spec fn row_seq(&self, j: int) -> Seq<i64> {
        self.vals@.subrange(j * self.spec_cols(), (j + 1) * self.spec_cols())
    }

    /// The grid as a sequence of rows.
    pub open spec fn rows_view(&self) -> Seq<Seq<i64>> {
        Seq::new(self.spec_rows() as nat, |j: int| self.row_seq(j))
    }

    /// A well-formed grid holds exactly `rows` rows of exactly `cols` samples
    /// each, and the row view agrees with vertex addressing.
    pub proof fn lemma_grid_shape(&self)
        requires
            self.wf(),
        ensures
            self.rows_view().len() == self.spec_rows(),
            forall|j: int|
                0 <= j < self.spec_rows() ==> (#[trigger] self.rows_view()[j]).len()
                    == self.spec_cols(),
            forall|i: int, j: int|
                0 <= i < self.spec_cols() && 0 <= j < self.spec_rows()
                    ==> #[trigger] self.rows_view()[j][i] == self.val(i, j),
    {
        assert forall|j: int| 0 <= j < self.spec_rows() implies (
        #[trigger] self.rows_view()[j]).len() == self.spec_cols() by {
            lemma_row_bounds(self.spec_cols(), self.spec_rows(), j);
            assert(self.rows_view()[j] == self.row_seq(j));
        }
        assert forall|i: int, j: int|
            0 <= i < self.spec_cols() && 0 <= j
                < self.spec_rows() implies #[trigger] self.rows_view()[j][i] == self.val(
            i,
            j,
        ) by {
            lemma_row_bounds(self.spec_cols(), self.spec_rows(), j);
            lemma_vertex_index(self.spec_cols(), self.spec_rows(), i, j);
            assert(self.rows_view()[j] == self.row_seq(j));
            assert(self.row_seq(j)[i] == self.vals@[j * self.spec_cols() + i]);
        }
    }

    /// Allocate a grid of the given dimensions, every sample zero.
    pub fn new(cols: usize, rows: usize) -> (g: ScalarGrid)
        requires
            1 <= cols <= MAX_DIM,
            1 <= rows <= MAX_DIM,
        ensures
            g.wf(),
            g.spec_cols() == cols,
            g.spec_rows() == rows,
            forall|i: int, j: int| 0 <= i < cols && 0 <= j < rows ==> g.val(i, j) == 0,
    {
        proof {
            lemma_dims_product(cols as int, rows as int);
        }
        let n: usize = rows * cols;
        let mut vals: Vec<i64> = Vec::new();
        let mut k: usize = 0;
        while k < n
            invariant
                k <= n,
                vals@.len() == k,
                forall|m: int| 0 <= m < k ==> #[trigger] vals@[m] == 0,
            decreases n - k,
        {
            vals.push(0);
            k = k + 1;
        }
        let g = ScalarGrid { cols, rows, vals };
        proof {
            assert forall|i: int, j: int| 0 <= i < cols && 0 <= j < rows implies g.val(i, j)
                == 0 by {
                lemma_vertex_index(cols as int, rows as int, i, j);
            }
        }
        g
    }

    /// The number of vertex columns.
    pub fn cols(&self) -> (c: usize)
        ensures
            c == self.spec_cols(),
    {
        self.cols
    }

    /// The number of vertex rows.
    pub fn rows(&self) -> (r: usize)
        ensures
            r == self.spec_rows(),
    {
        self.rows
    }

    /// Read the sample at vertex `(i, j)`.
    pub fn get(&self, i: usize, j: usize) -> (v: i64)
        requires
            self.wf(),
            i < self.spec_cols(),
            j < self.spec_rows(),
        ensures
            v == self.val(i as int, j as int),
            -SAMPLE_LIMIT <= v <= SAMPLE_LIMIT,
    {
        proof {
            lemma_vertex_index(self.spec_cols(), self.spec_rows(), i as int, j as int);
        }
        self.vals[j * self.cols + i]
    }

    /// Overwrite the sample at vertex `(i, j)`; every other sample and the
    /// dimensions are unchanged.
    pub fn set(&mut self, i: usize, j: usize, v: i64)
        requires
            old(self).wf(),
            i < old(self).spec_cols(),
            j < old(self).spec_rows(),
            -SAMPLE_LIMIT <= v <= SAMPLE_LIMIT,
        ensures
            final(self).wf(),
            final(self).spec_cols() == old(self).spec_cols(),
            final(self).spec_rows() == old(self).spec_rows(),
            final(self).val(i as int, j as int) == v,
            forall|i2: int, j2: int|
                0 <= i2 < old(self).spec_cols() && 0 <= j2 < old(self).spec_rows() && !(i2 == i
                    && j2 == j) ==> final(self).val(i2, j2) == old(self).val(i2, j2),
    {
        proof {
            lemma_vertex_index(self.spec_cols(), self.spec_rows(), i as int, j as int);
        }
        let idx: usize = j * self.cols + i;
        self.vals.set(idx, v);
        proof {
            assert forall|i2: int, j2: int|
                0 <= i2 < self.spec_cols() && 0 <= j2 < self.spec_rows() && !(i2 == i && j2
                    == j) implies self.val(i2, j2) == old(self).val(i2, j2) by {
                lemma_vertex_index(self.spec_cols(), self.spec_rows(), i2, j2);
                lemma_distinct_vertices(self.spec_cols(), i as int, j as int, i2, j2);
            }
        }
    }
}

/// The sample count of bounded dimensions fits comfortably in `usize`.
proof fn lemma_dims_product(cols: int, rows: int)
    by (nonlinear_arith)
    requires
        1 <= cols <= 30_000,
        1 <= rows <= 30_000,
    ensures
        1 <= rows * cols <= 900_000_000,
{
}

/// Row-major vertex addressing stays inside the sample buffer.
proof fn lemma_vertex_index(cols: int, rows: int, i: int, j: int)
    by (nonlinear_arith)
    requires
        1 <= cols <= 30_000,
        1 <= rows <= 30_000,
        0 <= i < cols,
        0 <= j < rows,
    ensures
        0 <= j * cols + i < rows * cols,
        rows * cols <= 900_000_000,
{
}

/// Distinct vertices have distinct row-major addresses.
proof fn lemma_distinct_vertices(cols: int, i1: int, j1: int, i2: int, j2: int)
    by (nonlinear_arith)
    requires
        1 <= cols,
        0 <= i1 < cols,
        0 <= i2 < cols,
        0 <= j1,
        0 <= j2,
        !(i1 == i2 && j1 == j2),
    ensures
        j1 * cols + i1 != j2 * cols + i2,
{
}

/// A row of a well-formed grid lies inside the sample buffer.
proof fn lemma_row_bounds(cols: int, rows: int, j: int)
    by (nonlinear_arith)
    requires
        1 <= cols,
        1 <= rows,
        0 <= j < rows,
    ensures
        0 <= j * cols,
        (j + 1) * cols == j * cols + cols,
        (j + 1) * cols <= rows * cols,
{
}

/// The number of vertex columns for a canvas `width` pixels wide at `resolution`
/// pixels per cell: one more than the number of whole cells across.
pub fn grid_cols(width: u32, resolution: u32) -> (cols: u64)
    requires
        1 <= resolution,
    ensures
        cols == 1 + width as int / resolution as int,
{
    1 + (width as u64) / (resolution as u64)
}

/// The number of vertex rows for a canvas `height` pixels tall at `resolution`
/// pixels per cell.
pub fn grid_rows(height: u32, resolution: u32) -> (rows: u64)
    requires
        1 <= resolution,
    ensures
        rows == 1 + height as int / resolution as int,
{
    1 + (height as u64) / (resolution as u64)
}

} // verus!
