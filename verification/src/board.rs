//! The grid: a dense row-major vector of cells with bounds-checked accessors.
//!
//! Coordinate `(x, y)` maps to index `y * width + x`. Out-of-bounds access is
//! never fatal: it is signalled by `None` / `false` and leaves the grid
//! unchanged.

use vstd::prelude::*;

use crate::rules::SizeConfig;

verus! {

/// The state of a single cell: dead (empty) or alive (active).
#[derive(Debug, Clone, Copy, PartialEq, Eq, Structural)]
pub enum CellState {
    Dead,
    Alive,
}

impl Default for CellState {
    fn default() -> (r: Self)
        ensures
            r == CellState::Dead,
    {
        CellState::Dead
    }
}

/// A rectangular grid of cells, stored row-major as `cells[y * width + x]`.
#[derive(Debug)]
pub struct Board {
    cells: Vec<CellState>,
    width: usize,
    height: usize,
}

impl Board {
    /// The grid's width, as a mathematical integer.
    pub closed spec fn spec_width(&self) -> int {
        self.width as int
    }

    /// The grid's height, as a mathematical integer.
    pub closed spec fn spec_height(&self) -> int {
        self.height as int
    }

    /// The row-major sequence of cells.
    pub closed spec fn spec_cells(&self) -> Seq<CellState> {
        self.cells@
    }

    /// The grid's structural invariant: the cell vector has exactly
    /// `width * height` entries.
    pub closed spec fn wf(&self) -> bool {
        self.cells@.len() == self.spec_width() * self.spec_height()
    }

    /// Whether `(x, y)` is a coordinate of the grid.
    pub open spec fn in_bounds(&self, x: int, y: int) -> bool {
        0 <= x < self.spec_width() && 0 <= y < self.spec_height()
    }

    /// The cell at `(x, y)`; meaningful only when `in_bounds(x, y)`.
    pub open spec fn spec_cell(&self, x: int, y: int) -> CellState {
        self.spec_cells()[y * self.spec_width() + x]
    }

    /// Whether `(x, y)` is a coordinate of the grid holding an alive cell.
    /// Positions outside the grid count as dead.
    pub open spec fn alive_at(&self, x: int, y: int) -> bool {
        self.in_bounds(x, y) && self.spec_cell(x, y) == CellState::Alive
    }

    /// Two grids with equal dimensions and equal cells everywhere have equal
    /// cell sequences.
    pub proof fn lemma_cells_eq(&self, other: &Board)
        requires
            self.wf(),
            other.wf(),
            self.spec_width() == other.spec_width(),
            self.spec_height() == other.spec_height(),
            forall|x: int, y: int|
                self.in_bounds(x, y) ==> self.spec_cell(x, y) == other.spec_cell(x, y),
        ensures
            self.spec_cells() =~= other.spec_cells(),
    {
        let w = self.spec_width();
        let h = self.spec_height();
        assert forall|k: int| 0 <= k < self.spec_cells().len() implies self.spec_cells()[k]
            == other.spec_cells()[k] by {
            assert(w > 0) by (nonlinear_arith)
                requires
                    0 <= w,
                    0 < w * h,
            ;
            lemma_row_major_coords(w, h, k);
            let x = k % w;
            let y = k / w;
            assert(self.in_bounds(x, y));
            assert(self.spec_cell(x, y) == other.spec_cell(x, y));
        }
    }

    /// A grid dimension always fits in a machine word.
    pub broadcast proof fn lemma_dims_bounds(&self)
        ensures
            0 <= #[trigger] self.spec_width() <= usize::MAX,
            0 <= #[trigger] self.spec_height() <= usize::MAX,
    {
    }

    /// The invariant bounds the area by what a vector can hold.
    pub proof fn lemma_area_fits(&self)
        requires
            self.wf(),
        ensures
            0 <= self.spec_width() * self.spec_height() <= usize::MAX,
            self.spec_cells().len() == self.spec_width() * self.spec_height(),
    {
        vstd::std_specs::vec::axiom_spec_len(&self.cells);
        assert(self.cells.len() <= usize::MAX);
    }

    /// Creates an all-dead grid of the given dimensions.
    pub fn new(width: usize, height: usize) -> (r: Board)
        requires
            width * height <= usize::MAX,
        ensures
            r.wf(),
            r.spec_width() == width,
            r.spec_height() == height,
            forall|x: int, y: int| r.in_bounds(x, y) ==> r.spec_cell(x, y) == CellState::Dead,
    {
        let total_cells: usize = width * height;
        let mut cells: Vec<CellState> = Vec::new();
        let mut i: usize = 0;
        while i < total_cells
            invariant
                i <= total_cells,
                cells@.len() == i,
                forall|k: int| 0 <= k < i ==> cells@[k] == CellState::Dead,
            decreases total_cells - i,
        {
            cells.push(CellState::Dead);
            i += 1;
        }
        let r = Board { cells, width, height };
        proof {
            assert forall|x: int, y: int| r.in_bounds(x, y) implies r.spec_cell(x, y)
                == CellState::Dead by {
                lemma_row_major_bound(width as int, height as int, x, y);
            }
        }
        r
    }

    /// Creates an all-dead square grid of the configured initial board size.
    pub fn new_from_config(config: &SizeConfig) -> (r: Board)
        requires
            config.wf(),
        ensures
            r.wf(),
            r.spec_width() == config.spec_initial_board_size(),
            r.spec_height() == config.spec_initial_board_size(),
            forall|x: int, y: int| r.in_bounds(x, y) ==> r.spec_cell(x, y) == CellState::Dead,
    {
        let size = config.initial_board_size();
        proof {
            assert(size * size <= 201 * 201) by (nonlinear_arith)
                requires
                    0 <= size <= 201,
            ;
        }
        Board::new(size, size)
    }

    /// The grid's width.
    pub fn width(&self) -> (r: usize)
        ensures
            r == self.spec_width(),
    {
        self.width
    }

    /// The grid's height.
    pub fn height(&self) -> (r: usize)
        ensures
            r == self.spec_height(),
    {
        self.height
    }

    /// The total number of cells on the grid.
    pub fn total_cells(&self) -> (r: usize)
        requires
            self.wf(),
        ensures
            r == self.spec_width() * self.spec_height(),
    {
        proof {
            self.lemma_area_fits();
        }
        self.width * self.height
    }

    /// Whether `(x, y)` lies within the grid.
    pub fn is_valid_coords(&self, x: usize, y: usize) -> (r: bool)
        ensures
            r == self.in_bounds(x as int, y as int),
    {
        x < self.width && y < self.height
    }

    /// The cell at `(x, y)`, or `None` when the coordinate is out of bounds.
    pub fn get_cell(&self, x: usize, y: usize) -> (r: Option<CellState>)
        requires
            self.wf(),
        ensures
            r == if self.in_bounds(x as int, y as int) {
                Some(self.spec_cell(x as int, y as int))
            } else {
                None::<CellState>
            },
    {
        if x < self.width && y < self.height {
            proof {
                self.lemma_area_fits();
                lemma_row_major_bound(self.spec_width(), self.spec_height(), x as int, y as int);
            }
            let idx: usize = y * self.width + x;
            Some(self.cells[idx])
        } else {
            None
        }
    }

    /// Sets the cell at `(x, y)`, returning whether the coordinate was in
    /// bounds (out of bounds is a no-op).
    pub fn set_cell(&mut self, x: usize, y: usize, state: CellState) -> (r: bool)
        requires
            old(self).wf(),
        ensures
            final(self).wf(),
            r == old(self).in_bounds(x as int, y as int),
            cells_updated(*old(self), *final(self), x as int, y as int, state),
    {
        if x < self.width && y < self.height {
            proof {
                self.lemma_area_fits();
                lemma_row_major_bound(self.spec_width(), self.spec_height(), x as int, y as int);
            }
            let idx: usize = y * self.width + x;
            self.cells[idx] = state;
            proof {
                lemma_update_is_cellwise(*old(self), *self, x as int, y as int, state);
            }
            true
        } else {
            false
        }
    }
}

impl Board {
    /// Flips the cell at `(x, y)` between dead and alive, returning whether
    /// the coordinate was in bounds (out of bounds is a no-op).
    pub fn toggle_cell(&mut self, x: usize, y: usize) -> (r: bool)
        requires
            old(self).wf(),
        ensures
            final(self).wf(),
            r == old(self).in_bounds(x as int, y as int),
            cells_updated(
                *old(self),
                *final(self),
                x as int,
                y as int,
                flip(old(self).spec_cell(x as int, y as int)),
            ),
    {
        match self.get_cell(x, y) {
            Some(current_state) => {
                let new_state = match current_state {
                    CellState::Dead => CellState::Alive,
                    CellState::Alive => CellState::Dead,
                };
                self.set_cell(x, y, new_state)
            },
            None => false,
        }
    }

    /// Sets every cell of the grid to dead.
    pub fn clear(&mut self)
        requires
            old(self).wf(),
        ensures
            final(self).wf(),
            final(self).spec_width() == old(self).spec_width(),
            final(self).spec_height() == old(self).spec_height(),
            forall|x: int, y: int|
                final(self).in_bounds(x, y) ==> final(self).spec_cell(x, y) == CellState::Dead,
    {
        proof {
            old(self).lemma_area_fits();
        }
        let w: usize = self.width;
        let h: usize = self.height;
        *self = Board::new(w, h);
    }

    /// The number of alive cells on the grid.
    pub fn count_alive_cells(&self) -> (r: usize)
        requires
            self.wf(),
        ensures
            r == count_alive(self.spec_cells()),
    {
        let n: usize = self.cells.len();
        let mut count: usize = 0;
        let mut i: usize = 0;
        while i < n
            invariant
                self.wf(),
                n == self.spec_cells().len(),
                i <= n,
                count <= i,
                count == count_alive(self.spec_cells().take(i as int)),
            decreases n - i,
        {
            if self.cells[i] == CellState::Alive {
                count += 1;
            }
            i += 1;
            proof {
                assert(self.spec_cells().take(i as int).drop_last() =~= self.spec_cells().take(
                    i as int - 1,
                ));
            }
        }
        proof {
            assert(self.spec_cells().take(n as int) =~= self.spec_cells());
        }
        count
    }

    /// Every cell of the grid, row by row, as `(x, y, state)` triples.
    pub fn iter_cells(&self) -> (r: Vec<(usize, usize, CellState)>)
        requires
            self.wf(),
        ensures
            r@.len() == self.spec_width() * self.spec_height(),
            forall|x: int, y: int|
                self.in_bounds(x, y) ==> r@[y * self.spec_width() + x] == (
                (x as usize, y as usize, self.spec_cell(x, y))),
    {
        let n: usize = self.cells.len();
        let w: usize = self.width;
        let mut r: Vec<(usize, usize, CellState)> = Vec::new();
        let mut i: usize = 0;
        while i < n
            invariant
                self.wf(),
                w == self.spec_width(),
                n == self.spec_cells().len(),
                i <= n,
                r@.len() == i,
                forall|k: int|
                    0 <= k < i ==> r@[k] == (
                    ((k % w as int) as usize, (k / w as int) as usize, self.spec_cells()[k])),
            decreases n - i,
        {
            proof {
                assert(w > 0) by (nonlinear_arith)
                    requires
                        0 <= w,
                        0 < w * self.spec_height(),
                        self.spec_cells().len() == w * self.spec_height(),
                        i < self.spec_cells().len(),
                ;
            }
            let x: usize = i % w;
            let y: usize = i / w;
            r.push((x, y, self.cells[i]));
            i += 1;
        }
        proof {
            assert forall|x: int, y: int| self.in_bounds(x, y) implies r@[y * self.spec_width()
                + x] == ((x as usize, y as usize, self.spec_cell(x, y))) by {
            let w = self.spec_width();
                let h = self.spec_height();
                lemma_row_major_bound(w, h, x, y);
                let k = y * w + x;
                lemma_row_major_coords(w, h, k);
                lemma_row_major_unique(w, k % w, k / w, x, y);
            }
        }
        r
    }

    /// The coordinates of every alive cell, in row-major order.
    pub fn iter_alive_cells(&self) -> (r: Vec<(usize, usize)>)
        requires
            self.wf(),
        ensures
            forall|k: int|
                0 <= k < r@.len() ==> self.alive_at(r@[k].0 as int, r@[k].1 as int),
            forall|x: int, y: int|
                self.alive_at(x, y) ==> r@.contains(((x as usize, y as usize))),
            forall|a: int, b: int|
                0 <= a < b < r@.len() ==> r@[a].1 * self.spec_width() + r@[a].0 < r@[b].1
                    * self.spec_width() + r@[b].0,
    {
        let n: usize = self.cells.len();
        let w: usize = self.width;
        let mut r: Vec<(usize, usize)> = Vec::new();
        let mut i: usize = 0;
        while i < n
            invariant
                self.wf(),
                w == self.spec_width(),
                n == self.spec_cells().len(),
                i <= n,
                forall|k: int|
                    0 <= k < r@.len() ==> self.alive_at(r@[k].0 as int, r@[k].1 as int),
                forall|k: int|
                    0 <= k < r@.len() ==> r@[k].1 * w as int + r@[k].0 < i,
                forall|k: int|
                    0 <= k < i && self.spec_cells()[k] == CellState::Alive ==> r@.contains((
                    ((k % w as int) as usize, (k / w as int) as usize))),
                forall|a: int, b: int|
                    0 <= a < b < r@.len() ==> r@[a].1 * w as int + r@[a].0 < r@[b].1 * w as int
                        + r@[b].0,
            decreases n - i,
        {
            proof {
                assert(w > 0) by (nonlinear_arith)
                    requires
                        0 <= w,
                        0 < w * self.spec_height(),
                        self.spec_cells().len() == w * self.spec_height(),
                        i < self.spec_cells().len(),
                ;
                lemma_row_major_coords(w as int, self.spec_height(), i as int);
            }
            let x: usize = i % w;
            let y: usize = i / w;
            if self.cells[i] == CellState::Alive {
                let ghost old_r = r@;
                r.push((x, y));
                proof {
                    assert forall|k: int|
                        0 <= k < i + 1 && self.spec_cells()[k] == CellState::Alive implies r@
                        .contains((((k % w as int) as usize, (k / w as int) as usize))) by {
                        if k < i {
                            let p = (((k % w as int) as usize, (k / w as int) as usize));
                            assert(old_r.contains(p));
                            let idx = choose|idx: int| 0 <= idx < old_r.len() && old_r[idx] == p;
                            assert(r@[idx] == p);
                        } else {
                            assert(r@[r@.len() - 1] == ((x, y)));
                        }
                    }
                }
            }
            i += 1;
        }
        proof {
            assert forall|x: int, y: int| self.alive_at(x, y) implies r@.contains(
                ((x as usize, y as usize)),
            ) by {
                let w = self.spec_width();
                let h = self.spec_height();
                lemma_row_major_bound(w, h, x, y);
                let k = y * w + x;
                lemma_row_major_coords(w, h, k);
                lemma_row_major_unique(w, k % w, k / w, x, y);
            }
        }
        r
    }
}

impl Board {
    /// Whether two grids have the same dimensions and the same cell states
    /// everywhere.
    pub fn same_cells(&self, other: &Board) -> (r: bool)
        requires
            self.wf(),
            other.wf(),
        ensures
            r == (self.spec_width() == other.spec_width() && self.spec_height()
                == other.spec_height() && (forall|x: int, y: int|
                self.in_bounds(x, y) ==> self.spec_cell(x, y) == other.spec_cell(x, y))),
    {
        if self.width != other.width || self.height != other.height {
            return false;
        }
        let w: usize = self.width;
        let h: usize = self.height;
        let mut y: usize = 0;
        while y < h
            invariant
                self.wf(),
                other.wf(),
                w == self.spec_width(),
                h == self.spec_height(),
                other.spec_width() == w,
                other.spec_height() == h,
                y <= h,
                forall|i: int, j: int|
                    self.in_bounds(i, j) && j < y ==> self.spec_cell(i, j) == other.spec_cell(
                        i,
                        j,
                    ),
            decreases h - y,
        {
            let mut x: usize = 0;
            while x < w
                invariant
                    self.wf(),
                    other.wf(),
                    w == self.spec_width(),
                    h == self.spec_height(),
                    other.spec_width() == w,
                    other.spec_height() == h,
                    y < h,
                    x <= w,
                    forall|i: int, j: int|
                        self.in_bounds(i, j) && (j < y || (j == y && i < x)) ==> self.spec_cell(
                            i,
                            j,
                        ) == other.spec_cell(i, j),
                decreases w - x,
            {
                let a = self.get_cell(x, y);
                let b = other.get_cell(x, y);
                let same = match (a, b) {
                    (Some(CellState::Alive), Some(CellState::Alive)) => true,
                    (Some(CellState::Dead), Some(CellState::Dead)) => true,
                    _ => false,
                };
                if !same {
                    return false;
                }
                x += 1;
            }
            y += 1;
        }
        true
    }
}

impl Clone for Board {
    /// A deep copy: same dimensions, same cells.
    fn clone(&self) -> (r: Self)
        ensures
            r.spec_width() == self.spec_width(),
            r.spec_height() == self.spec_height(),
            r.spec_cells() == self.spec_cells(),
            self.wf() ==> r.wf(),
    {
        let n: usize = self.cells.len();
        let mut cells: Vec<CellState> = Vec::new();
        let mut i: usize = 0;
        while i < n
            invariant
                n == self.cells@.len(),
                i <= n,
                cells@ =~= self.cells@.take(i as int),
            decreases n - i,
        {
            cells.push(self.cells[i]);
            i += 1;
        }
        proof {
            assert(cells@ =~= self.cells@);
        }
        Board { cells, width: self.width, height: self.height }
    }
}

/// Whether `b` shows the same grid as `a`: equal dimensions and equal cells.
pub open spec fn board_unchanged(a: Board, b: Board) -> bool {
    &&& b.spec_width() == a.spec_width()
    &&& b.spec_height() == a.spec_height()
    &&& b.spec_cells() == a.spec_cells()
}

/// The opposite cell state.
pub open spec fn flip(c: CellState) -> CellState {
    if c == CellState::Alive {
        CellState::Dead
    } else {
        CellState::Alive
    }
}

/// The number of alive cells in a row-major cell sequence.
pub open spec fn count_alive(s: Seq<CellState>) -> int
    decreases s.len(),
{
    if s.len() == 0 {
        0
    } else {
        count_alive(s.drop_last()) + (if s.last() == CellState::Alive {
            1int
        } else {
            0int
        })
    }
}

/// After writing `Alive` at an in-bounds `(x, y)`, the cell at `(x, y)` reads
/// back `Alive`.
pub proof fn lemma_set_then_get(pre: Board, post: Board, x: int, y: int)
    requires
        pre.in_bounds(x, y),
        cells_updated(pre, post, x, y, CellState::Alive),
    ensures
        post.spec_cell(x, y) == CellState::Alive,
{
}

/// Toggling the same cell twice restores the original grid, cell for cell.
pub proof fn lemma_toggle_twice(b0: Board, b1: Board, b2: Board, x: int, y: int)
    requires
        b0.wf(),
        cells_updated(b0, b1, x, y, flip(b0.spec_cell(x, y))),
        cells_updated(b1, b2, x, y, flip(b1.spec_cell(x, y))),
    ensures
        b2.spec_width() == b0.spec_width(),
        b2.spec_height() == b0.spec_height(),
        forall|i: int, j: int| b0.in_bounds(i, j) ==> b2.spec_cell(i, j) == b0.spec_cell(i, j),
{
}

/// How a grid looks after writing `state` at `(x, y)`: dimensions unchanged,
/// the target cell (if any) holds `state`, every other cell is unchanged.
pub open spec fn cells_updated(pre: Board, post: Board, x: int, y: int, state: CellState) -> bool {
    &&& post.spec_width() == pre.spec_width()
    &&& post.spec_height() == pre.spec_height()
    &&& forall|i: int, j: int|
        pre.in_bounds(i, j) ==> post.spec_cell(i, j) == (if i == x && j == y {
            state
        } else {
            pre.spec_cell(i, j)
        })
}

/// A row-major index stays within the cell vector.
pub proof fn lemma_row_major_bound(w: int, h: int, x: int, y: int)
    requires
        0 <= x < w,
        0 <= y < h,
    ensures
        0 <= y * w + x < w * h,
{
    assert(0 <= y * w + x < w * h) by (nonlinear_arith)
        requires
            0 <= x < w,
            0 <= y < h,
    ;
}

/// Distinct coordinates have distinct row-major indices.
pub proof fn lemma_row_major_unique(w: int, x1: int, y1: int, x2: int, y2: int)
    requires
        0 <= x1 < w,
        0 <= x2 < w,
        0 <= y1,
        0 <= y2,
        y1 * w + x1 == y2 * w + x2,
    ensures
        x1 == x2 && y1 == y2,
{
    assert(x1 == x2 && y1 == y2) by (nonlinear_arith)
        requires
            0 <= x1 < w,
            0 <= x2 < w,
            0 <= y1,
            0 <= y2,
            y1 * w + x1 == y2 * w + x2,
    ;
}

/// A row-major index decomposes into its coordinates by division and
/// remainder.
pub proof fn lemma_row_major_coords(w: int, h: int, k: int)
    requires
        0 < w,
        0 <= k < w * h,
    ensures
        0 <= k % w < w,
        0 <= k / w < h,
        (k / w) * w + (k % w) == k,
{
    assert(0 <= k % w < w && 0 <= k / w && (k / w) * w + (k % w) == k) by (nonlinear_arith)
        requires
            0 < w,
            0 <= k,
    ;
    assert(k / w < h) by (nonlinear_arith)
        requires
            0 < w,
            k < w * h,
            0 <= k / w,
            (k / w) * w + (k % w) == k,
            0 <= k % w < w,
    ;
}

/// A single vector write at a row-major index is, cell-wise, a single-cell
/// update.
proof fn lemma_update_is_cellwise(pre: Board, post: Board, x: int, y: int, state: CellState)
    requires
        pre.wf(),
        pre.in_bounds(x, y),
        post.spec_width() == pre.spec_width(),
        post.spec_height() == pre.spec_height(),
        post.spec_cells() == pre.spec_cells().update(y * pre.spec_width() + x, state),
    ensures
        post.wf(),
        cells_updated(pre, post, x, y, state),
{
    let w = pre.spec_width();
    let h = pre.spec_height();
    lemma_row_major_bound(w, h, x, y);
    assert forall|i: int, j: int| pre.in_bounds(i, j) implies post.spec_cell(i, j) == (if i == x
        && j == y {
        state
    } else {
        pre.spec_cell(i, j)
    }) by {
        lemma_row_major_bound(w, h, i, j);
        if !(i == x && j == y) && j * w + i == y * w + x {
            lemma_row_major_unique(w, i, j, x, y);
        }
    }
}

} // verus!
