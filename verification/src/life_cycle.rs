//! The rule engine: computing the next generation of a grid.
//!
//! Every cell looks at its 8 Moore neighbors (diagonals included); positions
//! outside the grid count as dead (the grid is finite and does not wrap).
//! A dead cell is born iff its live-neighbor count falls in the birth range;
//! an alive cell survives iff its count falls in the survival range; every
//! other case yields a dead cell.

use vstd::prelude::*;

use crate::board::{Board, CellState};
use crate::rules::RuleConfig;

verus! {

broadcast use crate::board::Board::lemma_dims_bounds;

/// 1 if the grid holds an alive cell at `(x, y)`, else 0 (positions outside
/// the grid count as dead).
pub open spec fn live_indicator(b: Board, x: int, y: int) -> int {
    if b.alive_at(x, y) {
        1
    } else {
        0
    }
}

/// The number of alive cells among the 8 Moore neighbors of `(x, y)`.
pub open spec fn live_neighbor_count(b: Board, x: int, y: int) -> int {
    live_indicator(b, x - 1, y - 1) + live_indicator(b, x, y - 1) + live_indicator(b, x + 1, y - 1)
        + live_indicator(b, x - 1, y) + live_indicator(b, x + 1, y) + live_indicator(
        b,
        x - 1,
        y + 1,
    ) + live_indicator(b, x, y + 1) + live_indicator(b, x + 1, y + 1)
}

/// The state a cell takes in the next generation.
pub open spec fn spec_next_cell(b: Board, rules: RuleConfig, x: int, y: int) -> CellState {
    let n = live_neighbor_count(b, x, y);
    if b.spec_cell(x, y) == CellState::Alive {
        if rules.spec_survives(n) {
            CellState::Alive
        } else {
            CellState::Dead
        }
    } else {
        if rules.spec_births(n) {
            CellState::Alive
        } else {
            CellState::Dead
        }
    }
}

/// What the rule engine returns for a grid `b` under `rules`: a well-formed
/// grid of the same dimensions whose every cell is the successor of the
/// corresponding cell of `b`.
pub open spec fn next_gen_post(b: Board, rules: RuleConfig, r: Board) -> bool {
    &&& r.wf()
    &&& r.spec_width() == b.spec_width()
    &&& r.spec_height() == b.spec_height()
    &&& forall|x: int, y: int|
        b.in_bounds(x, y) ==> r.spec_cell(x, y) == spec_next_cell(b, rules, x, y)
}

/// The generation step is deterministic: any two grids that the rule engine's
/// contract admits for the same input grid and the same rule configuration
/// are identical, cell for cell.
pub proof fn lemma_next_generation_deterministic(
    b: Board,
    rules: RuleConfig,
    r1: Board,
    r2: Board,
)
    requires
        next_gen_post(b, rules, r1),
        next_gen_post(b, rules, r2),
    ensures
        r1.spec_width() == r2.spec_width(),
        r1.spec_height() == r2.spec_height(),
        r1.spec_cells() =~= r2.spec_cells(),
{
    r1.lemma_cells_eq(&r2);
}

impl Board {
    /// Whether the cell at `(x, y)` is alive; positions outside the grid
    /// count as dead.
    pub fn is_alive(&self, x: usize, y: usize) -> (r: bool)
        requires
            self.wf(),
        ensures
            r == self.alive_at(x as int, y as int),
    {
        match self.get_cell(x, y) {
            Some(CellState::Alive) => true,
            _ => false,
        }
    }

    /// Counts the alive cells among the 8 Moore neighbors of the in-bounds
    /// cell `(x, y)`; neighbor positions outside the grid count as dead.
    pub fn count_alive_neighbors(&self, x: usize, y: usize) -> (r: usize)
        requires
            self.wf(),
            self.in_bounds(x as int, y as int),
        ensures
            r == live_neighbor_count(*self, x as int, y as int),
            r <= 8,
    {
        let mut count: usize = 0;
        if x > 0 && y > 0 && self.is_alive(x - 1, y - 1) {
            count += 1;
        }
        if y > 0 && self.is_alive(x, y - 1) {
            count += 1;
        }
        if y > 0 && self.is_alive(x + 1, y - 1) {
            count += 1;
        }
        if x > 0 && self.is_alive(x - 1, y) {
            count += 1;
        }
        if self.is_alive(x + 1, y) {
            count += 1;
        }
        if x > 0 && self.is_alive(x - 1, y + 1) {
            count += 1;
        }
        if self.is_alive(x, y + 1) {
            count += 1;
        }
        if self.is_alive(x + 1, y + 1) {
            count += 1;
        }
        count
    }

    /// Computes the next generation: a new grid of the same dimensions where
    /// every cell follows the birth/survival rules. The input grid is not
    /// mutated.
    pub fn next_generation(&self, rules: &RuleConfig) -> (r: Board)
        requires
            self.wf(),
        ensures
            next_gen_post(*self, *rules, r),
    {
        proof {
            self.lemma_area_fits();
        }
        let w: usize = self.width();
        let h: usize = self.height();
        let mut next = Board::new(w, h);
        let mut y: usize = 0;
        while y < h
            invariant
                self.wf(),
                w == self.spec_width(),
                h == self.spec_height(),
                y <= h,
                next.wf(),
                next.spec_width() == w,
                next.spec_height() == h,
                forall|i: int, j: int|
                    self.in_bounds(i, j) && j < y ==> next.spec_cell(i, j) == spec_next_cell(
                        *self,
                        *rules,
                        i,
                        j,
                    ),
            decreases h - y,
        {
            let mut x: usize = 0;
            while x < w
                invariant
                    self.wf(),
                    w == self.spec_width(),
                    h == self.spec_height(),
                    y < h,
                    x <= w,
                    next.wf(),
                    next.spec_width() == w,
                    next.spec_height() == h,
                    forall|i: int, j: int|
                        self.in_bounds(i, j) && (j < y || (j == y && i < x)) ==> next.spec_cell(
                            i,
                            j,
                        ) == spec_next_cell(*self, *rules, i, j),
                decreases w - x,
            {
                let current_alive = self.is_alive(x, y);
                let n = self.count_alive_neighbors(x, y);
                let new_state = if current_alive {
                    if rules.should_survive(n) {
                        CellState::Alive
                    } else {
                        CellState::Dead
                    }
                } else {
                    if rules.should_birth(n) {
                        CellState::Alive
                    } else {
                        CellState::Dead
                    }
                };
                next.set_cell(x, y, new_state);
                x += 1;
            }
            y += 1;
        }
        next
    }

    /// Whether the grid is stable: the next generation is cell-wise
    /// identical to the grid itself.
    pub fn is_stable(&self, rules: &RuleConfig) -> (r: bool)
        requires
            self.wf(),
        ensures
            r == (forall|x: int, y: int|
                self.in_bounds(x, y) ==> spec_next_cell(*self, *rules, x, y) == self.spec_cell(
                    x,
                    y,
                )),
    {
        let next = self.next_generation(rules);
        let r = self.same_cells(&next);
        proof {
            if r {
                assert forall|x: int, y: int| self.in_bounds(x, y) implies spec_next_cell(
                    *self,
                    *rules,
                    x,
                    y,
                ) == self.spec_cell(x, y) by {
                    assert(next.spec_cell(x, y) == spec_next_cell(*self, *rules, x, y));
                    assert(self.spec_cell(x, y) == next.spec_cell(x, y));
                }
            } else {
                let (x, y) = choose|x: int, y: int|
                    self.in_bounds(x, y) && self.spec_cell(x, y) != next.spec_cell(x, y);
                assert(spec_next_cell(*self, *rules, x, y) != self.spec_cell(x, y));
            }
        }
        r
    }

    /// Whether every cell of the grid is dead.
    pub fn is_empty(&self) -> (r: bool)
        requires
            self.wf(),
        ensures
            r == (forall|x: int, y: int|
                self.in_bounds(x, y) ==> self.spec_cell(x, y) == CellState::Dead),
    {
        let w: usize = self.width();
        let h: usize = self.height();
        let mut y: usize = 0;
        while y < h
            invariant
                self.wf(),
                w == self.spec_width(),
                h == self.spec_height(),
                y <= h,
                forall|i: int, j: int|
                    self.in_bounds(i, j) && j < y ==> self.spec_cell(i, j) == CellState::Dead,
            decreases h - y,
        {
            let mut x: usize = 0;
            while x < w
                invariant
                    self.wf(),
                    w == self.spec_width(),
                    h == self.spec_height(),
                    y < h,
                    x <= w,
                    forall|i: int, j: int|
                        self.in_bounds(i, j) && (j < y || (j == y && i < x)) ==> self.spec_cell(
                            i,
                            j,
                        ) == CellState::Dead,
                decreases w - x,
            {
                if self.is_alive(x, y) {
                    return false;
                }
                x += 1;
            }
            y += 1;
        }
        true
    }
}

} // verus!
