//! Predefined starting patterns and the initial grid built from them.
//!
//! A pattern is a list of alive-cell positions; an initial state places a
//! pattern onto a grid at an offset, on a grid large enough to hold it.

use vstd::prelude::*;

use crate::board::{Board, CellState};
use crate::rules::SizeConfig;

verus! {

broadcast use crate::board::Board::lemma_dims_bounds;

/// Predefined starting patterns.
#[derive(Debug)]
pub enum Pattern {
    /// No alive cells.
    Empty,
    /// A stable 2x2 block.
    Block,
    /// The period-2 "blinker" oscillator: three cells in a row.
    Blinker,
    /// A glider, which travels across the grid.
    Glider,
    /// A custom pattern given by its list of positions.
    Custom(Vec<(usize, usize)>),
}

impl Pattern {
    /// The alive-cell positions of the pattern, relative to its top-left
    /// corner.
    pub open spec fn spec_positions(&self) -> Seq<(usize, usize)> {
        match self {
            Pattern::Empty => Seq::empty(),
            Pattern::Block => seq![(1usize, 1usize), (1usize, 2usize), (2usize, 1usize), (2usize, 2usize)],
            Pattern::Blinker => seq![(1usize, 2usize), (2usize, 2usize), (3usize, 2usize)],
            Pattern::Glider => seq![
                (1usize, 0usize),
                (2usize, 1usize),
                (0usize, 2usize),
                (1usize, 2usize),
                (2usize, 2usize),
            ],
            Pattern::Custom(positions) => positions@,
        }
    }

    /// The alive-cell positions of the pattern, relative to its top-left
    /// corner.
    pub fn get_positions(&self) -> (r: Vec<(usize, usize)>)
        ensures
            r@ == self.spec_positions(),
    {
        match self {
            Pattern::Empty => {
                let r: Vec<(usize, usize)> = Vec::new();
                proof {
                    assert(r@ =~= self.spec_positions());
                }
                r
            },
            Pattern::Block => {
                let mut r: Vec<(usize, usize)> = Vec::new();
                r.push((1, 1));
                r.push((1, 2));
                r.push((2, 1));
                r.push((2, 2));
                proof {
                    assert(r@ =~= self.spec_positions());
                }
                r
            },
            Pattern::Blinker => {
                let mut r: Vec<(usize, usize)> = Vec::new();
                r.push((1, 2));
                r.push((2, 2));
                r.push((3, 2));
                proof {
                    assert(r@ =~= self.spec_positions());
                }
                r
            },
            Pattern::Glider => {
                let mut r: Vec<(usize, usize)> = Vec::new();
                r.push((1, 0));
                r.push((2, 1));
                r.push((0, 2));
                r.push((1, 2));
                r.push((2, 2));
                proof {
                    assert(r@ =~= self.spec_positions());
                }
                r
            },
            Pattern::Custom(positions) => {
                let n = positions.len();
                let mut r: Vec<(usize, usize)> = Vec::new();
                let mut i: usize = 0;
                while i < n
                    invariant
                        n == positions@.len(),
                        i <= n,
                        r@ =~= positions@.take(i as int),
                    decreases n - i,
                {
                    r.push(positions[i]);
                    i += 1;
                }
                proof {
                    assert(r@ =~= positions@);
                }
                r
            },
        }
    }

    /// The smallest grid that shows the pattern with a comfortable margin:
    /// the largest coordinate on each axis plus five, and at least 5x5.
    pub fn min_board_size(&self) -> (r: (usize, usize))
        requires
            max_coord_x(self.spec_positions()) + 5 <= usize::MAX,
            max_coord_y(self.spec_positions()) + 5 <= usize::MAX,
        ensures
            r.0 == if self.spec_positions().len() == 0 {
                5int
            } else {
                max_coord_x(self.spec_positions()) + 5
            },
            r.1 == if self.spec_positions().len() == 0 {
                5int
            } else {
                max_coord_y(self.spec_positions()) + 5
            },
    {
        let positions = self.get_positions();
        let n = positions.len();
        if n == 0 {
            return (5, 5);
        }
        let mut max_x: usize = 0;
        let mut max_y: usize = 0;
        let mut i: usize = 0;
        while i < n
            invariant
                n == positions@.len(),
                positions@ == self.spec_positions(),
                i <= n,
                max_x == max_coord_x(positions@.take(i as int)),
                max_y == max_coord_y(positions@.take(i as int)),
                max_coord_x(positions@) + 5 <= usize::MAX,
                max_coord_y(positions@) + 5 <= usize::MAX,
                max_x + 5 <= usize::MAX,
                max_y + 5 <= usize::MAX,
            decreases n - i,
        {
            let (px, py) = positions[i];
            proof {
                assert(positions@.take(i as int + 1).drop_last() =~= positions@.take(i as int));
                lemma_max_coord_le(positions@, i as int + 1);
            }
            if px > max_x {
                max_x = px;
            }
            if py > max_y {
                max_y = py;
            }
            i += 1;
        }
        proof {
            assert(positions@.take(n as int) =~= positions@);
        }
        (max_x + 5, max_y + 5)
    }
}

impl Clone for Pattern {
    /// A copy with the same positions.
    fn clone(&self) -> (r: Self)
        ensures
            r.spec_positions() == self.spec_positions(),
    {
        match self {
            Pattern::Empty => Pattern::Empty,
            Pattern::Block => Pattern::Block,
            Pattern::Blinker => Pattern::Blinker,
            Pattern::Glider => Pattern::Glider,
            Pattern::Custom(positions) => {
                let n = positions.len();
                let mut copied: Vec<(usize, usize)> = Vec::new();
                let mut i: usize = 0;
                while i < n
                    invariant
                        n == positions@.len(),
                        i <= n,
                        copied@ =~= positions@.take(i as int),
                    decreases n - i,
                {
                    copied.push(positions[i]);
                    i += 1;
                }
                proof {
                    assert(copied@ =~= positions@);
                }
                Pattern::Custom(copied)
            },
        }
    }
}

/// The largest x coordinate in a position list (0 when the list is empty).
pub open spec fn max_coord_x(s: Seq<(usize, usize)>) -> int
    decreases s.len(),
{
    if s.len() == 0 {
        0
    } else {
        let m = max_coord_x(s.drop_last());
        if s.last().0 > m {
            s.last().0 as int
        } else {
            m
        }
    }
}

/// The largest y coordinate in a position list (0 when the list is empty).
pub open spec fn max_coord_y(s: Seq<(usize, usize)>) -> int
    decreases s.len(),
{
    if s.len() == 0 {
        0
    } else {
        let m = max_coord_y(s.drop_last());
        if s.last().1 > m {
            s.last().1 as int
        } else {
            m
        }
    }
}

/// The maximum over a prefix never exceeds the maximum over the whole list.
proof fn lemma_max_coord_le(s: Seq<(usize, usize)>, n: int)
    requires
        0 <= n <= s.len(),
    ensures
        max_coord_x(s.take(n)) <= max_coord_x(s),
        max_coord_y(s.take(n)) <= max_coord_y(s),
    decreases s.len() - n,
{
    if n == s.len() {
        assert(s.take(n) =~= s);
    } else {
        lemma_max_coord_le(s, n + 1);
        assert(s.take(n + 1).drop_last() =~= s.take(n));
    }
}

/// Whether `(x, y)` is one of the pattern's positions shifted by `offset`.
pub open spec fn pattern_covers(
    positions: Seq<(usize, usize)>,
    offset: (usize, usize),
    x: int,
    y: int,
) -> bool {
    exists|k: int|
        0 <= k < positions.len() && (#[trigger] positions[k]).0 + offset.0 == x && positions[k].1
            + offset.1 == y
}

/// A starting configuration: a pattern and the offset of its top-left
/// corner on the grid.
#[derive(Debug)]
pub struct InitialState {
    /// The pattern to place.
    pub pattern: Pattern,
    /// Where the pattern's top-left corner lands on the grid.
    pub offset: (usize, usize),
}

impl Default for InitialState {
    fn default() -> (r: Self)
        ensures
            r.pattern is Empty,
            r.offset == ((2usize, 2usize)),
    {
        InitialState { pattern: Pattern::Empty, offset: (2, 2) }
    }
}

impl InitialState {
    /// The overflow bounds that placing this state's pattern needs: every
    /// shifted position must fit a machine word.
    pub open spec fn placement_fits(&self) -> bool {
        forall|k: int|
            0 <= k < self.pattern.spec_positions().len() ==> (#[trigger] self.pattern.spec_positions()[k]).0
                + self.offset.0 <= usize::MAX && self.pattern.spec_positions()[k].1 + self.offset.1
                <= usize::MAX
    }

    /// A starting configuration from a pattern and an offset.
    pub fn new(pattern: Pattern, offset: (usize, usize)) -> (r: Self)
        ensures
            r.pattern == pattern,
            r.offset == offset,
    {
        InitialState { pattern, offset }
    }

    /// Clears the grid, then sets the pattern's cells (shifted by the
    /// offset) alive; positions falling outside the grid are skipped.
    pub fn apply_to_board(&self, board: &mut Board)
        requires
            old(board).wf(),
            self.placement_fits(),
        ensures
            final(board).wf(),
            final(board).spec_width() == old(board).spec_width(),
            final(board).spec_height() == old(board).spec_height(),
            forall|x: int, y: int|
                final(board).in_bounds(x, y) ==> final(board).spec_cell(x, y) == (if pattern_covers(
                    self.pattern.spec_positions(),
                    self.offset,
                    x,
                    y,
                ) {
                    CellState::Alive
                } else {
                    CellState::Dead
                }),
    {
        board.clear();
        let positions = self.pattern.get_positions();
        let n = positions.len();
        let mut i: usize = 0;
        while i < n
            invariant
                self.placement_fits(),
                positions@ == self.pattern.spec_positions(),
                n == positions@.len(),
                i <= n,
                board.wf(),
                board.spec_width() == old(board).spec_width(),
                board.spec_height() == old(board).spec_height(),
                forall|x: int, y: int|
                    board.in_bounds(x, y) ==> board.spec_cell(x, y) == (if covered_by_prefix(
                        positions@,
                        *self,
                        i as int,
                        x,
                        y,
                    ) {
                        CellState::Alive
                    } else {
                        CellState::Dead
                    }),
            decreases n - i,
        {
            let (px, py) = positions[i];
            let final_x = px + self.offset.0;
            let final_y = py + self.offset.1;
            let ghost pre = *board;
            if board.is_valid_coords(final_x, final_y) {
                board.set_cell(final_x, final_y, CellState::Alive);
            }
            proof {
                assert forall|x: int, y: int| board.in_bounds(x, y) implies board.spec_cell(x, y)
                    == (if covered_by_prefix(positions@, *self, i as int + 1, x, y) {
                    CellState::Alive
                } else {
                    CellState::Dead
                }) by {
                    if covered_by_prefix(positions@, *self, i as int + 1, x, y) {
                        if !covered_by_prefix(positions@, *self, i as int, x, y) {
                            assert(positions@[i as int].0 + self.offset.0 == x && positions@[i as int].1
                                + self.offset.1 == y);
                        }
                    } else {
                        assert(!covered_by_prefix(positions@, *self, i as int, x, y));
                        assert(!(x == final_x && y == final_y));
                    }
                }
            }
            i += 1;
        }
        proof {
            assert forall|x: int, y: int| board.in_bounds(x, y) implies board.spec_cell(x, y) == (
            if pattern_covers(self.pattern.spec_positions(), self.offset, x, y) {
                CellState::Alive
            } else {
                CellState::Dead
            }) by {
                assert(covered_by_prefix(positions@, *self, n as int, x, y) == pattern_covers(
                    self.pattern.spec_positions(),
                    self.offset,
                    x,
                    y,
                ));
            }
        }
    }

    /// Builds a grid for this state: the configured initial board size, or
    /// larger if the pattern needs more room, with the pattern applied.
    pub fn create_board(&self, config: &SizeConfig) -> (r: Board)
        requires
            config.wf(),
            self.placement_fits(),
            max_coord_x(self.pattern.spec_positions()) + 5 <= usize::MAX,
            max_coord_y(self.pattern.spec_positions()) + 5 <= usize::MAX,
            board_fits(config.spec_initial_board_size(), self.pattern.spec_positions()),
        ensures
            r.wf(),
            r.spec_width() == fitted_len(
                config.spec_initial_board_size(),
                min_width(self.pattern.spec_positions()),
            ),
            r.spec_height() == fitted_len(
                config.spec_initial_board_size(),
                min_height(self.pattern.spec_positions()),
            ),
            forall|x: int, y: int|
                r.in_bounds(x, y) ==> r.spec_cell(x, y) == (if pattern_covers(
                    self.pattern.spec_positions(),
                    self.offset,
                    x,
                    y,
                ) {
                    CellState::Alive
                } else {
                    CellState::Dead
                }),
    {
        let size = config.initial_board_size();
        self.build_board(size)
    }

    /// Builds a grid for this state: the given size, or larger if the
    /// pattern needs more room, with the pattern applied.
    pub fn create_board_with_size(&self, size: usize) -> (r: Board)
        requires
            self.placement_fits(),
            max_coord_x(self.pattern.spec_positions()) + 5 <= usize::MAX,
            max_coord_y(self.pattern.spec_positions()) + 5 <= usize::MAX,
            board_fits(size as int, self.pattern.spec_positions()),
        ensures
            r.wf(),
            r.spec_width() == fitted_len(size as int, min_width(self.pattern.spec_positions())),
            r.spec_height() == fitted_len(size as int, min_height(self.pattern.spec_positions())),
            forall|x: int, y: int|
                r.in_bounds(x, y) ==> r.spec_cell(x, y) == (if pattern_covers(
                    self.pattern.spec_positions(),
                    self.offset,
                    x,
                    y,
                ) {
                    CellState::Alive
                } else {
                    CellState::Dead
                }),
    {
        self.build_board(size)
    }

    /// Builds a grid of at least `size` on each axis, large enough for the
    /// pattern, with the pattern applied.
    fn build_board(&self, size: usize) -> (r: Board)
        requires
            self.placement_fits(),
            max_coord_x(self.pattern.spec_positions()) + 5 <= usize::MAX,
            max_coord_y(self.pattern.spec_positions()) + 5 <= usize::MAX,
            board_fits(size as int, self.pattern.spec_positions()),
        ensures
            r.wf(),
            r.spec_width() == fitted_len(size as int, min_width(self.pattern.spec_positions())),
            r.spec_height() == fitted_len(size as int, min_height(self.pattern.spec_positions())),
            forall|x: int, y: int|
                r.in_bounds(x, y) ==> r.spec_cell(x, y) == (if pattern_covers(
                    self.pattern.spec_positions(),
                    self.offset,
                    x,
                    y,
                ) {
                    CellState::Alive
                } else {
                    CellState::Dead
                }),
    {
        let (min_w, min_h) = self.pattern.min_board_size();
        let width: usize = if size > min_w {
            size
        } else {
            min_w
        };
        let height: usize = if size > min_h {
            size
        } else {
            min_h
        };
        let mut board = Board::new(width, height);
        self.apply_to_board(&mut board);
        board
    }
}

impl Clone for InitialState {
    /// A copy with the same pattern positions and offset.
    fn clone(&self) -> (r: Self)
        ensures
            r.pattern.spec_positions() == self.pattern.spec_positions(),
            r.offset == self.offset,
    {
        InitialState { pattern: self.pattern.clone(), offset: self.offset }
    }
}

/// Whether `(x, y)` is covered by one of the first `n` positions shifted by
/// the state's offset.
pub open spec fn covered_by_prefix(
    positions: Seq<(usize, usize)>,
    state: InitialState,
    n: int,
    x: int,
    y: int,
) -> bool {
    exists|k: int|
        0 <= k < n && k < positions.len() && (#[trigger] positions[k]).0 + state.offset.0 == x
            && positions[k].1 + state.offset.1 == y
}

/// The grid length a pattern asks for on the x axis: its largest x
/// coordinate plus five, and at least 5.
pub open spec fn min_width(positions: Seq<(usize, usize)>) -> int {
    if positions.len() == 0 {
        5
    } else {
        max_coord_x(positions) + 5
    }
}

/// The grid length a pattern asks for on the y axis: its largest y
/// coordinate plus five, and at least 5.
pub open spec fn min_height(positions: Seq<(usize, usize)>) -> int {
    if positions.len() == 0 {
        5
    } else {
        max_coord_y(positions) + 5
    }
}

/// The length an axis gets: the requested size, or the pattern's need if
/// that is larger.
pub open spec fn fitted_len(size: int, needed: int) -> int {
    if size > needed {
        size
    } else {
        needed
    }
}

/// The grid built for a pattern must fit a vector.
pub open spec fn board_fits(size: int, positions: Seq<(usize, usize)>) -> bool {
    fitted_len(size, min_width(positions)) * fitted_len(size, min_height(positions)) <= usize::MAX
}

/// The default starting configuration: the empty pattern at offset (2, 2).
pub fn get_default_initial_state() -> (r: InitialState)
    ensures
        r.pattern is Empty,
        r.offset == ((2usize, 2usize)),
{
    InitialState::default()
}

/// The named patterns offered to the user.
pub fn get_available_patterns() -> (r: Vec<(&'static str, Pattern)>)
    ensures
        r@.len() == 4,
        r@[0].0@ == "Empty"@ && r@[0].1 is Empty,
        r@[1].0@ == "Block"@ && r@[1].1 is Block,
        r@[2].0@ == "Blinker"@ && r@[2].1 is Blinker,
        r@[3].0@ == "Glider"@ && r@[3].1 is Glider,
{
    let mut r: Vec<(&'static str, Pattern)> = Vec::new();
    r.push(("Empty", Pattern::Empty));
    r.push(("Block", Pattern::Block));
    r.push(("Blinker", Pattern::Blinker));
    r.push(("Glider", Pattern::Glider));
    r
}

} // verus!
