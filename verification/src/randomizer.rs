//! Probabilistic board generation.
//!
//! Each cell is drawn alive with a configured base probability, optionally
//! raised by a bonus for every alive neighbor among the cells generated
//! before it in row-major scan order. The neighbor bonus therefore sees only
//! earlier-scanned neighbors — an intentional, order-dependent bias.
//!
//! The randomness comes from the `rand` crate through one trusted wrapper;
//! everything around the draw is verified, and the contracts state what
//! holds of every outcome.

use vstd::prelude::*;

use rand::Rng;

use crate::board::{Board, CellState};
use crate::life_cycle::live_neighbor_count;
use crate::rules::{RandomizerConfig, PROBABILITY_SCALE};

verus! {

broadcast use crate::board::Board::lemma_dims_bounds;

/// Relies on rand's `Rng::gen_range` on `thread_rng()`: a draw from the
/// half-open range `0..bound` always lies below `bound` (`gen_range` panics
/// only on an empty range, which `bound > 0` rules out).
#[verifier::external_body]
fn random_below(bound: u32) -> (r: u32)
    requires
        bound > 0,
    ensures
        r < bound,
{
    rand::thread_rng().gen_range(0..bound)
}

/// The chance, in thousandths, that the cell at `(x, y)` is drawn alive:
/// the base probability plus one bonus per alive neighbor already generated,
/// capped at the scale.
pub open spec fn spec_cell_probability(b: Board, x: int, y: int, c: RandomizerConfig) -> int {
    let p = c.spec_base_probability() + live_neighbor_count(b, x, y) * c.spec_neighbor_bonus();
    if p > PROBABILITY_SCALE as int {
        PROBABILITY_SCALE as int
    } else {
        p
    }
}

/// Counts the alive cells among the 8 neighbors of the in-bounds cell
/// `(x, y)`; positions outside the grid count as dead.
pub fn count_alive_neighbors(board: &Board, x: usize, y: usize) -> (r: usize)
    requires
        board.wf(),
        board.in_bounds(x as int, y as int),
    ensures
        r == live_neighbor_count(*board, x as int, y as int),
        r <= 8,
{
    board.count_alive_neighbors(x, y)
}

/// The probability, in thousandths, that the cell at `(x, y)` of the grid
/// being generated is drawn alive.
fn calculate_cell_probability(board: &Board, x: usize, y: usize, config: &RandomizerConfig) -> (r:
    u32)
    requires
        board.wf(),
        board.in_bounds(x as int, y as int),
        config.wf(),
    ensures
        r == spec_cell_probability(*board, x as int, y as int, *config),
        r <= PROBABILITY_SCALE,
{
    let base_probability = config.base_probability();
    let neighbor_bonus = config.neighbor_bonus();
    let alive_neighbors = count_alive_neighbors(board, x, y);
    proof {
        assert((alive_neighbors as int) * (neighbor_bonus as int) <= 8 * 1000) by (nonlinear_arith)
            requires
                0 <= alive_neighbors <= 8,
                0 <= neighbor_bonus <= 1000,
        ;
    }
    let total = base_probability + (alive_neighbors as u32) * neighbor_bonus;
    if total > PROBABILITY_SCALE {
        PROBABILITY_SCALE
    } else {
        total
    }
}

/// Generates a random grid of the same dimensions as `current_board`, with
/// the neighbor-density bonus: a cell's chance grows with each alive
/// neighbor among the cells generated before it in scan order.
///
/// Whatever the draws, the result is a grid of the same dimensions; with a
/// base probability at the full scale every cell comes out alive, and with
/// both probabilities at zero every cell comes out dead.
pub fn generate_random_board(current_board: &Board, config: &RandomizerConfig) -> (r: Board)
    requires
        current_board.wf(),
        config.wf(),
    ensures
        r.wf(),
        r.spec_width() == current_board.spec_width(),
        r.spec_height() == current_board.spec_height(),
        config.spec_base_probability() >= PROBABILITY_SCALE ==> forall|x: int, y: int|
            r.in_bounds(x, y) ==> r.spec_cell(x, y) == CellState::Alive,
        config.spec_base_probability() == 0 && config.spec_neighbor_bonus() == 0 ==> forall|
            x: int,
            y: int,
        |
            r.in_bounds(x, y) ==> r.spec_cell(x, y) == CellState::Dead,
{
    proof {
        current_board.lemma_area_fits();
    }
    let width = current_board.width();
    let height = current_board.height();
    let mut new_board = Board::new(width, height);
    let mut y: usize = 0;
    while y < height
        invariant
            config.wf(),
            new_board.wf(),
            new_board.spec_width() == width,
            new_board.spec_height() == height,
            y <= height,
            config.spec_base_probability() >= PROBABILITY_SCALE ==> forall|i: int, j: int|
                new_board.in_bounds(i, j) && (j < y) ==> new_board.spec_cell(i, j)
                    == CellState::Alive,
            config.spec_base_probability() == 0 && config.spec_neighbor_bonus() == 0 ==> forall|
                i: int,
                j: int,
            |
                new_board.in_bounds(i, j) ==> new_board.spec_cell(i, j) == CellState::Dead,
        decreases height - y,
    {
        let mut x: usize = 0;
        while x < width
            invariant
                config.wf(),
                new_board.wf(),
                new_board.spec_width() == width,
                new_board.spec_height() == height,
                y < height,
                x <= width,
                config.spec_base_probability() >= PROBABILITY_SCALE ==> forall|i: int, j: int|
                    new_board.in_bounds(i, j) && (j < y || (j == y && i < x))
                        ==> new_board.spec_cell(i, j) == CellState::Alive,
                config.spec_base_probability() == 0 && config.spec_neighbor_bonus() == 0
                    ==> forall|i: int, j: int|
                    new_board.in_bounds(i, j) ==> new_board.spec_cell(i, j) == CellState::Dead,
            decreases width - x,
        {
            let probability = calculate_cell_probability(&new_board, x, y, config);
            let random_value = random_below(PROBABILITY_SCALE);
            if random_value < probability {
                new_board.set_cell(x, y, CellState::Alive);
            }
            x += 1;
        }
        y += 1;
    }
    new_board
}

/// Generates a random grid of the same dimensions as `current_board`
/// without the neighbor bonus: every cell has the same base probability.
///
/// Whatever the draws, the result is a grid of the same dimensions; with a
/// base probability at the full scale every cell comes out alive, and with
/// a base probability of zero every cell comes out dead.
pub fn generate_simple_random_board(current_board: &Board, config: &RandomizerConfig) -> (r: Board)
    requires
        current_board.wf(),
        config.wf(),
    ensures
        r.wf(),
        r.spec_width() == current_board.spec_width(),
        r.spec_height() == current_board.spec_height(),
        config.spec_base_probability() >= PROBABILITY_SCALE ==> forall|x: int, y: int|
            r.in_bounds(x, y) ==> r.spec_cell(x, y) == CellState::Alive,
        config.spec_base_probability() == 0 ==> forall|x: int, y: int|
            r.in_bounds(x, y) ==> r.spec_cell(x, y) == CellState::Dead,
{
    proof {
        current_board.lemma_area_fits();
    }
    let width = current_board.width();
    let height = current_board.height();
    let base_probability = config.base_probability();
    let mut new_board = Board::new(width, height);
    let mut y: usize = 0;
    while y < height
        invariant
            new_board.wf(),
            new_board.spec_width() == width,
            new_board.spec_height() == height,
            y <= height,
            base_probability == config.spec_base_probability(),
            config.spec_base_probability() >= PROBABILITY_SCALE ==> forall|i: int, j: int|
                new_board.in_bounds(i, j) && (j < y) ==> new_board.spec_cell(i, j)
                    == CellState::Alive,
            config.spec_base_probability() == 0 ==> forall|i: int, j: int|
                new_board.in_bounds(i, j) ==> new_board.spec_cell(i, j) == CellState::Dead,
        decreases height - y,
    {
        let mut x: usize = 0;
        while x < width
            invariant
                new_board.wf(),
                new_board.spec_width() == width,
                new_board.spec_height() == height,
                y < height,
                x <= width,
                base_probability == config.spec_base_probability(),
                config.spec_base_probability() >= PROBABILITY_SCALE ==> forall|i: int, j: int|
                    new_board.in_bounds(i, j) && (j < y || (j == y && i < x))
                        ==> new_board.spec_cell(i, j) == CellState::Alive,
                config.spec_base_probability() == 0 ==> forall|i: int, j: int|
                    new_board.in_bounds(i, j) ==> new_board.spec_cell(i, j) == CellState::Dead,
            decreases width - x,
        {
            let random_value = random_below(PROBABILITY_SCALE);
            if random_value < base_probability {
                new_board.set_cell(x, y, CellState::Alive);
            }
            x += 1;
        }
        y += 1;
    }
    new_board
}

} // verus!
