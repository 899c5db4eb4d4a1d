//! Next-state prediction: which cells will be born, die, or be alive after
//! one generation step, computed without mutating the grid.
//!
//! The result is a cache: any change to the grid or to the rule
//! configuration invalidates it, and the caller must recompute it.

use vstd::prelude::*;

use crate::board::{Board, CellState};
use crate::life_cycle::{next_gen_post, spec_next_cell};
use crate::rules::RuleConfig;

verus! {

broadcast use crate::board::Board::lemma_dims_bounds;

/// Whether the cell at `(x, y)` will be alive after one generation step.
pub open spec fn will_be_alive_spec(b: Board, rules: RuleConfig, x: int, y: int) -> bool {
    b.in_bounds(x, y) && spec_next_cell(b, rules, x, y) == CellState::Alive
}

/// Whether the cell at `(x, y)` will be born: currently dead, alive after
/// one generation step.
pub open spec fn will_be_born_spec(b: Board, rules: RuleConfig, x: int, y: int) -> bool {
    b.in_bounds(x, y) && b.spec_cell(x, y) == CellState::Dead && spec_next_cell(b, rules, x, y)
        == CellState::Alive
}

/// Whether the cell at `(x, y)` will die: currently alive, dead after one
/// generation step.
pub open spec fn will_die_spec(b: Board, rules: RuleConfig, x: int, y: int) -> bool {
    b.in_bounds(x, y) && b.spec_cell(x, y) == CellState::Alive && spec_next_cell(b, rules, x, y)
        == CellState::Dead
}

/// Whether the coordinate list `v` is in strictly increasing row-major
/// order over a grid of width `w` (hence free of duplicates).
pub open spec fn row_major_sorted(v: Seq<(usize, usize)>, w: int) -> bool {
    forall|a: int, b: int| 0 <= a < b < v.len() ==> v[a].1 * w + v[a].0 < v[b].1 * w + v[b].0
}

/// Whether `v` holds exactly the cells that will be alive after the step.
pub open spec fn lists_alive_exactly(
    b: Board,
    rules: RuleConfig,
    v: Seq<(usize, usize)>,
) -> bool {
    &&& forall|k: int|
        0 <= k < v.len() ==> will_be_alive_spec(b, rules, #[trigger] v[k].0 as int, v[k].1 as int)
    &&& forall|x: int, y: int|
        #[trigger] will_be_alive_spec(b, rules, x, y) ==> v.contains(((x as usize, y as usize)))
    &&& row_major_sorted(v, b.spec_width())
}

/// Whether `v` holds exactly the cells that will be born by the step.
pub open spec fn lists_births_exactly(
    b: Board,
    rules: RuleConfig,
    v: Seq<(usize, usize)>,
) -> bool {
    &&& forall|k: int|
        0 <= k < v.len() ==> will_be_born_spec(b, rules, #[trigger] v[k].0 as int, v[k].1 as int)
    &&& forall|x: int, y: int|
        #[trigger] will_be_born_spec(b, rules, x, y) ==> v.contains(((x as usize, y as usize)))
    &&& row_major_sorted(v, b.spec_width())
}

/// Whether `v` holds exactly the cells that the step kills.
pub open spec fn lists_deaths_exactly(
    b: Board,
    rules: RuleConfig,
    v: Seq<(usize, usize)>,
) -> bool {
    &&& forall|k: int|
        0 <= k < v.len() ==> will_die_spec(b, rules, #[trigger] v[k].0 as int, v[k].1 as int)
    &&& forall|x: int, y: int|
        #[trigger] will_die_spec(b, rules, x, y) ==> v.contains(((x as usize, y as usize)))
    &&& row_major_sorted(v, b.spec_width())
}

/// What `predict_next_state` returns: three coordinate lists holding exactly
/// the cells that will be alive, be born, and die; birth cells are among the
/// next-alive cells and disjoint from the death cells.
pub open spec fn prediction_post(b: Board, rules: RuleConfig, p: PredictionResult) -> bool {
    &&& lists_alive_exactly(b, rules, p.next_alive_cells@)
    &&& lists_births_exactly(b, rules, p.birth_cells@)
    &&& lists_deaths_exactly(b, rules, p.death_cells@)
    &&& forall|k: int|
        0 <= k < p.birth_cells@.len() ==> p.next_alive_cells@.contains(#[trigger] p.birth_cells@[k])
            && !p.death_cells@.contains(p.birth_cells@[k])
}

/// The predicted outcome of one generation step: which cells will be alive,
/// which will be born (dead now, alive next) and which will die (alive now,
/// dead next).
#[derive(Debug)]
pub struct PredictionResult {
    /// Coordinates of the cells alive after the step.
    pub next_alive_cells: Vec<(usize, usize)>,
    /// Coordinates of the cells currently dead that the step brings alive.
    pub birth_cells: Vec<(usize, usize)>,
    /// Coordinates of the cells currently alive that the step kills.
    pub death_cells: Vec<(usize, usize)>,
}

impl PredictionResult {
    /// An empty prediction.
    pub fn new() -> (r: PredictionResult)
        ensures
            r.next_alive_cells@.len() == 0,
            r.birth_cells@.len() == 0,
            r.death_cells@.len() == 0,
    {
        PredictionResult { next_alive_cells: Vec::new(), birth_cells: Vec::new(), death_cells: Vec::new() }
    }

    /// Whether `(x, y)` is among the predicted birth cells.
    pub fn will_be_born(&self, x: usize, y: usize) -> (r: bool)
        ensures
            r == self.birth_cells@.contains(((x, y))),
    {
        contains_pair(&self.birth_cells, x, y)
    }

    /// Whether `(x, y)` is among the predicted death cells.
    pub fn will_die(&self, x: usize, y: usize) -> (r: bool)
        ensures
            r == self.death_cells@.contains(((x, y))),
    {
        contains_pair(&self.death_cells, x, y)
    }

    /// Whether `(x, y)` is among the cells predicted alive after the step.
    pub fn will_be_alive(&self, x: usize, y: usize) -> (r: bool)
        ensures
            r == self.next_alive_cells@.contains(((x, y))),
    {
        contains_pair(&self.next_alive_cells, x, y)
    }
}

/// Whether the coordinate pair `(x, y)` occurs in `v`.
fn contains_pair(v: &Vec<(usize, usize)>, x: usize, y: usize) -> (r: bool)
    ensures
        r == v@.contains(((x, y))),
{
    let n = v.len();
    let mut k: usize = 0;
    while k < n
        invariant
            n == v@.len(),
            k <= n,
            forall|m: int| 0 <= m < k ==> v@[m] != ((x, y)),
        decreases n - k,
    {
        let c = v[k];
        if c.0 == x && c.1 == y {
            proof {
                assert(v@[k as int] == ((x, y)));
            }
            return true;
        }
        k += 1;
    }
    false
}

/// Classifies every cell of the grid for one generation step without
/// mutating the grid: which cells will be alive, born, and die.
pub fn predict_next_state(board: &Board, rules: &RuleConfig) -> (p: PredictionResult)
    requires
        board.wf(),
    ensures
        prediction_post(*board, *rules, p),
{
    proof {
        board.lemma_area_fits();
    }
    let w = board.width();
    let h = board.height();
    let n = board.total_cells();
    let mut next_alive_cells: Vec<(usize, usize)> = Vec::new();
    let mut birth_cells: Vec<(usize, usize)> = Vec::new();
    let mut death_cells: Vec<(usize, usize)> = Vec::new();
    let mut i: usize = 0;
    while i < n
        invariant
            board.wf(),
            w == board.spec_width(),
            h == board.spec_height(),
            n == w * h,
            i <= n,
            forall|k: int|
                0 <= k < next_alive_cells@.len() ==> will_be_alive_spec(
                    *board,
                    *rules,
                    #[trigger] next_alive_cells@[k].0 as int,
                    next_alive_cells@[k].1 as int,
                ) && next_alive_cells@[k].1 * w + next_alive_cells@[k].0 < i,
            forall|k: int|
                0 <= k < birth_cells@.len() ==> will_be_born_spec(
                    *board,
                    *rules,
                    #[trigger] birth_cells@[k].0 as int,
                    birth_cells@[k].1 as int,
                ) && birth_cells@[k].1 * w + birth_cells@[k].0 < i,
            forall|k: int|
                0 <= k < death_cells@.len() ==> will_die_spec(
                    *board,
                    *rules,
                    #[trigger] death_cells@[k].0 as int,
                    death_cells@[k].1 as int,
                ) && death_cells@[k].1 * w + death_cells@[k].0 < i,
            forall|x: int, y: int|
                will_be_alive_spec(*board, *rules, x, y) && y * w + x < i
                    ==> next_alive_cells@.contains(((x as usize, y as usize))),
            forall|x: int, y: int|
                will_be_born_spec(*board, *rules, x, y) && y * w + x < i ==> birth_cells@.contains(
                    ((x as usize, y as usize)),
                ),
            forall|x: int, y: int|
                will_die_spec(*board, *rules, x, y) && y * w + x < i ==> death_cells@.contains(
                    ((x as usize, y as usize)),
                ),
            forall|a: int, b: int|
                0 <= a < b < next_alive_cells@.len() ==> next_alive_cells@[a].1 * w
                    + next_alive_cells@[a].0 < next_alive_cells@[b].1 * w + next_alive_cells@[b].0,
            forall|a: int, b: int|
                0 <= a < b < birth_cells@.len() ==> birth_cells@[a].1 * w + birth_cells@[a].0
                    < birth_cells@[b].1 * w + birth_cells@[b].0,
            forall|a: int, b: int|
                0 <= a < b < death_cells@.len() ==> death_cells@[a].1 * w + death_cells@[a].0
                    < death_cells@[b].1 * w + death_cells@[b].0,
        decreases n - i,
    {
        proof {
            assert(w > 0) by (nonlinear_arith)
                requires
                    0 <= w,
                    0 <= h,
                    i < n,
                    n == w * h,
            ;
            crate::board::lemma_row_major_coords(w as int, h as int, i as int);
        }
        let x: usize = i % w;
        let y: usize = i / w;
        let current_alive = board.is_alive(x, y);
        let neighbors = board.count_alive_neighbors(x, y);
        let next_alive = if current_alive {
            rules.should_survive(neighbors)
        } else {
            rules.should_birth(neighbors)
        };
        let ghost old_alive = next_alive_cells@;
        let ghost old_birth = birth_cells@;
        let ghost old_death = death_cells@;
        if next_alive {
            next_alive_cells.push((x, y));
            if !current_alive {
                birth_cells.push((x, y));
            }
        } else {
            if current_alive {
                death_cells.push((x, y));
            }
        }
        proof {
            let gx = x as int;
            let gy = y as int;
            assert forall|xx: int, yy: int|
                will_be_alive_spec(*board, *rules, xx, yy) && yy * w + xx < i + 1 implies
                next_alive_cells@.contains(((xx as usize, yy as usize))) by {
                if yy * w + xx == i {
                    crate::board::lemma_row_major_unique(w as int, xx, yy, gx, gy);
                    assert(next_alive_cells@[next_alive_cells@.len() - 1] == ((x, y)));
                } else {
                    let pr = ((xx as usize, yy as usize));
                    assert(old_alive.contains(pr));
                    let m = choose|m: int| 0 <= m < old_alive.len() && old_alive[m] == pr;
                    assert(next_alive_cells@[m] == pr);
                }
            }
            assert forall|xx: int, yy: int|
                will_be_born_spec(*board, *rules, xx, yy) && yy * w + xx < i + 1 implies
                birth_cells@.contains(((xx as usize, yy as usize))) by {
                if yy * w + xx == i {
                    crate::board::lemma_row_major_unique(w as int, xx, yy, gx, gy);
                    assert(birth_cells@[birth_cells@.len() - 1] == ((x, y)));
                } else {
                    let pr = ((xx as usize, yy as usize));
                    assert(old_birth.contains(pr));
                    let m = choose|m: int| 0 <= m < old_birth.len() && old_birth[m] == pr;
                    assert(birth_cells@[m] == pr);
                }
            }
            assert forall|xx: int, yy: int|
                will_die_spec(*board, *rules, xx, yy) && yy * w + xx < i + 1 implies
                death_cells@.contains(((xx as usize, yy as usize))) by {
                if yy * w + xx == i {
                    crate::board::lemma_row_major_unique(w as int, xx, yy, gx, gy);
                    assert(death_cells@[death_cells@.len() - 1] == ((x, y)));
                } else {
                    let pr = ((xx as usize, yy as usize));
                    assert(old_death.contains(pr));
                    let m = choose|m: int| 0 <= m < old_death.len() && old_death[m] == pr;
                    assert(death_cells@[m] == pr);
                }
            }
        }
        i += 1;
    }
    let p = PredictionResult { next_alive_cells, birth_cells, death_cells };
    proof {
        assert forall|x: int, y: int| #[trigger] will_be_alive_spec(*board, *rules, x, y) implies y
            * w + x < n by {
            crate::board::lemma_row_major_bound(w as int, h as int, x, y);
        }
        assert forall|x: int, y: int| #[trigger] will_be_born_spec(*board, *rules, x, y) implies y
            * w + x < n by {
            crate::board::lemma_row_major_bound(w as int, h as int, x, y);
        }
        assert forall|x: int, y: int| #[trigger] will_die_spec(*board, *rules, x, y) implies y * w
            + x < n by {
            crate::board::lemma_row_major_bound(w as int, h as int, x, y);
        }
        assert forall|k: int| 0 <= k < p.birth_cells@.len() implies p.next_alive_cells@.contains(
            #[trigger] p.birth_cells@[k],
        ) && !p.death_cells@.contains(p.birth_cells@[k]) by {
            let bx = p.birth_cells@[k].0 as int;
            let by = p.birth_cells@[k].1 as int;
            assert(will_be_born_spec(*board, *rules, bx, by));
            assert(will_be_alive_spec(*board, *rules, bx, by));
            if p.death_cells@.contains(p.birth_cells@[k]) {
                let m = choose|m: int|
                    0 <= m < p.death_cells@.len() && p.death_cells@[m] == p.birth_cells@[k];
                assert(will_die_spec(*board, *rules, bx, by));
            }
        }
    }
    p
}

/// The cells that will be born in the next generation (currently dead, alive
/// after the step).
pub fn predict_birth_cells(board: &Board, rules: &RuleConfig) -> (r: Vec<(usize, usize)>)
    requires
        board.wf(),
    ensures
        lists_births_exactly(*board, *rules, r@),
{
    let prediction = predict_next_state(board, rules);
    prediction.birth_cells
}

/// The cells that will die in the next generation (currently alive, dead
/// after the step).
pub fn predict_death_cells(board: &Board, rules: &RuleConfig) -> (r: Vec<(usize, usize)>)
    requires
        board.wf(),
    ensures
        lists_deaths_exactly(*board, *rules, r@),
{
    let prediction = predict_next_state(board, rules);
    prediction.death_cells
}

/// Whether the single cell at `(x, y)` will be born in the next generation,
/// without computing a full prediction. Out-of-bounds coordinates yield
/// `false`.
pub fn will_cell_be_born(board: &Board, rules: &RuleConfig, x: usize, y: usize) -> (r: bool)
    requires
        board.wf(),
    ensures
        r == will_be_born_spec(*board, *rules, x as int, y as int),
{
    if !board.is_valid_coords(x, y) {
        return false;
    }
    if board.is_alive(x, y) {
        return false;
    }
    let neighbors = board.count_alive_neighbors(x, y);
    rules.should_birth(neighbors)
}

/// Whether the single cell at `(x, y)` will die in the next generation,
/// without computing a full prediction. Out-of-bounds coordinates yield
/// `false`.
pub fn will_cell_die(board: &Board, rules: &RuleConfig, x: usize, y: usize) -> (r: bool)
    requires
        board.wf(),
    ensures
        r == will_die_spec(*board, *rules, x as int, y as int),
{
    if !board.is_valid_coords(x, y) {
        return false;
    }
    if !board.is_alive(x, y) {
        return false;
    }
    let neighbors = board.count_alive_neighbors(x, y);
    !rules.should_survive(neighbors)
}

/// Prediction agrees with the rule engine: against any grid the rule
/// engine's contract admits as the next generation, the predicted birth
/// cells are exactly the cells dead now and alive then, the predicted death
/// cells exactly the cells alive now and dead then, and the predicted
/// next-alive cells exactly the cells alive then.
pub proof fn lemma_prediction_matches_next_generation(
    b: Board,
    rules: RuleConfig,
    p: PredictionResult,
    g2: Board,
)
    requires
        prediction_post(b, rules, p),
        next_gen_post(b, rules, g2),
    ensures
        forall|x: int, y: int|
            b.in_bounds(x, y) ==> (p.birth_cells@.contains(((x as usize, y as usize))) <==> (
            b.spec_cell(x, y) == CellState::Dead && g2.spec_cell(x, y) == CellState::Alive)),
        forall|x: int, y: int|
            b.in_bounds(x, y) ==> (p.death_cells@.contains(((x as usize, y as usize))) <==> (
            b.spec_cell(x, y) == CellState::Alive && g2.spec_cell(x, y) == CellState::Dead)),
        forall|x: int, y: int|
            b.in_bounds(x, y) ==> (p.next_alive_cells@.contains(((x as usize, y as usize))) <==> g2.spec_cell(
                x,
                y,
            ) == CellState::Alive),
{
    assert forall|x: int, y: int| b.in_bounds(x, y) implies (p.birth_cells@.contains(
        ((x as usize, y as usize)),
    ) <==> (b.spec_cell(x, y) == CellState::Dead && g2.spec_cell(x, y) == CellState::Alive)) by {
        if p.birth_cells@.contains(((x as usize, y as usize))) {
            let k = choose|k: int|
                0 <= k < p.birth_cells@.len() && p.birth_cells@[k] == ((x as usize, y as usize));
            assert(will_be_born_spec(b, rules, x, y));
        }
        if b.spec_cell(x, y) == CellState::Dead && g2.spec_cell(x, y) == CellState::Alive {
            assert(will_be_born_spec(b, rules, x, y));
        }
    }
    assert forall|x: int, y: int| b.in_bounds(x, y) implies (p.death_cells@.contains(
        ((x as usize, y as usize)),
    ) <==> (b.spec_cell(x, y) == CellState::Alive && g2.spec_cell(x, y) == CellState::Dead)) by {
        if p.death_cells@.contains(((x as usize, y as usize))) {
            let k = choose|k: int|
                0 <= k < p.death_cells@.len() && p.death_cells@[k] == ((x as usize, y as usize));
            assert(will_die_spec(b, rules, x, y));
        }
        if b.spec_cell(x, y) == CellState::Alive && g2.spec_cell(x, y) == CellState::Dead {
            assert(will_die_spec(b, rules, x, y));
        }
    }
    assert forall|x: int, y: int| b.in_bounds(x, y) implies (p.next_alive_cells@.contains(
        ((x as usize, y as usize)),
    ) <==> g2.spec_cell(x, y) == CellState::Alive) by {
        if p.next_alive_cells@.contains(((x as usize, y as usize))) {
            let k = choose|k: int|
                0 <= k < p.next_alive_cells@.len() && p.next_alive_cells@[k] == (
                (x as usize, y as usize));
            assert(will_be_alive_spec(b, rules, x, y));
        }
        if g2.spec_cell(x, y) == CellState::Alive {
            assert(will_be_alive_spec(b, rules, x, y));
        }
    }
}

} // verus!
