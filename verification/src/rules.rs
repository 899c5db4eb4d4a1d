//! Configuration for the simulation: birth/survival rules and board sizing.
//!
//! Invalid values are corrected at this boundary — sizes are clamped to
//! `[3, 201]` and reversed ranges are swapped — so that every core operation
//! is total over its inputs.

use vstd::prelude::*;

verus! {

/// The smallest board size a configuration can ask for.
pub const MIN_BOARD_SIZE: usize = 3;

/// The largest board size a configuration can ask for.
pub const MAX_BOARD_SIZE_LIMIT: usize = 201;

/// An inclusive-range rule set: a dead cell is born iff its live-neighbor
/// count falls in the birth range, an alive cell survives iff its count falls
/// in the survival range. Defaults to Conway's B3/S23.
#[derive(Debug, Clone, Copy, PartialEq, Eq, Structural)]
pub struct RuleConfig {
    birth_min: usize,
    birth_max: usize,
    survival_min: usize,
    survival_max: usize,
}

impl RuleConfig {
    pub closed spec fn spec_birth_min(&self) -> int {
        self.birth_min as int
    }

    pub closed spec fn spec_birth_max(&self) -> int {
        self.birth_max as int
    }

    pub closed spec fn spec_survival_min(&self) -> int {
        self.survival_min as int
    }

    pub closed spec fn spec_survival_max(&self) -> int {
        self.survival_max as int
    }

    /// Whether a dead cell with `neighbors` live neighbors is born.
    pub open spec fn spec_births(&self, neighbors: int) -> bool {
        self.spec_birth_min() <= neighbors <= self.spec_birth_max()
    }

    /// Whether an alive cell with `neighbors` live neighbors survives.
    pub open spec fn spec_survives(&self, neighbors: int) -> bool {
        self.spec_survival_min() <= neighbors <= self.spec_survival_max()
    }

    /// Conway's standard rules: birth on exactly 3 neighbors, survival on 2
    /// or 3.
    pub fn new() -> (r: RuleConfig)
        ensures
            r.spec_birth_min() == 3,
            r.spec_birth_max() == 3,
            r.spec_survival_min() == 2,
            r.spec_survival_max() == 3,
    {
        RuleConfig { birth_min: 3, birth_max: 3, survival_min: 2, survival_max: 3 }
    }

    /// Whether `neighbors` live neighbors lets a dead cell be born.
    pub fn should_birth(&self, neighbors: usize) -> (r: bool)
        ensures
            r == self.spec_births(neighbors as int),
    {
        self.birth_min <= neighbors && neighbors <= self.birth_max
    }

    /// Whether `neighbors` live neighbors lets an alive cell survive.
    pub fn should_survive(&self, neighbors: usize) -> (r: bool)
        ensures
            r == self.spec_survives(neighbors as int),
    {
        self.survival_min <= neighbors && neighbors <= self.survival_max
    }

    /// Sets the birth range; a reversed pair is swapped.
    pub fn set_birth_neighbors(&mut self, min: usize, max: usize)
        ensures
            final(self).spec_birth_min() == if min <= max {
                min as int
            } else {
                max as int
            },
            final(self).spec_birth_max() == if min <= max {
                max as int
            } else {
                min as int
            },
            final(self).spec_survival_min() == old(self).spec_survival_min(),
            final(self).spec_survival_max() == old(self).spec_survival_max(),
    {
        if min <= max {
            self.birth_min = min;
            self.birth_max = max;
        } else {
            self.birth_min = max;
            self.birth_max = min;
        }
    }

    /// Sets the survival range; a reversed pair is swapped.
    pub fn set_survival_neighbors(&mut self, min: usize, max: usize)
        ensures
            final(self).spec_survival_min() == if min <= max {
                min as int
            } else {
                max as int
            },
            final(self).spec_survival_max() == if min <= max {
                max as int
            } else {
                min as int
            },
            final(self).spec_birth_min() == old(self).spec_birth_min(),
            final(self).spec_birth_max() == old(self).spec_birth_max(),
    {
        if min <= max {
            self.survival_min = min;
            self.survival_max = max;
        } else {
            self.survival_min = max;
            self.survival_max = min;
        }
    }

    /// The birth range as an inclusive pair.
    pub fn birth_neighbors(&self) -> (r: (usize, usize))
        ensures
            r.0 == self.spec_birth_min(),
            r.1 == self.spec_birth_max(),
    {
        (self.birth_min, self.birth_max)
    }

    /// The survival range as an inclusive pair.
    pub fn survival_neighbors(&self) -> (r: (usize, usize))
        ensures
            r.0 == self.spec_survival_min(),
            r.1 == self.spec_survival_max(),
    {
        (self.survival_min, self.survival_max)
    }
}

impl Default for RuleConfig {
    fn default() -> (r: Self)
        ensures
            r.spec_birth_min() == 3,
            r.spec_birth_max() == 3,
            r.spec_survival_min() == 2,
            r.spec_survival_max() == 3,
    {
        RuleConfig::new()
    }
}

/// How the board's size is managed: growing on demand, or fixed.
#[derive(Debug, Clone, Copy, PartialEq, Eq, Structural)]
pub enum BoardSizeMode {
    /// The board expands automatically when live cells near the border.
    Dynamic,
    /// The board keeps a fixed size.
    Static,
}

impl Default for BoardSizeMode {
    fn default() -> (r: Self)
        ensures
            r == BoardSizeMode::Dynamic,
    {
        BoardSizeMode::Dynamic
    }
}

/// Sizing policy for the board: mode, size bounds and expansion/optimization
/// margins. The three size fields always lie in `[3, 201]`.
#[derive(Debug, Clone, Copy, PartialEq, Eq, Structural)]
pub struct SizeConfig {
    board_size_mode: BoardSizeMode,
    max_board_size: usize,
    initial_board_size: usize,
    static_board_size: usize,
    expansion_margin: usize,
    expansion_layers: usize,
    optimization_margin: usize,
}

impl SizeConfig {
    pub closed spec fn spec_mode(&self) -> BoardSizeMode {
        self.board_size_mode
    }

    pub closed spec fn spec_max_board_size(&self) -> int {
        self.max_board_size as int
    }

    pub closed spec fn spec_initial_board_size(&self) -> int {
        self.initial_board_size as int
    }

    pub closed spec fn spec_static_board_size(&self) -> int {
        self.static_board_size as int
    }

    pub closed spec fn spec_expansion_margin(&self) -> int {
        self.expansion_margin as int
    }

    pub closed spec fn spec_expansion_layers(&self) -> int {
        self.expansion_layers as int
    }

    pub closed spec fn spec_optimization_margin(&self) -> int {
        self.optimization_margin as int
    }

    /// The size fields stay within `[3, 201]`.
    pub open spec fn wf(&self) -> bool {
        &&& MIN_BOARD_SIZE <= self.spec_max_board_size() <= MAX_BOARD_SIZE_LIMIT
        &&& MIN_BOARD_SIZE <= self.spec_initial_board_size() <= MAX_BOARD_SIZE_LIMIT
        &&& MIN_BOARD_SIZE <= self.spec_static_board_size() <= MAX_BOARD_SIZE_LIMIT
    }

    /// The board size the current mode asks for.
    pub open spec fn spec_current_board_size(&self) -> int {
        if self.spec_mode() == BoardSizeMode::Dynamic {
            self.spec_initial_board_size()
        } else {
            self.spec_static_board_size()
        }
    }

    /// The default sizing policy: dynamic mode, 9x9 start, 101x101 cap,
    /// 21x21 static size, margin 2, one layer per growth, optimization
    /// margin 3.
    pub fn new() -> (r: SizeConfig)
        ensures
            r.wf(),
            r.spec_mode() == BoardSizeMode::Dynamic,
            r.spec_max_board_size() == 101,
            r.spec_initial_board_size() == 9,
            r.spec_static_board_size() == 21,
            r.spec_expansion_margin() == 2,
            r.spec_expansion_layers() == 1,
            r.spec_optimization_margin() == 3,
    {
        SizeConfig {
            board_size_mode: BoardSizeMode::Dynamic,
            max_board_size: 101,
            initial_board_size: 9,
            static_board_size: 21,
            expansion_margin: 2,
            expansion_layers: 1,
            optimization_margin: 3,
        }
    }

    /// Whether a grid of the given dimensions may grow by `layers` rings
    /// without crossing the maximum board size.
    pub fn can_expand(&self, current_width: usize, current_height: usize, layers: usize) -> (r:
        bool)
        ensures
            r == (current_width + 2 * layers <= self.spec_max_board_size() && current_height + 2
                * layers <= self.spec_max_board_size()),
    {
        let new_width: u128 = current_width as u128 + 2 * (layers as u128);
        let new_height: u128 = current_height as u128 + 2 * (layers as u128);
        new_width <= self.max_board_size as u128 && new_height <= self.max_board_size as u128
    }

    /// The size a dimension may reach after adding `layers` rings: the
    /// proposed size, capped at the maximum board size.
    pub fn get_max_dimension(&self, current_size: usize, layers: usize) -> (r: usize)
        ensures
            r == if current_size + 2 * layers <= self.spec_max_board_size() {
                current_size + 2 * layers
            } else {
                self.spec_max_board_size()
            },
    {
        let proposed: u128 = current_size as u128 + 2 * (layers as u128);
        if proposed <= self.max_board_size as u128 {
            current_size + 2 * layers
        } else {
            self.max_board_size
        }
    }

    /// The board size the current mode asks for.
    pub fn get_current_board_size(&self) -> (r: usize)
        ensures
            r == self.spec_current_board_size(),
    {
        match self.board_size_mode {
            BoardSizeMode::Dynamic => self.initial_board_size,
            BoardSizeMode::Static => self.static_board_size,
        }
    }

    /// Whether the current mode allows expansion at all (only dynamic mode
    /// does).
    pub fn can_expand_in_current_mode(&self) -> (r: bool)
        ensures
            r == (self.spec_mode() == BoardSizeMode::Dynamic),
    {
        self.board_size_mode == BoardSizeMode::Dynamic
    }

    pub fn board_size_mode(&self) -> (r: BoardSizeMode)
        ensures
            r == self.spec_mode(),
    {
        self.board_size_mode
    }

    pub fn max_board_size(&self) -> (r: usize)
        ensures
            r == self.spec_max_board_size(),
    {
        self.max_board_size
    }

    pub fn initial_board_size(&self) -> (r: usize)
        ensures
            r == self.spec_initial_board_size(),
    {
        self.initial_board_size
    }

    pub fn static_board_size(&self) -> (r: usize)
        ensures
            r == self.spec_static_board_size(),
    {
        self.static_board_size
    }

    pub fn expansion_margin(&self) -> (r: usize)
        ensures
            r == self.spec_expansion_margin(),
    {
        self.expansion_margin
    }

    pub fn expansion_layers(&self) -> (r: usize)
        ensures
            r == self.spec_expansion_layers(),
    {
        self.expansion_layers
    }

    pub fn optimization_margin(&self) -> (r: usize)
        ensures
            r == self.spec_optimization_margin(),
    {
        self.optimization_margin
    }

    pub fn set_board_size_mode(&mut self, mode: BoardSizeMode)
        ensures
            final(self).spec_mode() == mode,
            final(self).spec_max_board_size() == old(self).spec_max_board_size(),
            final(self).spec_initial_board_size() == old(self).spec_initial_board_size(),
            final(self).spec_static_board_size() == old(self).spec_static_board_size(),
            final(self).spec_expansion_margin() == old(self).spec_expansion_margin(),
            final(self).spec_expansion_layers() == old(self).spec_expansion_layers(),
            final(self).spec_optimization_margin() == old(self).spec_optimization_margin(),
            old(self).wf() ==> final(self).wf(),
    {
        self.board_size_mode = mode;
    }

    /// Sets the maximum board size, clamped to `[3, 201]`.
    pub fn set_max_board_size(&mut self, size: usize)
        ensures
            final(self).spec_max_board_size() == clamp_board_size(size as int),
            old(self).wf() ==> final(self).wf(),
            final(self).spec_mode() == old(self).spec_mode(),
            final(self).spec_initial_board_size() == old(self).spec_initial_board_size(),
            final(self).spec_static_board_size() == old(self).spec_static_board_size(),
            final(self).spec_expansion_margin() == old(self).spec_expansion_margin(),
            final(self).spec_expansion_layers() == old(self).spec_expansion_layers(),
            final(self).spec_optimization_margin() == old(self).spec_optimization_margin(),
    {
        self.max_board_size = clamp_size(size);
    }

    /// Sets the initial board size (dynamic mode), clamped to `[3, 201]`.
    pub fn set_initial_board_size(&mut self, size: usize)
        ensures
            final(self).spec_initial_board_size() == clamp_board_size(size as int),
            old(self).wf() ==> final(self).wf(),
            final(self).spec_mode() == old(self).spec_mode(),
            final(self).spec_max_board_size() == old(self).spec_max_board_size(),
            final(self).spec_static_board_size() == old(self).spec_static_board_size(),
            final(self).spec_expansion_margin() == old(self).spec_expansion_margin(),
            final(self).spec_expansion_layers() == old(self).spec_expansion_layers(),
            final(self).spec_optimization_margin() == old(self).spec_optimization_margin(),
    {
        self.initial_board_size = clamp_size(size);
    }

    /// Sets the static board size (static mode), clamped to `[3, 201]`.
    pub fn set_static_board_size(&mut self, size: usize)
        ensures
            final(self).spec_static_board_size() == clamp_board_size(size as int),
            old(self).wf() ==> final(self).wf(),
            final(self).spec_mode() == old(self).spec_mode(),
            final(self).spec_max_board_size() == old(self).spec_max_board_size(),
            final(self).spec_initial_board_size() == old(self).spec_initial_board_size(),
            final(self).spec_expansion_margin() == old(self).spec_expansion_margin(),
            final(self).spec_expansion_layers() == old(self).spec_expansion_layers(),
            final(self).spec_optimization_margin() == old(self).spec_optimization_margin(),
    {
        self.static_board_size = clamp_size(size);
    }

    pub fn set_expansion_margin(&mut self, margin: usize)
        ensures
            final(self).spec_expansion_margin() == margin,
            final(self).spec_mode() == old(self).spec_mode(),
            final(self).spec_max_board_size() == old(self).spec_max_board_size(),
            final(self).spec_initial_board_size() == old(self).spec_initial_board_size(),
            final(self).spec_static_board_size() == old(self).spec_static_board_size(),
            final(self).spec_expansion_layers() == old(self).spec_expansion_layers(),
            final(self).spec_optimization_margin() == old(self).spec_optimization_margin(),
            old(self).wf() ==> final(self).wf(),
    {
        self.expansion_margin = margin;
    }

    pub fn set_expansion_layers(&mut self, layers: usize)
        ensures
            final(self).spec_expansion_layers() == layers,
            final(self).spec_mode() == old(self).spec_mode(),
            final(self).spec_max_board_size() == old(self).spec_max_board_size(),
            final(self).spec_initial_board_size() == old(self).spec_initial_board_size(),
            final(self).spec_static_board_size() == old(self).spec_static_board_size(),
            final(self).spec_expansion_margin() == old(self).spec_expansion_margin(),
            final(self).spec_optimization_margin() == old(self).spec_optimization_margin(),
            old(self).wf() ==> final(self).wf(),
    {
        self.expansion_layers = layers;
    }

    pub fn set_optimization_margin(&mut self, margin: usize)
        ensures
            final(self).spec_optimization_margin() == margin,
            final(self).spec_mode() == old(self).spec_mode(),
            final(self).spec_max_board_size() == old(self).spec_max_board_size(),
            final(self).spec_initial_board_size() == old(self).spec_initial_board_size(),
            final(self).spec_static_board_size() == old(self).spec_static_board_size(),
            final(self).spec_expansion_margin() == old(self).spec_expansion_margin(),
            final(self).spec_expansion_layers() == old(self).spec_expansion_layers(),
            old(self).wf() ==> final(self).wf(),
    {
        self.optimization_margin = margin;
    }
}

impl Default for SizeConfig {
    fn default() -> (r: Self)
        ensures
            r.wf(),
            r.spec_mode() == BoardSizeMode::Dynamic,
            r.spec_max_board_size() == 101,
            r.spec_initial_board_size() == 9,
            r.spec_static_board_size() == 21,
            r.spec_expansion_margin() == 2,
            r.spec_expansion_layers() == 1,
            r.spec_optimization_margin() == 3,
    {
        SizeConfig::new()
    }
}

/// The denominator of the randomizer's probabilities: a probability is
/// stated in thousandths, from 0 (never) to 1000 (always).
pub const PROBABILITY_SCALE: u32 = 1000;

/// Probabilities for the random board generator, in thousandths of
/// `PROBABILITY_SCALE`: a base chance for every cell, plus a bonus for each
/// already-generated alive neighbor.
#[derive(Debug, Clone, Copy, PartialEq, Eq, Structural)]
pub struct RandomizerConfig {
    base_probability: u32,
    neighbor_bonus: u32,
}

impl RandomizerConfig {
    pub closed spec fn spec_base_probability(&self) -> int {
        self.base_probability as int
    }

    pub closed spec fn spec_neighbor_bonus(&self) -> int {
        self.neighbor_bonus as int
    }

    /// Both probabilities stay within the scale.
    pub open spec fn wf(&self) -> bool {
        &&& 0 <= self.spec_base_probability() <= PROBABILITY_SCALE
        &&& 0 <= self.spec_neighbor_bonus() <= PROBABILITY_SCALE
    }

    /// A randomizer configuration; out-of-scale values are clamped.
    pub fn new(base_probability: u32, neighbor_bonus: u32) -> (r: RandomizerConfig)
        ensures
            r.wf(),
            r.spec_base_probability() == clamp_probability(base_probability as int),
            r.spec_neighbor_bonus() == clamp_probability(neighbor_bonus as int),
    {
        RandomizerConfig {
            base_probability: clamp_scale(base_probability),
            neighbor_bonus: clamp_scale(neighbor_bonus),
        }
    }

    pub fn base_probability(&self) -> (r: u32)
        ensures
            r == self.spec_base_probability(),
    {
        self.base_probability
    }

    pub fn neighbor_bonus(&self) -> (r: u32)
        ensures
            r == self.spec_neighbor_bonus(),
    {
        self.neighbor_bonus
    }

    /// Sets the base probability, clamped to the scale.
    pub fn set_base_probability(&mut self, probability: u32)
        ensures
            final(self).wf() == (0 <= old(self).spec_neighbor_bonus() <= PROBABILITY_SCALE),
            final(self).spec_base_probability() == clamp_probability(probability as int),
            final(self).spec_neighbor_bonus() == old(self).spec_neighbor_bonus(),
    {
        self.base_probability = clamp_scale(probability);
    }

    /// Sets the per-neighbor bonus, clamped to the scale.
    pub fn set_neighbor_bonus(&mut self, bonus: u32)
        ensures
            final(self).wf() == (0 <= old(self).spec_base_probability() <= PROBABILITY_SCALE),
            final(self).spec_neighbor_bonus() == clamp_probability(bonus as int),
            final(self).spec_base_probability() == old(self).spec_base_probability(),
    {
        self.neighbor_bonus = clamp_scale(bonus);
    }
}

impl Default for RandomizerConfig {
    /// The default randomizer: a 20% base chance and a 10% bonus per alive
    /// neighbor.
    fn default() -> (r: Self)
        ensures
            r.wf(),
            r.spec_base_probability() == 200,
            r.spec_neighbor_bonus() == 100,
    {
        RandomizerConfig { base_probability: 200, neighbor_bonus: 100 }
    }
}

/// A probability forced into `[0, 1000]`.
pub open spec fn clamp_probability(p: int) -> int {
    if p > PROBABILITY_SCALE as int {
        PROBABILITY_SCALE as int
    } else {
        p
    }
}

fn clamp_scale(p: u32) -> (r: u32)
    ensures
        r == clamp_probability(p as int),
        r <= PROBABILITY_SCALE,
{
    if p > PROBABILITY_SCALE {
        PROBABILITY_SCALE
    } else {
        p
    }
}

/// A requested board size forced into `[3, 201]`.
pub open spec fn clamp_board_size(size: int) -> int {
    if size < MIN_BOARD_SIZE as int {
        MIN_BOARD_SIZE as int
    } else if size > MAX_BOARD_SIZE_LIMIT as int {
        MAX_BOARD_SIZE_LIMIT as int
    } else {
        size
    }
}

fn clamp_size(size: usize) -> (r: usize)
    ensures
        r == clamp_board_size(size as int),
        MIN_BOARD_SIZE <= r <= MAX_BOARD_SIZE_LIMIT,
{
    if size < MIN_BOARD_SIZE {
        MIN_BOARD_SIZE
    } else if size > MAX_BOARD_SIZE_LIMIT {
        MAX_BOARD_SIZE_LIMIT
    } else {
        size
    }
}

} // verus!
