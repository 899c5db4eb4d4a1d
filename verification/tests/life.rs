use life_engine::board::{Board, CellState};
use life_engine::rules::RuleConfig;

fn blinker_horizontal() -> Board {
    let mut board = Board::new(5, 5);
    board.set_cell(1, 2, CellState::Alive);
    board.set_cell(2, 2, CellState::Alive);
    board.set_cell(3, 2, CellState::Alive);
    board
}

#[test]
fn blinker_oscillates_with_period_two() {
    let rules = RuleConfig::new();
    let gen0 = blinker_horizontal();
    let gen1 = gen0.next_generation(&rules);
    // Generation 1 is the vertical triplet.
    assert_eq!(gen1.iter_alive_cells(), vec![(2, 1), (2, 2), (2, 3)]);
    // Generation 2 equals generation 0.
    let gen2 = gen1.next_generation(&rules);
    assert!(gen2.same_cells(&gen0));
}

#[test]
fn block_is_stable() {
    let rules = RuleConfig::new();
    let mut board = Board::new(5, 5);
    board.set_cell(1, 1, CellState::Alive);
    board.set_cell(1, 2, CellState::Alive);
    board.set_cell(2, 1, CellState::Alive);
    board.set_cell(2, 2, CellState::Alive);
    assert!(board.is_stable(&rules));
    let next = board.next_generation(&rules);
    assert!(next.same_cells(&board));
}

#[test]
fn blinker_is_not_stable() {
    let rules = RuleConfig::new();
    assert!(!blinker_horizontal().is_stable(&rules));
}

#[test]
fn next_generation_is_deterministic() {
    let rules = RuleConfig::new();
    let mut board = Board::new(6, 6);
    for &(x, y) in &[(1, 0), (2, 1), (0, 2), (1, 2), (2, 2), (4, 4), (5, 5)] {
        board.set_cell(x, y, CellState::Alive);
    }
    let a = board.next_generation(&rules);
    let b = board.next_generation(&rules);
    assert_eq!(a.iter_cells(), b.iter_cells());
}

#[test]
fn count_alive_neighbors_counts_the_moore_neighborhood() {
    let mut board = Board::new(3, 3);
    board.set_cell(0, 0, CellState::Alive);
    board.set_cell(1, 0, CellState::Alive);
    board.set_cell(2, 2, CellState::Alive);
    // The center sees all three; the cell itself is not counted.
    assert_eq!(board.count_alive_neighbors(1, 1), 3);
    // A corner only sees its three in-bounds neighbors.
    assert_eq!(board.count_alive_neighbors(0, 0), 1);
    assert_eq!(board.count_alive_neighbors(2, 0), 1);
}

#[test]
fn neighbors_outside_the_grid_count_as_dead() {
    let rules = RuleConfig::new();
    // A triplet along the top edge: the cells above are outside, so the
    // middle cell survives with 2 neighbors and the ends die.
    let mut board = Board::new(5, 5);
    board.set_cell(1, 0, CellState::Alive);
    board.set_cell(2, 0, CellState::Alive);
    board.set_cell(3, 0, CellState::Alive);
    let next = board.next_generation(&rules);
    assert_eq!(next.get_cell(2, 0), Some(CellState::Alive));
    assert_eq!(next.get_cell(1, 0), Some(CellState::Dead));
    assert_eq!(next.get_cell(3, 0), Some(CellState::Dead));
    assert_eq!(next.get_cell(2, 1), Some(CellState::Alive));
}

#[test]
fn is_empty_reports_live_cells() {
    let mut board = Board::new(4, 4);
    assert!(board.is_empty());
    board.set_cell(3, 1, CellState::Alive);
    assert!(!board.is_empty());
    board.clear();
    assert!(board.is_empty());
}

#[test]
fn is_alive_treats_outside_as_dead() {
    let mut board = Board::new(3, 3);
    board.set_cell(1, 1, CellState::Alive);
    assert!(board.is_alive(1, 1));
    assert!(!board.is_alive(0, 0));
    assert!(!board.is_alive(3, 3));
}

#[test]
fn custom_rules_change_the_outcome() {
    // Under a birth range of {1}, a single cell spawns all 8 neighbors.
    let mut rules = RuleConfig::new();
    rules.set_birth_neighbors(1, 1);
    rules.set_survival_neighbors(0, 8);
    let mut board = Board::new(3, 3);
    board.set_cell(1, 1, CellState::Alive);
    let next = board.next_generation(&rules);
    assert_eq!(next.count_alive_cells(), 9);
}
