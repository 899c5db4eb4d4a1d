use life_engine::board::{Board, CellState};
use life_engine::initial_state::{
    get_available_patterns, get_default_initial_state, InitialState, Pattern,
};
use life_engine::rules::SizeConfig;

#[test]
fn pattern_positions_are_the_documented_shapes() {
    assert_eq!(Pattern::Empty.get_positions(), vec![]);
    assert_eq!(Pattern::Block.get_positions(), vec![(1, 1), (1, 2), (2, 1), (2, 2)]);
    assert_eq!(Pattern::Blinker.get_positions(), vec![(1, 2), (2, 2), (3, 2)]);
    assert_eq!(
        Pattern::Glider.get_positions(),
        vec![(1, 0), (2, 1), (0, 2), (1, 2), (2, 2)]
    );
    let custom = Pattern::Custom(vec![(7, 8), (9, 10)]);
    assert_eq!(custom.get_positions(), vec![(7, 8), (9, 10)]);
}

#[test]
fn min_board_size_adds_a_margin_around_the_pattern() {
    assert_eq!(Pattern::Empty.min_board_size(), (5, 5));
    assert_eq!(Pattern::Blinker.min_board_size(), (8, 7));
    assert_eq!(Pattern::Glider.min_board_size(), (7, 7));
    assert_eq!(Pattern::Custom(vec![(10, 3)]).min_board_size(), (15, 8));
}

#[test]
fn apply_to_board_clears_and_stamps_the_pattern() {
    let mut board = Board::new(7, 7);
    board.set_cell(6, 6, CellState::Alive);
    let state = InitialState::new(Pattern::Block, (2, 2));
    state.apply_to_board(&mut board);
    assert_eq!(board.iter_alive_cells(), vec![(3, 3), (4, 3), (3, 4), (4, 4)]);
}

#[test]
fn apply_to_board_skips_positions_outside_the_grid() {
    let mut board = Board::new(4, 4);
    let state = InitialState::new(Pattern::Blinker, (2, 1));
    state.apply_to_board(&mut board);
    // (3+2, 2+1) falls outside the 4x4 grid and is skipped.
    assert_eq!(board.iter_alive_cells(), vec![(3, 3)]);
}

#[test]
fn create_board_with_size_grows_for_the_pattern() {
    let state = InitialState::new(Pattern::Blinker, (1, 1));
    let board = state.create_board_with_size(5);
    // The blinker needs an 8x7 grid, which beats the requested 5.
    assert_eq!(board.width(), 8);
    assert_eq!(board.height(), 7);
    assert_eq!(board.iter_alive_cells(), vec![(2, 3), (3, 3), (4, 3)]);
}

#[test]
fn create_board_uses_the_configured_size_when_it_is_larger() {
    let config = SizeConfig::new();
    let state = InitialState::new(Pattern::Block, (2, 2));
    let board = state.create_board(&config);
    assert_eq!(board.width(), 9);
    assert_eq!(board.height(), 9);
    assert_eq!(board.iter_alive_cells(), vec![(3, 3), (4, 3), (3, 4), (4, 4)]);
}

#[test]
fn default_state_is_the_empty_pattern() {
    let state = get_default_initial_state();
    assert!(matches!(state.pattern, Pattern::Empty));
    assert_eq!(state.offset, (2, 2));
    let config = SizeConfig::new();
    let board = state.create_board(&config);
    assert_eq!(board.count_alive_cells(), 0);
}

#[test]
fn available_patterns_list_the_four_names() {
    let patterns = get_available_patterns();
    let names: Vec<&str> = patterns.iter().map(|(n, _)| *n).collect();
    assert_eq!(names, vec!["Empty", "Block", "Blinker", "Glider"]);
    assert!(matches!(patterns[2].1, Pattern::Blinker));
}

#[test]
fn cloned_state_keeps_pattern_and_offset() {
    let state = InitialState::new(Pattern::Custom(vec![(1, 2)]), (4, 4));
    let copy = state.clone();
    assert_eq!(copy.offset, (4, 4));
    assert_eq!(copy.pattern.get_positions(), vec![(1, 2)]);
}
