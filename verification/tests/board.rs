use life_engine::board::{Board, CellState};
use life_engine::rules::SizeConfig;

#[test]
fn new_board_is_all_dead() {
    let board = Board::new(4, 3);
    assert_eq!(board.width(), 4);
    assert_eq!(board.height(), 3);
    assert_eq!(board.total_cells(), 12);
    for y in 0..3 {
        for x in 0..4 {
            assert_eq!(board.get_cell(x, y), Some(CellState::Dead));
        }
    }
    assert_eq!(board.count_alive_cells(), 0);
}

#[test]
fn new_from_config_uses_initial_size() {
    let config = SizeConfig::new();
    let board = Board::new_from_config(&config);
    assert_eq!(board.width(), 9);
    assert_eq!(board.height(), 9);
    assert_eq!(board.count_alive_cells(), 0);
}

#[test]
fn set_then_get_returns_alive() {
    let mut board = Board::new(5, 5);
    assert!(board.set_cell(1, 2, CellState::Alive));
    assert_eq!(board.get_cell(1, 2), Some(CellState::Alive));
    assert_eq!(board.get_cell(2, 1), Some(CellState::Dead));
}

#[test]
fn out_of_bounds_is_a_no_op() {
    let mut board = Board::new(3, 3);
    assert_eq!(board.get_cell(3, 0), None);
    assert_eq!(board.get_cell(0, 3), None);
    assert!(!board.set_cell(3, 0, CellState::Alive));
    assert!(!board.toggle_cell(5, 5));
    assert!(!board.is_valid_coords(3, 3));
    assert!(board.is_valid_coords(2, 2));
    assert_eq!(board.count_alive_cells(), 0);
}

#[test]
fn toggle_twice_restores_the_cell() {
    let mut board = Board::new(4, 4);
    board.set_cell(2, 2, CellState::Alive);
    assert!(board.toggle_cell(1, 1));
    assert_eq!(board.get_cell(1, 1), Some(CellState::Alive));
    assert!(board.toggle_cell(1, 1));
    assert_eq!(board.get_cell(1, 1), Some(CellState::Dead));
    assert!(board.toggle_cell(2, 2));
    assert_eq!(board.get_cell(2, 2), Some(CellState::Dead));
    assert!(board.toggle_cell(2, 2));
    assert_eq!(board.get_cell(2, 2), Some(CellState::Alive));
}

#[test]
fn clear_kills_every_cell() {
    let mut board = Board::new(3, 3);
    board.set_cell(0, 0, CellState::Alive);
    board.set_cell(2, 2, CellState::Alive);
    assert_eq!(board.count_alive_cells(), 2);
    board.clear();
    assert_eq!(board.width(), 3);
    assert_eq!(board.height(), 3);
    assert_eq!(board.count_alive_cells(), 0);
}

#[test]
fn count_alive_cells_counts_exactly() {
    let mut board = Board::new(4, 4);
    board.set_cell(0, 0, CellState::Alive);
    board.set_cell(1, 0, CellState::Alive);
    board.set_cell(3, 3, CellState::Alive);
    assert_eq!(board.count_alive_cells(), 3);
    board.set_cell(1, 0, CellState::Dead);
    assert_eq!(board.count_alive_cells(), 2);
}

#[test]
fn iter_cells_is_row_major() {
    let mut board = Board::new(2, 2);
    board.set_cell(1, 0, CellState::Alive);
    let cells = board.iter_cells();
    assert_eq!(
        cells,
        vec![
            (0, 0, CellState::Dead),
            (1, 0, CellState::Alive),
            (0, 1, CellState::Dead),
            (1, 1, CellState::Dead),
        ]
    );
}

#[test]
fn iter_alive_cells_lists_alive_in_order() {
    let mut board = Board::new(3, 3);
    board.set_cell(2, 0, CellState::Alive);
    board.set_cell(0, 2, CellState::Alive);
    board.set_cell(1, 1, CellState::Alive);
    assert_eq!(board.iter_alive_cells(), vec![(2, 0), (1, 1), (0, 2)]);
}

#[test]
fn clone_copies_the_grid() {
    let mut board = Board::new(3, 2);
    board.set_cell(1, 1, CellState::Alive);
    let copy = board.clone();
    assert!(board.same_cells(&copy));
    board.set_cell(0, 0, CellState::Alive);
    assert!(!board.same_cells(&copy));
    assert_eq!(copy.get_cell(0, 0), Some(CellState::Dead));
}

#[test]
fn same_cells_spots_dimension_and_content_differences() {
    let a = Board::new(3, 3);
    let b = Board::new(3, 4);
    assert!(!a.same_cells(&b));
    let mut c = Board::new(3, 3);
    assert!(a.same_cells(&c));
    c.set_cell(1, 1, CellState::Alive);
    assert!(!a.same_cells(&c));
}

#[test]
fn cell_state_default_is_dead() {
    assert_eq!(CellState::default(), CellState::Dead);
}
