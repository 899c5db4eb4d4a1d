use life_engine::board::{Board, CellState};
use life_engine::rules::{BoardSizeMode, SizeConfig};

#[test]
fn expand_adds_one_ring_and_recenters() {
    let mut board = Board::new(3, 3);
    board.set_cell(0, 0, CellState::Alive);
    board.set_cell(2, 1, CellState::Alive);
    let bigger = board.expand();
    assert_eq!(bigger.width(), 5);
    assert_eq!(bigger.height(), 5);
    assert_eq!(bigger.iter_alive_cells(), vec![(1, 1), (3, 2)]);
}

#[test]
fn expand_by_layers_shifts_content_by_the_layer_count() {
    let mut board = Board::new(3, 3);
    board.set_cell(0, 0, CellState::Alive);
    board.set_cell(2, 1, CellState::Alive);
    let grown = board.expand_by_layers(2).unwrap();
    assert_eq!(grown.width(), 7);
    assert_eq!(grown.height(), 7);
    assert_eq!(grown.iter_alive_cells(), vec![(2, 2), (4, 3)]);
    assert_eq!(grown.count_alive_cells(), board.count_alive_cells());
}

#[test]
fn expand_by_zero_layers_yields_nothing() {
    let board = Board::new(3, 3);
    assert!(board.expand_by_layers(0).is_none());
}

#[test]
fn auto_expand_never_acts_in_static_mode() {
    let mut config = SizeConfig::new();
    config.set_board_size_mode(BoardSizeMode::Static);
    let mut board = Board::new(5, 5);
    board.set_cell(0, 0, CellState::Alive);
    assert!(board.auto_expand_if_needed(&config).is_none());
}

#[test]
fn auto_expand_never_grows_past_the_maximum_size() {
    let mut config = SizeConfig::new();
    config.set_max_board_size(5);
    let mut board = Board::new(5, 5);
    board.set_cell(0, 0, CellState::Alive);
    assert!(board.auto_expand_if_needed(&config).is_none());
}

#[test]
fn auto_expand_grows_when_cells_near_the_edge() {
    let config = SizeConfig::new();
    let mut board = Board::new(5, 5);
    board.set_cell(0, 0, CellState::Alive);
    let grown = board.auto_expand_if_needed(&config).unwrap();
    assert_eq!(grown.width(), 7);
    assert_eq!(grown.height(), 7);
    assert_eq!(grown.iter_alive_cells(), vec![(1, 1)]);
}

#[test]
fn auto_expand_clamps_the_target_to_the_maximum() {
    let mut config = SizeConfig::new();
    config.set_max_board_size(101);
    let mut board = Board::new(100, 100);
    board.set_cell(0, 0, CellState::Alive);
    // One layer would reach 102; the target is clamped to the 101 maximum,
    // and that still differs from the current size, so the grid grows.
    let grown = board.auto_expand_if_needed(&config).unwrap();
    assert_eq!(grown.width(), 101);
    assert_eq!(grown.height(), 101);
    assert_eq!(grown.iter_alive_cells(), vec![(0, 0)]);
}

#[test]
fn auto_expand_grows_each_axis_on_its_own() {
    let mut config = SizeConfig::new();
    config.set_max_board_size(101);
    let mut board = Board::new(101, 99);
    board.set_cell(0, 0, CellState::Alive);
    // The width is already at the maximum; only the height grows.
    let grown = board.auto_expand_if_needed(&config).unwrap();
    assert_eq!(grown.width(), 101);
    assert_eq!(grown.height(), 101);
    assert_eq!(grown.iter_alive_cells(), vec![(0, 1)]);
}

#[test]
fn auto_expand_leaves_a_comfortable_grid_alone() {
    let config = SizeConfig::new();
    let mut board = Board::new(9, 9);
    board.set_cell(4, 4, CellState::Alive);
    assert!(board.auto_expand_if_needed(&config).is_none());
}

#[test]
fn optimize_size_shrinks_to_the_bounding_box_plus_margin() {
    let mut board = Board::new(9, 9);
    board.set_cell(4, 4, CellState::Alive);
    let small = board.optimize_size(1).unwrap();
    assert_eq!(small.width(), 3);
    assert_eq!(small.height(), 3);
    assert_eq!(small.iter_alive_cells(), vec![(1, 1)]);
}

#[test]
fn optimize_size_is_idempotent() {
    let mut board = Board::new(9, 9);
    board.set_cell(4, 4, CellState::Alive);
    board.set_cell(5, 4, CellState::Alive);
    let small = board.optimize_size(2).unwrap();
    assert!(small.optimize_size(2).is_none());
}

#[test]
fn optimize_size_never_increases_any_dimension() {
    let mut board = Board::new(7, 4);
    board.set_cell(3, 2, CellState::Alive);
    if let Some(small) = board.optimize_size(3) {
        assert!(small.width() <= 7);
        assert!(small.height() <= 4);
    }
}

#[test]
fn optimize_size_clips_the_margin_at_the_grid_edge() {
    let mut board = Board::new(6, 6);
    board.set_cell(0, 0, CellState::Alive);
    let small = board.optimize_size(2).unwrap();
    // The kept window is [0, 2] on both axes: the margin is clipped at the
    // near edge.
    assert_eq!(small.width(), 3);
    assert_eq!(small.height(), 3);
    assert_eq!(small.iter_alive_cells(), vec![(0, 0)]);
}

#[test]
fn optimize_size_of_an_empty_grid_shrinks_to_the_minimal_size() {
    let board = Board::new(9, 9);
    let small = board.optimize_size(1).unwrap();
    assert_eq!(small.width(), 3);
    assert_eq!(small.height(), 3);
    assert_eq!(small.count_alive_cells(), 0);
    assert!(small.optimize_size(1).is_none());
}

#[test]
fn optimize_size_of_a_minimal_grid_yields_nothing() {
    let mut board = Board::new(3, 3);
    board.set_cell(1, 1, CellState::Alive);
    assert!(board.optimize_size(1).is_none());
}

#[test]
fn resize_to_a_larger_grid_centers_the_content() {
    let mut board = Board::new(3, 3);
    board.set_cell(1, 1, CellState::Alive);
    let bigger = board.resize_to(7, 5);
    assert_eq!(bigger.width(), 7);
    assert_eq!(bigger.height(), 5);
    assert_eq!(bigger.iter_alive_cells(), vec![(3, 2)]);
}

#[test]
fn resize_to_a_smaller_grid_keeps_a_centered_crop() {
    let mut board = Board::new(5, 5);
    board.set_cell(2, 2, CellState::Alive);
    board.set_cell(0, 0, CellState::Alive);
    let smaller = board.resize_to(3, 3);
    assert_eq!(smaller.width(), 3);
    assert_eq!(smaller.height(), 3);
    // The center survives; the corner cell was outside the crop.
    assert_eq!(smaller.iter_alive_cells(), vec![(1, 1)]);
}

#[test]
fn resize_to_square_works_on_both_axes() {
    let mut board = Board::new(5, 3);
    board.set_cell(2, 1, CellState::Alive);
    let square = board.resize_to_square(7);
    assert_eq!(square.width(), 7);
    assert_eq!(square.height(), 7);
    assert_eq!(square.iter_alive_cells(), vec![(3, 3)]);
}
