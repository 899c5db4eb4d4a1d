use life_engine::board::{Board, CellState};
use life_engine::reset::ResetManager;
use life_engine::rules::{BoardSizeMode, SizeConfig};

fn board_with_block(size: usize) -> Board {
    let mut board = Board::new(size, size);
    board.set_cell(4, 4, CellState::Alive);
    board.set_cell(4, 5, CellState::Alive);
    board.set_cell(5, 4, CellState::Alive);
    board.set_cell(5, 5, CellState::Alive);
    board
}

#[test]
fn two_stage_reset_restores_then_clears() {
    let mut config = SizeConfig::new();
    config.set_initial_board_size(9);
    let mut manager = ResetManager::new();
    let snapshot = board_with_block(9);
    manager.save_pre_start_state(&snapshot);

    // First reset: the snapshot comes back (here at its own size).
    let (first, clear1) = manager.reset_board(&Board::new(9, 9), true, &config);
    assert!(!clear1);
    assert!(first.same_cells(&snapshot));
    assert!(manager.has_pre_start_state());

    // Second reset: an empty grid, and the session flag must be cleared.
    let (second, clear2) = manager.reset_board(&first, true, &config);
    assert!(clear2);
    assert_eq!(second.width(), 9);
    assert_eq!(second.height(), 9);
    assert_eq!(second.count_alive_cells(), 0);
    assert!(!manager.has_pre_start_state());
}

#[test]
fn reset_before_any_start_gives_an_empty_grid() {
    let config = SizeConfig::new();
    let mut manager = ResetManager::new();
    let current = board_with_block(9);
    let (board, clear) = manager.reset_board(&current, false, &config);
    assert!(!clear);
    assert_eq!(board.width(), 9);
    assert_eq!(board.height(), 9);
    assert_eq!(board.count_alive_cells(), 0);
}

#[test]
fn reset_reads_the_target_size_at_call_time() {
    let mut config = SizeConfig::new();
    config.set_initial_board_size(9);
    let mut manager = ResetManager::new();
    manager.save_pre_start_state(&board_with_block(9));

    // The configuration changes after the snapshot was taken: the reset
    // honors the current static size, cropping the snapshot around its
    // center.
    config.set_board_size_mode(BoardSizeMode::Static);
    config.set_static_board_size(5);
    let (board, _) = manager.reset_board(&Board::new(9, 9), true, &config);
    assert_eq!(board.width(), 5);
    assert_eq!(board.height(), 5);
    assert_eq!(board.iter_alive_cells(), vec![(2, 2), (3, 2), (2, 3), (3, 3)]);
}

#[test]
fn reset_without_a_snapshot_clears_the_session() {
    let config = SizeConfig::new();
    let mut manager = ResetManager::new();
    let (board, clear) = manager.reset_board(&board_with_block(9), true, &config);
    assert!(clear);
    assert_eq!(board.count_alive_cells(), 0);
}

#[test]
fn snapshot_resized_up_is_centered() {
    let mut config = SizeConfig::new();
    config.set_initial_board_size(11);
    let mut manager = ResetManager::new();
    let mut snapshot = Board::new(9, 9);
    snapshot.set_cell(4, 4, CellState::Alive);
    manager.save_pre_start_state(&snapshot);
    let (board, _) = manager.reset_board(&snapshot, true, &config);
    assert_eq!(board.width(), 11);
    assert_eq!(board.height(), 11);
    assert_eq!(board.iter_alive_cells(), vec![(5, 5)]);
}

#[test]
fn next_reset_kind_follows_the_protocol() {
    let config = SizeConfig::new();
    let mut manager = ResetManager::new();
    assert!(manager.next_reset_is_empty(false));
    assert_eq!(manager.get_next_reset_description(false), "Reset to empty board");

    manager.save_pre_start_state(&board_with_block(9));
    assert!(!manager.next_reset_is_empty(true));
    assert_eq!(manager.get_next_reset_description(true), "Reset to pre-start state");

    let (_, _) = manager.reset_board(&Board::new(9, 9), true, &config);
    assert!(manager.next_reset_is_empty(true));
    assert_eq!(manager.get_next_reset_description(true), "Reset to empty board");
}

#[test]
fn clearing_the_snapshot_keeps_the_session_history() {
    let mut manager = ResetManager::new();
    manager.save_pre_start_state(&board_with_block(9));
    assert!(manager.has_pre_start_state());
    manager.clear_pre_start_state();
    assert!(!manager.has_pre_start_state());
    assert!(manager.next_reset_is_empty(true));
}
