use life_engine::board::{Board, CellState};
use life_engine::change_state::{CellStateManager, DragAction, DragState};

fn mixed_board() -> Board {
    let mut board = Board::new(5, 5);
    board.set_cell(1, 0, CellState::Alive);
    board.set_cell(3, 0, CellState::Alive);
    board.set_cell(2, 2, CellState::Alive);
    board
}

#[test]
fn click_toggles_a_cell() {
    let mut manager = CellStateManager::new();
    let mut board = mixed_board();
    assert!(manager.handle_cell_click(&mut board, 0, 0));
    assert_eq!(board.get_cell(0, 0), Some(CellState::Alive));
    assert!(manager.handle_cell_click(&mut board, 2, 2));
    assert_eq!(board.get_cell(2, 2), Some(CellState::Dead));
    assert!(!manager.handle_cell_click(&mut board, 9, 9));
    assert!(!manager.is_dragging());
}

#[test]
fn drag_from_a_dead_cell_paints_and_never_erases() {
    let mut manager = CellStateManager::new();
    let mut board = mixed_board();
    let alive_before = board.iter_alive_cells();

    // The drag starts on a dead cell and crosses dead and alive cells.
    assert!(manager.start_drag(&mut board, 0, 0));
    assert_eq!(manager.drag_state().drag_action, Some(DragAction::CreateCell));
    let path = [(1, 0), (2, 0), (3, 0), (2, 1), (2, 2)];
    for &(x, y) in &path {
        manager.continue_drag(&mut board, x, y);
    }
    manager.end_drag();

    // Every touched cell is now alive, and nothing was erased.
    assert_eq!(board.get_cell(0, 0), Some(CellState::Alive));
    for &(x, y) in &path {
        assert_eq!(board.get_cell(x, y), Some(CellState::Alive));
    }
    for (x, y) in alive_before {
        assert_eq!(board.get_cell(x, y), Some(CellState::Alive));
    }
}

#[test]
fn drag_from_an_alive_cell_erases_and_never_paints() {
    let mut manager = CellStateManager::new();
    let mut board = mixed_board();
    let dead_before: Vec<(usize, usize)> = board
        .iter_cells()
        .into_iter()
        .filter(|&(_, _, s)| s == CellState::Dead)
        .map(|(x, y, _)| (x, y))
        .collect();

    // The drag starts on an alive cell and crosses dead and alive cells.
    assert!(manager.start_drag(&mut board, 1, 0));
    assert_eq!(manager.drag_state().drag_action, Some(DragAction::KillCell));
    let path = [(2, 0), (3, 0), (2, 1), (2, 2)];
    for &(x, y) in &path {
        manager.continue_drag(&mut board, x, y);
    }
    manager.end_drag();

    // Every touched cell is now dead, and nothing was painted.
    assert_eq!(board.get_cell(1, 0), Some(CellState::Dead));
    for &(x, y) in &path {
        assert_eq!(board.get_cell(x, y), Some(CellState::Dead));
    }
    for (x, y) in dead_before {
        assert_eq!(board.get_cell(x, y), Some(CellState::Dead));
    }
}

#[test]
fn continue_drag_ignores_repeats_of_the_last_cell() {
    let mut manager = CellStateManager::new();
    let mut board = Board::new(4, 4);
    manager.start_drag(&mut board, 0, 0);
    assert!(manager.continue_drag(&mut board, 1, 1));
    // The same cell again is not a new event.
    assert!(!manager.continue_drag(&mut board, 1, 1));
    assert_eq!(board.get_cell(1, 1), Some(CellState::Alive));
}

#[test]
fn continue_drag_without_a_gesture_does_nothing() {
    let mut manager = CellStateManager::new();
    let mut board = Board::new(4, 4);
    assert!(!manager.continue_drag(&mut board, 1, 1));
    assert_eq!(board.get_cell(1, 1), Some(CellState::Dead));
}

#[test]
fn out_of_bounds_drag_events_change_nothing() {
    let mut manager = CellStateManager::new();
    let mut board = Board::new(3, 3);
    assert!(!manager.start_drag(&mut board, 7, 7));
    assert!(!manager.is_dragging());
    manager.start_drag(&mut board, 0, 0);
    assert!(!manager.continue_drag(&mut board, 7, 7));
    assert_eq!(board.count_alive_cells(), 1);
}

#[test]
fn end_drag_and_reset_return_to_idle() {
    let mut manager = CellStateManager::new();
    let mut board = Board::new(3, 3);
    manager.start_drag(&mut board, 1, 1);
    assert!(manager.is_dragging());
    manager.end_drag();
    assert!(!manager.is_dragging());
    assert_eq!(manager.drag_state().drag_action, None);
    assert_eq!(manager.drag_state().last_cell, None);

    manager.start_drag(&mut board, 0, 0);
    manager.reset();
    assert!(!manager.is_dragging());
}

#[test]
fn handle_mouse_over_only_acts_while_dragging() {
    let mut manager = CellStateManager::new();
    let mut board = Board::new(4, 4);
    assert!(!manager.handle_mouse_over(&mut board, 2, 2));
    assert_eq!(board.get_cell(2, 2), Some(CellState::Dead));
    manager.start_drag(&mut board, 0, 0);
    assert!(manager.handle_mouse_over(&mut board, 2, 2));
    assert_eq!(board.get_cell(2, 2), Some(CellState::Alive));
}

#[test]
fn drag_state_tracks_the_gesture() {
    let mut state = DragState::new();
    assert!(!state.is_dragging());
    assert!(state.is_new_cell((0, 0)));
    state.start_drag(DragAction::CreateCell, (1, 2));
    assert!(state.is_dragging());
    assert_eq!(state.drag_action(), Some(DragAction::CreateCell));
    assert!(!state.is_new_cell((1, 2)));
    assert!(state.is_new_cell((2, 2)));
    state.update_last_cell((2, 2));
    assert!(!state.is_new_cell((2, 2)));
    state.end_drag();
    assert!(!state.is_dragging());
    assert_eq!(state.drag_action(), None);
    assert_eq!(state.last_cell, None);
}
