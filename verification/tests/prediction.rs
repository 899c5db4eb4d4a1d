use life_engine::board::{Board, CellState};
use life_engine::prediction::{
    predict_birth_cells, predict_death_cells, predict_next_state, will_cell_be_born,
    will_cell_die, PredictionResult,
};
use life_engine::rules::RuleConfig;

fn blinker() -> Board {
    let mut board = Board::new(5, 5);
    board.set_cell(1, 2, CellState::Alive);
    board.set_cell(2, 2, CellState::Alive);
    board.set_cell(3, 2, CellState::Alive);
    board
}

#[test]
fn prediction_classifies_the_blinker() {
    let rules = RuleConfig::new();
    let p = predict_next_state(&blinker(), &rules);
    assert_eq!(p.next_alive_cells, vec![(2, 1), (2, 2), (2, 3)]);
    assert_eq!(p.birth_cells, vec![(2, 1), (2, 3)]);
    assert_eq!(p.death_cells, vec![(1, 2), (3, 2)]);
}

#[test]
fn birth_and_death_cells_are_disjoint_and_births_will_be_alive() {
    let rules = RuleConfig::new();
    let mut board = Board::new(6, 6);
    for &(x, y) in &[(1, 0), (2, 1), (0, 2), (1, 2), (2, 2), (4, 4)] {
        board.set_cell(x, y, CellState::Alive);
    }
    let p = predict_next_state(&board, &rules);
    for cell in &p.birth_cells {
        assert!(p.next_alive_cells.contains(cell));
        assert!(!p.death_cells.contains(cell));
    }
}

#[test]
fn reclassifying_the_next_generation_reproduces_the_sets() {
    let rules = RuleConfig::new();
    let mut board = Board::new(6, 6);
    for &(x, y) in &[(1, 0), (2, 1), (0, 2), (1, 2), (2, 2), (5, 5)] {
        board.set_cell(x, y, CellState::Alive);
    }
    let p = predict_next_state(&board, &rules);
    let next = board.next_generation(&rules);
    let mut births = Vec::new();
    let mut deaths = Vec::new();
    let mut alive = Vec::new();
    for (x, y, state) in next.iter_cells() {
        let was_alive = board.get_cell(x, y) == Some(CellState::Alive);
        let is_alive = state == CellState::Alive;
        if is_alive {
            alive.push((x, y));
        }
        if !was_alive && is_alive {
            births.push((x, y));
        }
        if was_alive && !is_alive {
            deaths.push((x, y));
        }
    }
    assert_eq!(p.next_alive_cells, alive);
    assert_eq!(p.birth_cells, births);
    assert_eq!(p.death_cells, deaths);
}

#[test]
fn membership_queries_match_the_lists() {
    let rules = RuleConfig::new();
    let p = predict_next_state(&blinker(), &rules);
    assert!(p.will_be_born(2, 1));
    assert!(!p.will_be_born(2, 2));
    assert!(p.will_die(1, 2));
    assert!(!p.will_die(2, 2));
    assert!(p.will_be_alive(2, 2));
    assert!(!p.will_be_alive(0, 0));
}

#[test]
fn single_cell_queries_match_the_full_prediction() {
    let rules = RuleConfig::new();
    let board = blinker();
    let p = predict_next_state(&board, &rules);
    for y in 0..5 {
        for x in 0..5 {
            assert_eq!(will_cell_be_born(&board, &rules, x, y), p.will_be_born(x, y));
            assert_eq!(will_cell_die(&board, &rules, x, y), p.will_die(x, y));
        }
    }
}

#[test]
fn single_cell_queries_reject_out_of_bounds() {
    let rules = RuleConfig::new();
    let board = blinker();
    assert!(!will_cell_be_born(&board, &rules, 5, 0));
    assert!(!will_cell_die(&board, &rules, 0, 5));
}

#[test]
fn birth_and_death_list_shortcuts_match() {
    let rules = RuleConfig::new();
    let board = blinker();
    let p = predict_next_state(&board, &rules);
    assert_eq!(predict_birth_cells(&board, &rules), p.birth_cells);
    assert_eq!(predict_death_cells(&board, &rules), p.death_cells);
}

#[test]
fn empty_prediction_has_no_cells() {
    let p = PredictionResult::new();
    assert!(p.next_alive_cells.is_empty());
    assert!(p.birth_cells.is_empty());
    assert!(p.death_cells.is_empty());
    assert!(!p.will_be_alive(0, 0));
}
