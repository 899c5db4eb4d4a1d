use life_engine::board::Board;
use life_engine::randomizer::{
    count_alive_neighbors, generate_random_board, generate_simple_random_board,
};
use life_engine::board::CellState;
use life_engine::rules::{RandomizerConfig, PROBABILITY_SCALE};

#[test]
fn full_probability_fills_every_cell() {
    let config = RandomizerConfig::new(PROBABILITY_SCALE, 0);
    let board = Board::new(7, 5);
    let random = generate_random_board(&board, &config);
    assert_eq!(random.width(), 7);
    assert_eq!(random.height(), 5);
    assert_eq!(random.count_alive_cells(), 35);
    let simple = generate_simple_random_board(&board, &config);
    assert_eq!(simple.count_alive_cells(), 35);
}

#[test]
fn zero_probability_leaves_every_cell_dead() {
    let config = RandomizerConfig::new(0, 0);
    let board = Board::new(6, 6);
    let random = generate_random_board(&board, &config);
    assert_eq!(random.count_alive_cells(), 0);
    let simple = generate_simple_random_board(&board, &config);
    assert_eq!(simple.count_alive_cells(), 0);
}

#[test]
fn generated_board_keeps_the_dimensions() {
    let config = RandomizerConfig::default();
    let board = Board::new(10, 4);
    let random = generate_random_board(&board, &config);
    assert_eq!(random.width(), 10);
    assert_eq!(random.height(), 4);
    let simple = generate_simple_random_board(&board, &config);
    assert_eq!(simple.width(), 10);
    assert_eq!(simple.height(), 4);
}

#[test]
fn randomizer_config_clamps_to_the_scale() {
    let config = RandomizerConfig::new(5000, 2000);
    assert_eq!(config.base_probability(), PROBABILITY_SCALE);
    assert_eq!(config.neighbor_bonus(), PROBABILITY_SCALE);
    let defaults = RandomizerConfig::default();
    assert_eq!(defaults.base_probability(), 200);
    assert_eq!(defaults.neighbor_bonus(), 100);
    let mut config = RandomizerConfig::new(0, 0);
    config.set_base_probability(1500);
    config.set_neighbor_bonus(30);
    assert_eq!(config.base_probability(), PROBABILITY_SCALE);
    assert_eq!(config.neighbor_bonus(), 30);
}

#[test]
fn free_neighbor_count_matches_the_board_method() {
    let mut board = Board::new(4, 4);
    board.set_cell(0, 0, CellState::Alive);
    board.set_cell(1, 1, CellState::Alive);
    board.set_cell(2, 2, CellState::Alive);
    for y in 0..4 {
        for x in 0..4 {
            assert_eq!(
                count_alive_neighbors(&board, x, y),
                board.count_alive_neighbors(x, y)
            );
        }
    }
}
