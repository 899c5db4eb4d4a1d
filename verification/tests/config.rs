use life_engine::rules::{BoardSizeMode, RuleConfig, SizeConfig};

#[test]
fn default_rules_are_conway_b3_s23() {
    let rules = RuleConfig::new();
    assert_eq!(rules.birth_neighbors(), (3, 3));
    assert_eq!(rules.survival_neighbors(), (2, 3));
    assert!(rules.should_birth(3));
    assert!(!rules.should_birth(2));
    assert!(!rules.should_birth(4));
    assert!(rules.should_survive(2));
    assert!(rules.should_survive(3));
    assert!(!rules.should_survive(1));
    assert!(!rules.should_survive(4));
    assert_eq!(RuleConfig::default(), rules);
}

#[test]
fn reversed_ranges_are_swapped() {
    let mut rules = RuleConfig::new();
    rules.set_birth_neighbors(5, 2);
    assert_eq!(rules.birth_neighbors(), (2, 5));
    rules.set_survival_neighbors(8, 1);
    assert_eq!(rules.survival_neighbors(), (1, 8));
    assert!(rules.should_birth(4));
    assert!(rules.should_survive(8));
}

#[test]
fn size_config_defaults() {
    let config = SizeConfig::new();
    assert_eq!(config.board_size_mode(), BoardSizeMode::Dynamic);
    assert_eq!(config.max_board_size(), 101);
    assert_eq!(config.initial_board_size(), 9);
    assert_eq!(config.static_board_size(), 21);
    assert_eq!(config.expansion_margin(), 2);
    assert_eq!(config.expansion_layers(), 1);
    assert_eq!(config.optimization_margin(), 3);
    assert_eq!(BoardSizeMode::default(), BoardSizeMode::Dynamic);
}

#[test]
fn sizes_are_clamped_to_the_legal_range() {
    let mut config = SizeConfig::new();
    config.set_max_board_size(1000);
    assert_eq!(config.max_board_size(), 201);
    config.set_max_board_size(1);
    assert_eq!(config.max_board_size(), 3);
    config.set_initial_board_size(0);
    assert_eq!(config.initial_board_size(), 3);
    config.set_static_board_size(500);
    assert_eq!(config.static_board_size(), 201);
    config.set_static_board_size(50);
    assert_eq!(config.static_board_size(), 50);
}

#[test]
fn current_board_size_follows_the_mode() {
    let mut config = SizeConfig::new();
    assert_eq!(config.get_current_board_size(), 9);
    assert!(config.can_expand_in_current_mode());
    config.set_board_size_mode(BoardSizeMode::Static);
    assert_eq!(config.get_current_board_size(), 21);
    assert!(!config.can_expand_in_current_mode());
}

#[test]
fn can_expand_respects_the_maximum() {
    let mut config = SizeConfig::new();
    config.set_max_board_size(11);
    assert!(config.can_expand(9, 9, 1));
    assert!(!config.can_expand(10, 10, 1));
    assert!(!config.can_expand(9, 11, 1));
    assert!(config.can_expand(3, 3, 4));
    assert!(!config.can_expand(3, 3, 5));
}

#[test]
fn max_dimension_caps_the_proposed_size() {
    let mut config = SizeConfig::new();
    config.set_max_board_size(11);
    assert_eq!(config.get_max_dimension(9, 1), 11);
    assert_eq!(config.get_max_dimension(10, 1), 11);
    assert_eq!(config.get_max_dimension(3, 1), 5);
}

#[test]
fn expansion_settings_can_be_changed() {
    let mut config = SizeConfig::new();
    config.set_expansion_margin(4);
    config.set_expansion_layers(2);
    config.set_optimization_margin(1);
    assert_eq!(config.expansion_margin(), 4);
    assert_eq!(config.expansion_layers(), 2);
    assert_eq!(config.optimization_margin(), 1);
}
