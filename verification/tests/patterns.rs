use life_engine::carpet::create_carpet;
use life_engine::glider_gun::create_glider_gun;
use life_engine::patterns::{Pattern, PatternManager, Position};
use life_engine::pulsar::create_pulsar;

#[test]
fn built_in_patterns_have_their_shapes() {
    let carpet = create_carpet();
    assert_eq!(carpet.name, "Carpet");
    assert_eq!(carpet.size, (11, 11));
    assert_eq!(carpet.center_offset, (5, 5));
    assert_eq!(carpet.cells.len(), 21);
    assert_eq!(carpet.cells[0], Position::new(1, 1));
    assert!(carpet.cells.contains(&Position::new(5, 5)));
    assert_eq!(carpet.image_path.as_deref(), Some("assets/carpet.png"));

    let pulsar = create_pulsar();
    assert_eq!(pulsar.name, "Pulsar");
    assert_eq!(pulsar.size, (13, 13));
    assert_eq!(pulsar.center_offset, (6, 6));
    assert_eq!(pulsar.cells.len(), 48);
    assert_eq!(pulsar.cells[0], Position::new(2, 0));
    assert_eq!(pulsar.cells[47], Position::new(10, 12));
    assert_eq!(pulsar.image_path, None);

    let gun = create_glider_gun();
    assert_eq!(gun.name, "Glider Gun");
    assert_eq!(gun.size, (36, 9));
    assert_eq!(gun.center_offset, (18, 4));
    assert_eq!(gun.cells.len(), 36);
    assert!(gun.cells.contains(&Position::new(0, 4)));
    assert!(gun.cells.contains(&Position::new(35, 3)));
    assert_eq!(gun.image_path, None);
}

#[test]
fn manager_serves_patterns_by_name() {
    let manager = PatternManager::new();
    let carpet = manager.get_pattern("Carpet").unwrap();
    assert_eq!(carpet.name, "Carpet");
    let gun = manager.get_pattern("Glider Gun").unwrap();
    assert_eq!(gun.cells.len(), 36);
    assert!(manager.get_pattern("No such shape").is_none());
    assert_eq!(manager.get_all_patterns().len(), 3);
}

#[test]
fn adding_a_new_pattern_appends_it() {
    let mut manager = PatternManager::new();
    let dot = Pattern::new(
        "Dot".to_owned(),
        "A single cell".to_owned(),
        (1, 1),
        (0, 0),
        vec![Position::new(0, 0)],
        None,
    );
    manager.add_pattern(dot);
    assert_eq!(manager.get_all_patterns().len(), 4);
    assert_eq!(manager.get_pattern("Dot").unwrap().cells.len(), 1);
}

#[test]
fn adding_an_existing_name_replaces_the_pattern() {
    let mut manager = PatternManager::new();
    let fake_carpet = Pattern::new(
        "Carpet".to_owned(),
        "A smaller stand-in".to_owned(),
        (1, 1),
        (0, 0),
        vec![Position::new(0, 0)],
        None,
    );
    manager.add_pattern(fake_carpet);
    assert_eq!(manager.get_all_patterns().len(), 3);
    assert_eq!(manager.get_pattern("Carpet").unwrap().cells.len(), 1);
}

#[test]
fn cells_at_center_translate_the_pattern() {
    let carpet = create_carpet();
    let cells = carpet.get_cells_at_center(Position::new(10, 10));
    assert_eq!(cells.len(), 21);
    // The top-left arm cell (1, 1) lands at (10 - 5 + 1, 10 - 5 + 1).
    assert!(cells.contains(&Position::new(6, 6)));
    // The center cell (5, 5) lands exactly on the requested center.
    assert!(cells.contains(&Position::new(10, 10)));
}

#[test]
fn clear_area_covers_the_pattern_rectangle() {
    let small = Pattern::new(
        "Pair".to_owned(),
        "Two cells".to_owned(),
        (2, 2),
        (0, 0),
        vec![Position::new(0, 0), Position::new(1, 1)],
        None,
    );
    let area = small.get_clear_area(Position::new(3, 4));
    assert_eq!(
        area,
        vec![
            Position::new(3, 4),
            Position::new(4, 4),
            Position::new(3, 5),
            Position::new(4, 5),
        ]
    );
}

#[test]
fn position_holds_its_coordinates() {
    let p = Position::new(-3, 7);
    assert_eq!(p.x, -3);
    assert_eq!(p.y, 7);
    assert_eq!(p, Position::new(-3, 7));
}

#[test]
fn cloned_pattern_keeps_its_shape() {
    let carpet = create_carpet();
    let copy = carpet.clone();
    assert_eq!(copy.name, "Carpet");
    assert_eq!(copy.size, (11, 11));
    assert_eq!(copy.cells, carpet.cells);
    assert_eq!(copy.image_path, carpet.image_path);
}
