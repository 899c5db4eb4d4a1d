//! The Glider Gun pattern.

use vstd::prelude::*;

use crate::patterns::{Pattern, Position};

verus! {

/// The alive-cell positions of the Glider Gun pattern, relative to its
/// top-left corner.
pub open spec fn glider_gun_cells() -> Seq<Position> {
    seq![
        Position { x: 0, y: 4 },
        Position { x: 1, y: 4 },
        Position { x: 0, y: 5 },
        Position { x: 1, y: 5 },
        Position { x: 10, y: 4 },
        Position { x: 10, y: 5 },
        Position { x: 10, y: 6 },
        Position { x: 11, y: 3 },
        Position { x: 11, y: 7 },
        Position { x: 12, y: 2 },
        Position { x: 12, y: 8 },
        Position { x: 13, y: 2 },
        Position { x: 13, y: 8 },
        Position { x: 14, y: 5 },
        Position { x: 15, y: 3 },
        Position { x: 15, y: 7 },
        Position { x: 16, y: 4 },
        Position { x: 16, y: 5 },
        Position { x: 16, y: 6 },
        Position { x: 17, y: 5 },
        Position { x: 20, y: 2 },
        Position { x: 20, y: 3 },
        Position { x: 20, y: 4 },
        Position { x: 21, y: 2 },
        Position { x: 21, y: 3 },
        Position { x: 21, y: 4 },
        Position { x: 22, y: 1 },
        Position { x: 22, y: 5 },
        Position { x: 24, y: 0 },
        Position { x: 24, y: 1 },
        Position { x: 24, y: 5 },
        Position { x: 24, y: 6 },
        Position { x: 34, y: 2 },
        Position { x: 35, y: 2 },
        Position { x: 34, y: 3 },
        Position { x: 35, y: 3 },
    ]
}

/// Builds the Glider Gun pattern: a structure that emits gliders forever.
pub fn create_glider_gun() -> (r: Pattern)
    ensures
        r.name@ == "Glider Gun"@,
        r.size == ((36u32, 9u32)),
        r.center_offset == ((18i32, 4i32)),
        r.cells@ == glider_gun_cells(),
        r.image_path is None,
{
    let mut cells: Vec<Position> = Vec::new();
    cells.push(Position::new(0, 4));
    cells.push(Position::new(1, 4));
    cells.push(Position::new(0, 5));
    cells.push(Position::new(1, 5));
    cells.push(Position::new(10, 4));
    cells.push(Position::new(10, 5));
    cells.push(Position::new(10, 6));
    cells.push(Position::new(11, 3));
    cells.push(Position::new(11, 7));
    cells.push(Position::new(12, 2));
    cells.push(Position::new(12, 8));
    cells.push(Position::new(13, 2));
    cells.push(Position::new(13, 8));
    cells.push(Position::new(14, 5));
    cells.push(Position::new(15, 3));
    cells.push(Position::new(15, 7));
    cells.push(Position::new(16, 4));
    cells.push(Position::new(16, 5));
    cells.push(Position::new(16, 6));
    cells.push(Position::new(17, 5));
    cells.push(Position::new(20, 2));
    cells.push(Position::new(20, 3));
    cells.push(Position::new(20, 4));
    cells.push(Position::new(21, 2));
    cells.push(Position::new(21, 3));
    cells.push(Position::new(21, 4));
    cells.push(Position::new(22, 1));
    cells.push(Position::new(22, 5));
    cells.push(Position::new(24, 0));
    cells.push(Position::new(24, 1));
    cells.push(Position::new(24, 5));
    cells.push(Position::new(24, 6));
    cells.push(Position::new(34, 2));
    cells.push(Position::new(35, 2));
    cells.push(Position::new(34, 3));
    cells.push(Position::new(35, 3));
    proof {
        assert(cells@ =~= glider_gun_cells());
    }
    Pattern::new(
        "Glider Gun".to_owned(),
        "Gosper's glider gun, the first discovered structure that emits gliders forever".to_owned(),
        (36, 9),
        (18, 4),
        cells,
        None,
    )
}

} // verus!
