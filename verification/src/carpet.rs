//! The Carpet pattern.

use vstd::prelude::*;

use crate::patterns::{Pattern, Position};

verus! {

/// The alive-cell positions of the Carpet pattern, relative to its
/// top-left corner.
pub open spec fn carpet_cells() -> Seq<Position> {
    seq![
        Position { x: 1, y: 1 },
        Position { x: 2, y: 2 },
        Position { x: 3, y: 3 },
        Position { x: 9, y: 1 },
        Position { x: 8, y: 2 },
        Position { x: 7, y: 3 },
        Position { x: 4, y: 4 },
        Position { x: 5, y: 4 },
        Position { x: 6, y: 4 },
        Position { x: 4, y: 5 },
        Position { x: 5, y: 5 },
        Position { x: 6, y: 5 },
        Position { x: 4, y: 6 },
        Position { x: 5, y: 6 },
        Position { x: 6, y: 6 },
        Position { x: 3, y: 7 },
        Position { x: 2, y: 8 },
        Position { x: 1, y: 9 },
        Position { x: 7, y: 7 },
        Position { x: 8, y: 8 },
        Position { x: 9, y: 9 },
    ]
}

/// Builds the Carpet pattern: a symmetric, carpet-like arrangement of alive cells.
pub fn create_carpet() -> (r: Pattern)
    ensures
        r.name@ == "Carpet"@,
        r.size == ((11u32, 11u32)),
        r.center_offset == ((5i32, 5i32)),
        r.cells@ == carpet_cells(),
        r.image_path matches Some(p) && p@ == "assets/carpet.png"@,
{
    let mut cells: Vec<Position> = Vec::new();
    cells.push(Position::new(1, 1));
    cells.push(Position::new(2, 2));
    cells.push(Position::new(3, 3));
    cells.push(Position::new(9, 1));
    cells.push(Position::new(8, 2));
    cells.push(Position::new(7, 3));
    cells.push(Position::new(4, 4));
    cells.push(Position::new(5, 4));
    cells.push(Position::new(6, 4));
    cells.push(Position::new(4, 5));
    cells.push(Position::new(5, 5));
    cells.push(Position::new(6, 5));
    cells.push(Position::new(4, 6));
    cells.push(Position::new(5, 6));
    cells.push(Position::new(6, 6));
    cells.push(Position::new(3, 7));
    cells.push(Position::new(2, 8));
    cells.push(Position::new(1, 9));
    cells.push(Position::new(7, 7));
    cells.push(Position::new(8, 8));
    cells.push(Position::new(9, 9));
    proof {
        assert(cells@ =~= carpet_cells());
    }
    Pattern::new(
        "Carpet".to_owned(),
        "A symmetric, carpet-like arrangement".to_owned(),
        (11, 11),
        (5, 5),
        cells,
        Some("assets/carpet.png".to_owned()),
    )
}

} // verus!
