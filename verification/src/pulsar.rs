//! The Pulsar pattern.

use vstd::prelude::*;

use crate::patterns::{Pattern, Position};

verus! {

/// The alive-cell positions of the Pulsar pattern, relative to its
/// top-left corner.
pub open spec fn pulsar_cells() -> Seq<Position> {
    seq![
        Position { x: 2, y: 0 },
        Position { x: 3, y: 0 },
        Position { x: 4, y: 0 },
        Position { x: 0, y: 2 },
        Position { x: 0, y: 3 },
        Position { x: 0, y: 4 },
        Position { x: 2, y: 5 },
        Position { x: 3, y: 5 },
        Position { x: 4, y: 5 },
        Position { x: 8, y: 0 },
        Position { x: 9, y: 0 },
        Position { x: 10, y: 0 },
        Position { x: 12, y: 2 },
        Position { x: 12, y: 3 },
        Position { x: 12, y: 4 },
        Position { x: 8, y: 5 },
        Position { x: 9, y: 5 },
        Position { x: 10, y: 5 },
        Position { x: 5, y: 2 },
        Position { x: 7, y: 2 },
        Position { x: 5, y: 3 },
        Position { x: 7, y: 3 },
        Position { x: 5, y: 4 },
        Position { x: 7, y: 4 },
        Position { x: 5, y: 8 },
        Position { x: 7, y: 8 },
        Position { x: 5, y: 9 },
        Position { x: 7, y: 9 },
        Position { x: 5, y: 10 },
        Position { x: 7, y: 10 },
        Position { x: 2, y: 7 },
        Position { x: 3, y: 7 },
        Position { x: 4, y: 7 },
        Position { x: 0, y: 8 },
        Position { x: 0, y: 9 },
        Position { x: 0, y: 10 },
        Position { x: 2, y: 12 },
        Position { x: 3, y: 12 },
        Position { x: 4, y: 12 },
        Position { x: 8, y: 7 },
        Position { x: 9, y: 7 },
        Position { x: 10, y: 7 },
        Position { x: 12, y: 8 },
        Position { x: 12, y: 9 },
        Position { x: 12, y: 10 },
        Position { x: 8, y: 12 },
        Position { x: 9, y: 12 },
        Position { x: 10, y: 12 },
    ]
}

/// Builds the Pulsar pattern: a period-3 oscillator.
pub fn create_pulsar() -> (r: Pattern)
    ensures
        r.name@ == "Pulsar"@,
        r.size == ((13u32, 13u32)),
        r.center_offset == ((6i32, 6i32)),
        r.cells@ == pulsar_cells(),
        r.image_path is None,
{
    let mut cells: Vec<Position> = Vec::new();
    cells.push(Position::new(2, 0));
    cells.push(Position::new(3, 0));
    cells.push(Position::new(4, 0));
    cells.push(Position::new(0, 2));
    cells.push(Position::new(0, 3));
    cells.push(Position::new(0, 4));
    cells.push(Position::new(2, 5));
    cells.push(Position::new(3, 5));
    cells.push(Position::new(4, 5));
    cells.push(Position::new(8, 0));
    cells.push(Position::new(9, 0));
    cells.push(Position::new(10, 0));
    cells.push(Position::new(12, 2));
    cells.push(Position::new(12, 3));
    cells.push(Position::new(12, 4));
    cells.push(Position::new(8, 5));
    cells.push(Position::new(9, 5));
    cells.push(Position::new(10, 5));
    cells.push(Position::new(5, 2));
    cells.push(Position::new(7, 2));
    cells.push(Position::new(5, 3));
    cells.push(Position::new(7, 3));
    cells.push(Position::new(5, 4));
    cells.push(Position::new(7, 4));
    cells.push(Position::new(5, 8));
    cells.push(Position::new(7, 8));
    cells.push(Position::new(5, 9));
    cells.push(Position::new(7, 9));
    cells.push(Position::new(5, 10));
    cells.push(Position::new(7, 10));
    cells.push(Position::new(2, 7));
    cells.push(Position::new(3, 7));
    cells.push(Position::new(4, 7));
    cells.push(Position::new(0, 8));
    cells.push(Position::new(0, 9));
    cells.push(Position::new(0, 10));
    cells.push(Position::new(2, 12));
    cells.push(Position::new(3, 12));
    cells.push(Position::new(4, 12));
    cells.push(Position::new(8, 7));
    cells.push(Position::new(9, 7));
    cells.push(Position::new(10, 7));
    cells.push(Position::new(12, 8));
    cells.push(Position::new(12, 9));
    cells.push(Position::new(12, 10));
    cells.push(Position::new(8, 12));
    cells.push(Position::new(9, 12));
    cells.push(Position::new(10, 12));
    proof {
        assert(cells@ =~= pulsar_cells());
    }
    Pattern::new(
        "Pulsar".to_owned(),
        "A period-3 oscillator, one of the most common oscillating structures".to_owned(),
        (13, 13),
        (6, 6),
        cells,
        None,
    )
}

} // verus!
