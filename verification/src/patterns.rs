//! Predefined patterns: named shapes given as lists of cell positions, with
//! helpers to place them around a chosen center cell.

use vstd::prelude::*;

verus! {

/// A cell position, possibly negative when a pattern hangs over the grid's
/// edge.
#[derive(Debug, Clone, Copy, PartialEq, Eq, Hash, Structural)]
pub struct Position {
    pub x: i32,
    pub y: i32,
}

impl Position {
    pub fn new(x: i32, y: i32) -> (r: Self)
        ensures
            r.x == x,
            r.y == y,
    {
        Position { x, y }
    }
}

/// Whether a value fits a 32-bit signed machine word.
pub open spec fn fits_i32(v: int) -> bool {
    i32::MIN <= v <= i32::MAX
}

/// A named shape: its size, the offset from its top-left corner to its
/// center, and the positions of its alive cells relative to the top-left
/// corner.
#[derive(Debug)]
pub struct Pattern {
    pub name: String,
    pub description: String,
    pub size: (u32, u32),
    pub center_offset: (i32, i32),
    pub cells: Vec<Position>,
    pub image_path: Option<String>,
}

impl Pattern {
    pub fn new(
        name: String,
        description: String,
        size: (u32, u32),
        center_offset: (i32, i32),
        cells: Vec<Position>,
        image_path: Option<String>,
    ) -> (r: Self)
        ensures
            r.name == name,
            r.description == description,
            r.size == size,
            r.center_offset == center_offset,
            r.cells == cells,
            r.image_path == image_path,
    {
        Pattern { name, description, size, center_offset, cells, image_path }
    }

    /// The pattern's cell positions translated so that its center lands on
    /// `center`.
    pub fn get_cells_at_center(&self, center: Position) -> (r: Vec<Position>)
        requires
            fits_i32(center.x - self.center_offset.0),
            fits_i32(center.y - self.center_offset.1),
            forall|k: int|
                #![trigger self.cells@[k]]
                0 <= k < self.cells@.len() ==> fits_i32(
                    self.cells@[k].x + center.x - self.center_offset.0,
                ) && fits_i32(self.cells@[k].y + center.y - self.center_offset.1),
        ensures
            r@.len() == self.cells@.len(),
            forall|k: int|
                #![trigger r@[k]]
                0 <= k < r@.len() ==> r@[k].x == self.cells@[k].x + center.x
                    - self.center_offset.0 && r@[k].y == self.cells@[k].y + center.y
                    - self.center_offset.1,
    {
        let offset_x = center.x - self.center_offset.0;
        let offset_y = center.y - self.center_offset.1;
        let n = self.cells.len();
        let mut r: Vec<Position> = Vec::new();
        let mut k: usize = 0;
        while k < n
            invariant
                n == self.cells@.len(),
                k <= n,
                offset_x == center.x - self.center_offset.0,
                offset_y == center.y - self.center_offset.1,
                forall|m: int|
                    #![trigger self.cells@[m]]
                    0 <= m < self.cells@.len() ==> fits_i32(
                        self.cells@[m].x + center.x - self.center_offset.0,
                    ) && fits_i32(self.cells@[m].y + center.y - self.center_offset.1),
                r@.len() == k,
                forall|m: int|
                    #![trigger r@[m]]
                    0 <= m < k ==> r@[m].x == self.cells@[m].x + center.x
                        - self.center_offset.0 && r@[m].y == self.cells@[m].y + center.y
                        - self.center_offset.1,
            decreases n - k,
        {
            let c = self.cells[k];
            r.push(Position::new(c.x + offset_x, c.y + offset_y));
            k += 1;
        }
        r
    }

    /// The rectangular area (one position per covered cell, row by row) that
    /// is cleared before the pattern is placed around `center`.
    pub fn get_clear_area(&self, center: Position) -> (r: Vec<Position>)
        requires
            fits_i32(center.x - self.center_offset.0),
            fits_i32(center.y - self.center_offset.1),
            self.size.0 <= i32::MAX,
            self.size.1 <= i32::MAX,
            self.size.0 > 0 ==> fits_i32(
                center.x - self.center_offset.0 + self.size.0 - 1,
            ),
            self.size.1 > 0 ==> fits_i32(
                center.y - self.center_offset.1 + self.size.1 - 1,
            ),
            self.size.0 * self.size.1 <= usize::MAX,
        ensures
            r@.len() == self.size.0 * self.size.1,
            forall|k: int|
                #![trigger r@[k]]
                0 <= k < r@.len() ==> r@[k].x == center.x - self.center_offset.0 + (k
                    % (self.size.0 as int)) && r@[k].y == center.y - self.center_offset.1 + (k / (
                self.size.0 as int)),
    {
        let offset_x = center.x - self.center_offset.0;
        let offset_y = center.y - self.center_offset.1;
        let s0 = self.size.0;
        let s1 = self.size.1;
        let mut r: Vec<Position> = Vec::new();
        let mut yy: u32 = 0;
        while yy < s1
            invariant
                s0 == self.size.0,
                s1 == self.size.1,
                s0 <= i32::MAX,
                s1 <= i32::MAX,
                offset_x == center.x - self.center_offset.0,
                offset_y == center.y - self.center_offset.1,
                s0 > 0 ==> fits_i32(offset_x + s0 - 1),
                s1 > 0 ==> fits_i32(offset_y + s1 - 1),
                s0 * s1 <= usize::MAX,
                yy <= s1,
                r@.len() == yy * s0,
                forall|k: int|
                    #![trigger r@[k]]
                    0 <= k < r@.len() ==> r@[k].x == offset_x + (k % (s0 as int))
                        && r@[k].y == offset_y + (k / (s0 as int)),
            decreases s1 - yy,
        {
            let mut xx: u32 = 0;
            while xx < s0
                invariant
                    s0 == self.size.0,
                    s1 == self.size.1,
                    s0 <= i32::MAX,
                    s1 <= i32::MAX,
                    offset_x == center.x - self.center_offset.0,
                    offset_y == center.y - self.center_offset.1,
                    s0 > 0 ==> fits_i32(offset_x + s0 - 1),
                    s1 > 0 ==> fits_i32(offset_y + s1 - 1),
                    s0 * s1 <= usize::MAX,
                    yy < s1,
                    xx <= s0,
                    r@.len() == yy * s0 + xx,
                    forall|k: int|
                        #![trigger r@[k]]
                        0 <= k < r@.len() ==> r@[k].x == offset_x + (k % (s0 as int))
                            && r@[k].y == offset_y + (k / (s0 as int)),
                decreases s0 - xx,
            {
                proof {
                    crate::board::lemma_row_major_bound(s0 as int, s1 as int, xx as int, yy as int);
                    crate::board::lemma_row_major_coords(
                        s0 as int,
                        s1 as int,
                        yy as int * s0 as int + xx as int,
                    );
                    crate::board::lemma_row_major_unique(
                        s0 as int,
                        (yy as int * s0 as int + xx as int) % (s0 as int),
                        (yy as int * s0 as int + xx as int) / (s0 as int),
                        xx as int,
                        yy as int,
                    );
                }
                r.push(Position::new(offset_x + xx as i32, offset_y + yy as i32));
                xx += 1;
            }
            proof {
                assert((yy + 1) * (s0 as int) == yy * (s0 as int) + s0) by (nonlinear_arith);
            }
            yy += 1;
        }
        proof {
            assert(r@.len() == s1 as int * s0 as int);
        }
        r
    }
}

impl Clone for Pattern {
    /// A copy showing the same name, shape and image path.
    fn clone(&self) -> (r: Self)
        ensures
            r.name == self.name,
            r.description == self.description,
            r.size == self.size,
            r.center_offset == self.center_offset,
            r.cells@ == self.cells@,
            r.image_path is Some <==> self.image_path is Some,
            r.image_path matches Some(p) ==> (self.image_path matches Some(q) && p == q),
    {
        let n = self.cells.len();
        let mut cells: Vec<Position> = Vec::new();
        let mut i: usize = 0;
        while i < n
            invariant
                n == self.cells@.len(),
                i <= n,
                cells@ =~= self.cells@.take(i as int),
            decreases n - i,
        {
            cells.push(self.cells[i]);
            i += 1;
        }
        proof {
            assert(cells@ =~= self.cells@);
        }
        let image_path = match &self.image_path {
            Some(p) => Some(p.clone()),
            None => None,
        };
        Pattern {
            name: self.name.clone(),
            description: self.description.clone(),
            size: self.size,
            center_offset: self.center_offset,
            cells,
            image_path,
        }
    }
}

/// The library of predefined patterns, keyed by name; names are unique.
pub struct PatternManager {
    patterns: Vec<Pattern>,
}

impl PatternManager {
    /// The stored patterns, in insertion order.
    pub closed spec fn spec_patterns(&self) -> Seq<Pattern> {
        self.patterns@
    }

    /// Pattern names are pairwise distinct.
    pub open spec fn wf(&self) -> bool {
        forall|i: int, j: int|
            0 <= i < j < self.spec_patterns().len() ==> #[trigger] self.spec_patterns()[i].name@
                != #[trigger] self.spec_patterns()[j].name@
    }

    /// A manager loaded with the default patterns: Carpet, Pulsar and the
    /// Glider Gun.
    pub fn new() -> (r: PatternManager)
        ensures
            r.wf(),
            r.spec_patterns().len() == 3,
            r.spec_patterns()[0].name@ == "Carpet"@,
            r.spec_patterns()[1].name@ == "Pulsar"@,
            r.spec_patterns()[2].name@ == "Glider Gun"@,
    {
        let mut patterns: Vec<Pattern> = Vec::new();
        patterns.push(crate::carpet::create_carpet());
        patterns.push(crate::pulsar::create_pulsar());
        patterns.push(crate::glider_gun::create_glider_gun());
        let r = PatternManager { patterns };
        proof {
            reveal_strlit("Carpet");
            reveal_strlit("Pulsar");
            reveal_strlit("Glider Gun");
            assert("Carpet"@ != "Pulsar"@) by {
                assert("Carpet"@[0] == 'C' && "Pulsar"@[0] == 'P');
            }
            assert("Carpet"@ != "Glider Gun"@) by {
                assert("Carpet"@[0] == 'C' && "Glider Gun"@[0] == 'G');
            }
            assert("Pulsar"@ != "Glider Gun"@) by {
                assert("Pulsar"@[0] == 'P' && "Glider Gun"@[0] == 'G');
            }
        }
        r
    }

    /// The pattern of the given name, if one is stored.
    pub fn get_pattern(&self, name: &str) -> (r: Option<&Pattern>)
        ensures
            r is Some <==> exists|i: int|
                0 <= i < self.spec_patterns().len() && #[trigger] self.spec_patterns()[i].name@
                    == name@,
            r matches Some(p) ==> p.name@ == name@ && exists|i: int|
                0 <= i < self.spec_patterns().len() && #[trigger] self.spec_patterns()[i] == *p,
    {
        let key: String = name.to_owned();
        let n = self.patterns.len();
        let mut i: usize = 0;
        while i < n
            invariant
                n == self.spec_patterns().len(),
                i <= n,
                key@ == name@,
                forall|m: int| 0 <= m < i ==> #[trigger] self.spec_patterns()[m].name@ != name@,
            decreases n - i,
        {
            if self.patterns[i].name == key {
                return Some(&self.patterns[i]);
            }
            i += 1;
        }
        None
    }

    /// Every stored pattern, in insertion order.
    pub fn get_all_patterns(&self) -> (r: Vec<&Pattern>)
        ensures
            r@.len() == self.spec_patterns().len(),
            forall|i: int| 0 <= i < r@.len() ==> *(#[trigger] r@[i]) == self.spec_patterns()[i],
    {
        let n = self.patterns.len();
        let mut r: Vec<&Pattern> = Vec::new();
        let mut i: usize = 0;
        while i < n
            invariant
                n == self.spec_patterns().len(),
                i <= n,
                r@.len() == i,
                forall|m: int| 0 <= m < i ==> *(#[trigger] r@[m]) == self.spec_patterns()[m],
            decreases n - i,
        {
            r.push(&self.patterns[i]);
            i += 1;
        }
        r
    }

    /// Stores a pattern: replaces the stored pattern of the same name, or
    /// appends when the name is new.
    pub fn add_pattern(&mut self, pattern: Pattern)
        requires
            old(self).wf(),
        ensures
            final(self).wf(),
            (exists|i: int|
                0 <= i < old(self).spec_patterns().len()
                    && #[trigger] old(self).spec_patterns()[i].name@ == pattern.name@) ==> {
                &&& final(self).spec_patterns().len() == old(self).spec_patterns().len()
                &&& forall|j: int|
                    0 <= j < final(self).spec_patterns().len()
                        ==> #[trigger] final(self).spec_patterns()[j] == (if old(
                        self
                    ).spec_patterns()[j].name@ == pattern.name@ {
                        pattern
                    } else {
                        old(self).spec_patterns()[j]
                    })
            },
            !(exists|i: int|
                0 <= i < old(self).spec_patterns().len()
                    && #[trigger] old(self).spec_patterns()[i].name@ == pattern.name@) ==> final(
                self
            ).spec_patterns() == old(self).spec_patterns().push(pattern),
    {
        let n = self.patterns.len();
        let mut i: usize = 0;
        while i < n
            invariant
                old(self).wf(),
                self == old(self),
                n == self.spec_patterns().len(),
                i <= n,
                forall|m: int|
                    0 <= m < i ==> #[trigger] self.spec_patterns()[m].name@ != pattern.name@,
            decreases n - i,
        {
            if self.patterns[i].name == pattern.name {
                proof {
                    assert(old(self).spec_patterns()[i as int].name@ == pattern.name@);
                }
                self.patterns[i] = pattern;
                proof {
                    let gi = i as int;
                    assert forall|j: int| 0 <= j < self.spec_patterns().len() implies #[trigger] self.spec_patterns()[j]
                        == (if old(self).spec_patterns()[j].name@ == pattern.name@ {
                        pattern
                    } else {
                        old(self).spec_patterns()[j]
                    }) by {
                        if j != gi {
                            assert(old(self).spec_patterns()[j] == self.spec_patterns()[j]);
                            if old(self).spec_patterns()[j].name@ == pattern.name@ {
                                if gi < j {
                                    assert(old(self).spec_patterns()[gi].name@ != old(
                                        self,
                                    ).spec_patterns()[j].name@);
                                } else {
                                    assert(old(self).spec_patterns()[j].name@ != old(
                                        self,
                                    ).spec_patterns()[gi].name@);
                                }
                            }
                        }
                    }
                    assert forall|a: int, b: int|
                        0 <= a < b < self.spec_patterns().len() implies #[trigger] self.spec_patterns()[a].name@
                        != #[trigger] self.spec_patterns()[b].name@ by {
                        assert(self.spec_patterns()[a].name@ == old(self).spec_patterns()[a].name@);
                        assert(self.spec_patterns()[b].name@ == old(self).spec_patterns()[b].name@);
                        assert(old(self).spec_patterns()[a].name@ != old(
                            self,
                        ).spec_patterns()[b].name@);
                    }
                }
                return ;
            }
            i += 1;
        }
        self.patterns.push(pattern);
        proof {
            assert forall|a: int, b: int|
                0 <= a < b < self.spec_patterns().len() implies #[trigger] self.spec_patterns()[a].name@
                != #[trigger] self.spec_patterns()[b].name@ by {
                if b < self.spec_patterns().len() - 1 {
                    assert(old(self).spec_patterns()[a].name@ != old(self).spec_patterns()[b].name@);
                } else {
                    assert(self.spec_patterns()[b] == pattern);
                    assert(old(self).spec_patterns()[a].name@ != pattern.name@);
                }
            }
        }
    }
}

impl Default for PatternManager {
    fn default() -> (r: Self)
        ensures
            r.wf(),
            r.spec_patterns().len() == 3,
    {
        PatternManager::new()
    }
}

} // verus!
