//! Growing, shrinking and re-centering grids.
//!
//! Every operation here is a pure transformation: it reads one grid and
//! produces a new one, signalling "nothing to do" with `None` rather than
//! with an error.

use vstd::prelude::*;

use crate::board::{Board, CellState};
use crate::rules::{BoardSizeMode, SizeConfig};

verus! {

broadcast use crate::board::Board::lemma_dims_bounds;

/// How a target grid relates to a source grid after copying the source
/// rectangle `[sx, ex) x [sy, ey)` to offset `(ox, oy)` of an otherwise dead
/// target: every target cell inside the copied window shows the source cell
/// it came from, every other target cell is dead.
pub open spec fn region_copied(
    src: Board,
    dst: Board,
    sx: int,
    sy: int,
    ex: int,
    ey: int,
    ox: int,
    oy: int,
) -> bool {
    forall|nx: int, ny: int|
        dst.in_bounds(nx, ny) ==> dst.spec_cell(nx, ny) == (if ox <= nx < ox + (ex - sx) && oy <= ny
            < oy + (ey - sy) {
            src.spec_cell(nx - ox + sx, ny - oy + sy)
        } else {
            CellState::Dead
        })
}

/// Whether some alive cell of the grid lies within `margin` cells of one of
/// the four edges.
pub open spec fn has_alive_near_edge(b: Board, margin: int) -> bool {
    exists|x: int, y: int|
        b.alive_at(x, y) && (x < margin || x + margin >= b.spec_width() || y < margin || y + margin
            >= b.spec_height())
}

impl Board {
    /// Copies the source rectangle `[sx, ex) x [sy, ey)` of `self` into a
    /// fresh all-dead `tw x th` grid at offset `(ox, oy)`.
    fn copy_region(
        &self,
        tw: usize,
        th: usize,
        sx: usize,
        sy: usize,
        ex: usize,
        ey: usize,
        ox: usize,
        oy: usize,
    ) -> (r: Board)
        requires
            self.wf(),
            sx <= ex <= self.spec_width(),
            sy <= ey <= self.spec_height(),
            tw * th <= usize::MAX,
            ox + (ex - sx) <= tw,
            oy + (ey - sy) <= th,
        ensures
            r.wf(),
            r.spec_width() == tw,
            r.spec_height() == th,
            region_copied(*self, r, sx as int, sy as int, ex as int, ey as int, ox as int, oy as int),
    {
        let mut r = Board::new(tw, th);
        let mut j: usize = sy;
        while j < ey
            invariant
                self.wf(),
                sx <= ex <= self.spec_width(),
                sy <= j <= ey <= self.spec_height(),
                ox + (ex - sx) <= tw,
                oy + (ey - sy) <= th,
                r.wf(),
                r.spec_width() == tw,
                r.spec_height() == th,
                forall|nx: int, ny: int|
                    r.in_bounds(nx, ny) ==> r.spec_cell(nx, ny) == (if ox <= nx < ox + (ex - sx)
                        && oy <= ny < oy + (j - sy) {
                        self.spec_cell(nx - ox + sx, ny - oy + sy)
                    } else {
                        CellState::Dead
                    }),
            decreases ey - j,
        {
            let mut i: usize = sx;
            while i < ex
                invariant
                    self.wf(),
                    sx <= i <= ex <= self.spec_width(),
                    sy <= j < ey <= self.spec_height(),
                    ox + (ex - sx) <= tw,
                    oy + (ey - sy) <= th,
                    r.wf(),
                    r.spec_width() == tw,
                    r.spec_height() == th,
                    forall|nx: int, ny: int|
                        r.in_bounds(nx, ny) ==> r.spec_cell(nx, ny) == (if ox <= nx < ox + (ex
                            - sx) && oy <= ny < oy + (j - sy) {
                            self.spec_cell(nx - ox + sx, ny - oy + sy)
                        } else if oy + (j - sy) == ny && ox <= nx < ox + (i - sx) {
                            self.spec_cell(nx - ox + sx, ny - oy + sy)
                        } else {
                            CellState::Dead
                        }),
                decreases ex - i,
            {
                let state = match self.get_cell(i, j) {
                    Some(s) => s,
                    None => CellState::Dead,
                };
                r.set_cell(i - sx + ox, j - sy + oy, state);
                i += 1;
            }
            j += 1;
        }
        r
    }

    /// Returns a new grid two cells wider and two cells taller, with the
    /// original content centered (shifted by one on each axis).
    pub fn expand(&self) -> (r: Board)
        requires
            self.wf(),
            (self.spec_width() + 2) * (self.spec_height() + 2) <= usize::MAX,
        ensures
            r.wf(),
            r.spec_width() == self.spec_width() + 2,
            r.spec_height() == self.spec_height() + 2,
            forall|nx: int, ny: int|
                r.in_bounds(nx, ny) ==> r.spec_cell(nx, ny) == (if 1 <= nx <= self.spec_width()
                    && 1 <= ny <= self.spec_height() {
                    self.spec_cell(nx - 1, ny - 1)
                } else {
                    CellState::Dead
                }),
    {
        let w = self.width();
        let h = self.height();
        proof {
            assert(w + 2 <= (w + 2) * (h + 2) && h + 2 <= (w + 2) * (h + 2)) by (nonlinear_arith)
                requires
                    0 <= w,
                    0 <= h,
            ;
        }
        self.copy_region(w + 2, h + 2, 0, 0, w, h, 1, 1)
    }

    /// Returns a new grid grown by `layers` rings of dead cells on every
    /// side, with the original content centered; `layers == 0` means there is
    /// nothing to do and yields `None`.
    pub fn expand_by_layers(&self, layers: usize) -> (r: Option<Board>)
        requires
            self.wf(),
            (self.spec_width() + 2 * layers) * (self.spec_height() + 2 * layers) <= usize::MAX,
        ensures
            r is None <==> layers == 0,
            r matches Some(b) ==> {
                &&& b.wf()
                &&& b.spec_width() == self.spec_width() + 2 * layers
                &&& b.spec_height() == self.spec_height() + 2 * layers
                &&& forall|nx: int, ny: int|
                    b.in_bounds(nx, ny) ==> b.spec_cell(nx, ny) == (if layers <= nx < layers
                        + self.spec_width() && layers <= ny < layers + self.spec_height() {
                        self.spec_cell(nx - layers, ny - layers)
                    } else {
                        CellState::Dead
                    })
                &&& forall|x: int, y: int|
                    self.alive_at(x, y) ==> b.alive_at(x + layers, y + layers)
            },
    {
        if layers == 0 {
            return None;
        }
        let w = self.width();
        let h = self.height();
        proof {
            let l = layers as int;
            assert(w + 2 * l <= (w + 2 * l) * (h + 2 * l) && h + 2 * l <= (w + 2 * l) * (h + 2
                * l)) by (nonlinear_arith)
                requires
                    0 <= w,
                    0 <= h,
                    1 <= l,
            ;
        }
        let b = self.copy_region(w + 2 * layers, h + 2 * layers, 0, 0, w, h, layers, layers);
        proof {
            assert forall|x: int, y: int| self.alive_at(x, y) implies b.alive_at(
                x + layers,
                y + layers,
            ) by {
                assert(b.spec_cell(x + layers, y + layers) == self.spec_cell(x, y));
            }
        }
        Some(b)
    }

    /// Re-centers the grid into a strictly larger `target_width x
    /// target_height` grid; yields `None` when neither dimension grows.
    /// Content that does not fit a non-growing axis is cut off at the far
    /// edge.
    fn expand_with_limits(&self, target_width: usize, target_height: usize) -> (r: Option<Board>)
        requires
            self.wf(),
            target_width * target_height <= usize::MAX,
        ensures
            r is None <==> (target_width <= self.spec_width() && target_height
                <= self.spec_height()),
            r matches Some(b) ==> {
                let ox = if target_width > self.spec_width() {
                    (target_width - self.spec_width()) / 2
                } else {
                    0
                };
                let oy = if target_height > self.spec_height() {
                    (target_height - self.spec_height()) / 2
                } else {
                    0
                };
                let ex = if self.spec_width() <= target_width - ox {
                    self.spec_width()
                } else {
                    target_width - ox
                };
                let ey = if self.spec_height() <= target_height - oy {
                    self.spec_height()
                } else {
                    target_height - oy
                };
                &&& b.wf()
                &&& b.spec_width() == target_width
                &&& b.spec_height() == target_height
                &&& region_copied(*self, b, 0, 0, ex, ey, ox, oy)
            },
    {
        let w = self.width();
        let h = self.height();
        if target_width <= w && target_height <= h {
            return None;
        }
        let ox: usize = if target_width > w {
            (target_width - w) / 2
        } else {
            0
        };
        let oy: usize = if target_height > h {
            (target_height - h) / 2
        } else {
            0
        };
        let ex: usize = if w <= target_width - ox {
            w
        } else {
            target_width - ox
        };
        let ey: usize = if h <= target_height - oy {
            h
        } else {
            target_height - oy
        };
        Some(self.copy_region(target_width, target_height, 0, 0, ex, ey, ox, oy))
    }

    /// Expands the grid when an alive cell sits within the configured margin
    /// of an edge. Acts only in dynamic mode; the target size is computed
    /// per axis as the current size plus two cells per configured layer,
    /// clamped to the maximum board size, so the grid never grows past that
    /// maximum. `None` means nothing may or need be done: the wrong mode, no
    /// cell near an edge, or neither clamped target above its current size.
    pub fn auto_expand_if_needed(&self, config: &SizeConfig) -> (r: Option<Board>)
        requires
            self.wf(),
            config.wf(),
        ensures
            config.spec_mode() != BoardSizeMode::Dynamic ==> r is None,
            self.spec_width() >= config.spec_max_board_size() && self.spec_height()
                >= config.spec_max_board_size() ==> r is None,
            !has_alive_near_edge(*self, config.spec_expansion_margin()) ==> r is None,
            auto_expand_post(*self, *config, r),
    {
        if !config.can_expand_in_current_mode() {
            return None;
        }
        if !self.has_alive_cell_near_edge(config.expansion_margin()) {
            return None;
        }
        let w = self.width();
        let h = self.height();
        let layers = config.expansion_layers();
        let target_width = config.get_max_dimension(w, layers);
        let target_height = config.get_max_dimension(h, layers);
        proof {
            assert(target_width * target_height <= 201 * 201) by (nonlinear_arith)
                requires
                    0 <= target_width <= 201,
                    0 <= target_height <= 201,
            ;
        }
        self.expand_with_limits(target_width, target_height)
    }

    /// Whether some alive cell lies within `margin` cells of one of the four
    /// edges.
    fn has_alive_cell_near_edge(&self, margin: usize) -> (r: bool)
        requires
            self.wf(),
        ensures
            r == has_alive_near_edge(*self, margin as int),
    {
        let w = self.width();
        let h = self.height();
        let mut y: usize = 0;
        while y < h
            invariant
                self.wf(),
                w == self.spec_width(),
                h == self.spec_height(),
                y <= h,
                forall|i: int, j: int|
                    self.alive_at(i, j) && j < y ==> !(i < margin || i + margin >= w || j < margin
                        || j + margin >= h),
            decreases h - y,
        {
            let mut x: usize = 0;
            while x < w
                invariant
                    self.wf(),
                    w == self.spec_width(),
                    h == self.spec_height(),
                    y < h,
                    x <= w,
                    forall|i: int, j: int|
                        self.alive_at(i, j) && (j < y || (j == y && i < x)) ==> !(i < margin || i
                            + margin >= w || j < margin || j + margin >= h),
                decreases w - x,
            {
                if self.is_alive(x, y) {
                    let near = x < margin || (x as u128 + margin as u128 >= w as u128) || y
                        < margin || (y as u128 + margin as u128 >= h as u128);
                    if near {
                        proof {
                            assert(self.alive_at(x as int, y as int));
                        }
                        return true;
                    }
                }
                x += 1;
            }
            y += 1;
        }
        false
    }

    /// Resizes the grid to `new_width x new_height`: a growing axis centers
    /// the old content, a shrinking axis keeps a centered crop of it; content
    /// outside the new bounds is discarded. Never panics.
    pub fn resize_to(&self, new_width: usize, new_height: usize) -> (r: Board)
        requires
            self.wf(),
            new_width * new_height <= usize::MAX,
        ensures
            r.wf(),
            r.spec_width() == new_width,
            r.spec_height() == new_height,
            region_copied(
                *self,
                r,
                crop_start(self.spec_width(), new_width as int),
                crop_start(self.spec_height(), new_height as int),
                crop_end(self.spec_width(), new_width as int),
                crop_end(self.spec_height(), new_height as int),
                center_offset(self.spec_width(), new_width as int),
                center_offset(self.spec_height(), new_height as int),
            ),
    {
        let w = self.width();
        let h = self.height();
        let ox: usize = if new_width > w {
            (new_width - w) / 2
        } else {
            0
        };
        let oy: usize = if new_height > h {
            (new_height - h) / 2
        } else {
            0
        };
        let sx: usize = if new_width < w {
            (w - new_width) / 2
        } else {
            0
        };
        let sy: usize = if new_height < h {
            (h - new_height) / 2
        } else {
            0
        };
        let ex: usize = if sx + new_width < w {
            sx + new_width
        } else {
            w
        };
        let ey: usize = if sy + new_height < h {
            sy + new_height
        } else {
            h
        };
        self.copy_region(new_width, new_height, sx, sy, ex, ey, ox, oy)
    }

    /// Resizes the grid to a `size x size` square, centering or cropping as
    /// `resize_to` does.
    pub fn resize_to_square(&self, size: usize) -> (r: Board)
        requires
            self.wf(),
            size * size <= usize::MAX,
        ensures
            r.wf(),
            r.spec_width() == size,
            r.spec_height() == size,
            region_copied(
                *self,
                r,
                crop_start(self.spec_width(), size as int),
                crop_start(self.spec_height(), size as int),
                crop_end(self.spec_width(), size as int),
                crop_end(self.spec_height(), size as int),
                center_offset(self.spec_width(), size as int),
                center_offset(self.spec_height(), size as int),
            ),
    {
        self.resize_to(size, size)
    }
}

/// The size an axis reaches in one automatic expansion: the current length
/// plus two cells per layer, clamped to the maximum board size.
pub open spec fn expansion_target(current: int, layers: int, max: int) -> int {
    if current + 2 * layers <= max {
        current + 2 * layers
    } else {
        max
    }
}

/// What `auto_expand_if_needed` returns.
///
/// With the per-axis targets `tw`/`th` (current size grown by the layers,
/// clamped to the maximum board size): nothing outside dynamic mode, nothing
/// without an alive cell within the margin of an edge, nothing when neither
/// target exceeds its current size; otherwise a `tw x th` grid holding the
/// original content centered on each growing axis (an axis whose target does
/// not grow keeps offset zero, cut off at the far edge if it shrinks).
pub open spec fn auto_expand_post(b: Board, config: SizeConfig, r: Option<Board>) -> bool {
    let w = b.spec_width();
    let h = b.spec_height();
    let tw = expansion_target(w, config.spec_expansion_layers(), config.spec_max_board_size());
    let th = expansion_target(h, config.spec_expansion_layers(), config.spec_max_board_size());
    &&& (r is None <==> (config.spec_mode() != BoardSizeMode::Dynamic || !has_alive_near_edge(
        b,
        config.spec_expansion_margin(),
    ) || (tw <= w && th <= h)))
    &&& (r matches Some(nb) ==> {
        let ox = if tw > w {
            (tw - w) / 2
        } else {
            0
        };
        let oy = if th > h {
            (th - h) / 2
        } else {
            0
        };
        let ex = if w <= tw - ox {
            w
        } else {
            tw - ox
        };
        let ey = if h <= th - oy {
            h
        } else {
            th - oy
        };
        &&& nb.wf()
        &&& nb.spec_width() == tw
        &&& nb.spec_height() == th
        &&& region_copied(b, nb, 0, 0, ex, ey, ox, oy)
    })
}

/// Whether every cell of the grid is dead.
pub open spec fn board_is_empty(b: Board) -> bool {
    forall|x: int, y: int| b.in_bounds(x, y) ==> b.spec_cell(x, y) == CellState::Dead
}

/// Whether `[x0, x1] x [y0, y1]` is the bounding box of the grid's alive
/// cells: each of its four edges touches an alive cell, and every alive cell
/// lies inside it.
pub open spec fn is_alive_bbox(b: Board, x0: int, y0: int, x1: int, y1: int) -> bool {
    &&& exists|y: int| b.alive_at(x0, y)
    &&& exists|y: int| b.alive_at(x1, y)
    &&& exists|x: int| b.alive_at(x, y0)
    &&& exists|x: int| b.alive_at(x, y1)
    &&& forall|x: int, y: int| b.alive_at(x, y) ==> x0 <= x <= x1 && y0 <= y <= y1
}

/// The length an empty axis of length `old_len` shrinks to: the minimal
/// length `2 * margin + 1`, unless the axis is already that short.
pub open spec fn shrunk_len(old_len: int, margin: int) -> int {
    if 2 * margin + 1 < old_len {
        2 * margin + 1
    } else {
        old_len
    }
}

/// The low edge of the kept window: `margin` cells before the first alive
/// coordinate, clipped at the grid edge.
pub open spec fn crop_low(v0: int, margin: int) -> int {
    if v0 > margin {
        v0 - margin
    } else {
        0
    }
}

/// The high edge of the kept window: `margin` cells after the last alive
/// coordinate, clipped at the grid edge.
pub open spec fn crop_high(v1: int, margin: int, len: int) -> int {
    if v1 + margin <= len - 1 {
        v1 + margin
    } else {
        len - 1
    }
}

/// What `optimize_size` returns for a grid `b` and margin `margin`.
///
/// A grid with alive cells shrinks to the bounding box of its alive cells
/// expanded by `margin` on every side and clipped to the grid; an empty grid
/// shrinks to the minimal `2 * margin + 1` length on each axis. `None` means
/// the grid already has the target dimensions. No dimension ever grows.
pub open spec fn optimize_post(b: Board, margin: int, r: Option<Board>) -> bool {
    let w = b.spec_width();
    let h = b.spec_height();
    &&& (r matches Some(nb) ==> nb.wf() && nb.spec_width() <= w && nb.spec_height() <= h)
    &&& (board_is_empty(b) ==> {
        &&& (r is None <==> (shrunk_len(w, margin) == w && shrunk_len(h, margin) == h))
        &&& (r matches Some(nb) ==> nb.spec_width() == shrunk_len(w, margin) && nb.spec_height()
            == shrunk_len(h, margin) && board_is_empty(nb))
    })
    &&& (forall|x0: int, y0: int, x1: int, y1: int|
        #[trigger] is_alive_bbox(b, x0, y0, x1, y1) ==> {
            let cx0 = crop_low(x0, margin);
            let cy0 = crop_low(y0, margin);
            let cx1 = crop_high(x1, margin, w);
            let cy1 = crop_high(y1, margin, h);
            let nw = cx1 - cx0 + 1;
            let nh = cy1 - cy0 + 1;
            &&& (r is None <==> (nw == w && nh == h))
            &&& (r matches Some(nb) ==> nb.spec_width() == nw && nb.spec_height() == nh && (
            forall|nx: int, ny: int|
                nb.in_bounds(nx, ny) ==> nb.spec_cell(nx, ny) == b.spec_cell(nx + cx0, ny + cy0)))
        })
}

impl Board {
    /// The bounding box `(x0, y0, x1, y1)` of the grid's alive cells, or
    /// `None` when every cell is dead.
    fn alive_bounding_box(&self) -> (r: Option<(usize, usize, usize, usize)>)
        requires
            self.wf(),
        ensures
            r is None <==> board_is_empty(*self),
            r matches Some(bb) ==> is_alive_bbox(
                *self,
                bb.0 as int,
                bb.1 as int,
                bb.2 as int,
                bb.3 as int,
            ),
    {
        let w = self.width();
        let h = self.height();
        let mut found = false;
        let mut x0: usize = 0;
        let mut y0: usize = 0;
        let mut x1: usize = 0;
        let mut y1: usize = 0;
        let mut y: usize = 0;
        while y < h
            invariant
                self.wf(),
                w == self.spec_width(),
                h == self.spec_height(),
                y <= h,
                !found ==> forall|i: int, j: int| self.alive_at(i, j) ==> j >= y,
                found ==> {
                    &&& x0 <= x1 < w
                    &&& y0 <= y1 < h
                    &&& y1 < y
                    &&& exists|j: int| self.alive_at(x0 as int, j)
                    &&& exists|j: int| self.alive_at(x1 as int, j)
                    &&& exists|i: int| self.alive_at(i, y0 as int)
                    &&& exists|i: int| self.alive_at(i, y1 as int)
                    &&& forall|i: int, j: int|
                        self.alive_at(i, j) && j < y ==> x0 <= i <= x1 && y0 <= j <= y1
                },
            decreases h - y,
        {
            let mut x: usize = 0;
            while x < w
                invariant
                    self.wf(),
                    w == self.spec_width(),
                    h == self.spec_height(),
                    y < h,
                    x <= w,
                    !found ==> forall|i: int, j: int|
                        self.alive_at(i, j) ==> j > y || (j == y && i >= x),
                    found ==> {
                        &&& x0 <= x1 < w
                        &&& y0 <= y1 < h
                        &&& y1 <= y
                        &&& exists|j: int| self.alive_at(x0 as int, j)
                        &&& exists|j: int| self.alive_at(x1 as int, j)
                        &&& exists|i: int| self.alive_at(i, y0 as int)
                        &&& exists|i: int| self.alive_at(i, y1 as int)
                        &&& forall|i: int, j: int|
                            self.alive_at(i, j) && (j < y || (j == y && i < x)) ==> x0 <= i <= x1
                                && y0 <= j <= y1
                    },
                decreases w - x,
            {
                if self.is_alive(x, y) {
                    if !found {
                        found = true;
                        x0 = x;
                        x1 = x;
                        y0 = y;
                        y1 = y;
                    } else {
                        if x < x0 {
                            x0 = x;
                        }
                        if x > x1 {
                            x1 = x;
                        }
                        y1 = y;
                    }
                    proof {
                        assert(self.alive_at(x as int, y as int));
                    }
                }
                x += 1;
            }
            y += 1;
        }
        proof {
            if !found {
                assert forall|i: int, j: int| self.in_bounds(i, j) implies self.spec_cell(i, j)
                    == CellState::Dead by {
                    if self.spec_cell(i, j) != CellState::Dead {
                        assert(self.spec_cell(i, j) == CellState::Alive);
                        assert(self.alive_at(i, j));
                    }
                }
            }
        }
        if found {
            proof {
                assert(self.alive_at(x0 as int, choose|j: int| self.alive_at(x0 as int, j)));
                assert(!board_is_empty(*self));
            }
            Some((x0, y0, x1, y1))
        } else {
            None
        }
    }

    /// Shrinks the grid to the bounding box of its alive cells, keeping
    /// exactly `margin` cells of space toward each edge (clipped to the
    /// original grid); an empty grid shrinks to the minimal size. `None`
    /// means no shrink is possible. The result is never larger than the
    /// input on either axis, and shrinking twice is a no-op.
    ///
    /// The shrink is re-derived from the bounding box in one step rather
    /// than by peeling empty outer rings one at a time, so the result need
    /// not be square; the two approaches differ for non-square arrangements
    /// of alive cells.
    pub fn optimize_size(&self, margin: usize) -> (r: Option<Board>)
        requires
            self.wf(),
        ensures
            optimize_post(*self, margin as int, r),
    {
        proof {
            self.lemma_area_fits();
        }
        let w = self.width();
        let h = self.height();
        match self.alive_bounding_box() {
            None => {
                let tw: usize = if margin as u128 * 2 + 1 >= w as u128 {
                    w
                } else {
                    2 * margin + 1
                };
                let th: usize = if margin as u128 * 2 + 1 >= h as u128 {
                    h
                } else {
                    2 * margin + 1
                };
                let r: Option<Board> = if tw == w && th == h {
                    None
                } else {
                    proof {
                        assert(tw * th <= w * h) by (nonlinear_arith)
                            requires
                                0 <= tw <= w,
                                0 <= th <= h,
                        ;
                    }
                    Some(Board::new(tw, th))
                };
                proof {
                    assert forall|x0: int, y0: int, x1: int, y1: int|
                        #[trigger] is_alive_bbox(*self, x0, y0, x1, y1) implies false by {
                        let yw = choose|yw: int| self.alive_at(x0, yw);
                        assert(self.spec_cell(x0, yw) == CellState::Dead);
                    }
                }
                r
            },
            Some(bb) => {
                let (bx0, by0, bx1, by1) = bb;
                let cx0: usize = if bx0 > margin {
                    bx0 - margin
                } else {
                    0
                };
                let cy0: usize = if by0 > margin {
                    by0 - margin
                } else {
                    0
                };
                let cx1: usize = if (bx1 as u128 + margin as u128) <= (w - 1) as u128 {
                    bx1 + margin
                } else {
                    w - 1
                };
                let cy1: usize = if (by1 as u128 + margin as u128) <= (h - 1) as u128 {
                    by1 + margin
                } else {
                    h - 1
                };
                let nw: usize = cx1 - cx0 + 1;
                let nh: usize = cy1 - cy0 + 1;
                let r: Option<Board> = if nw == w && nh == h {
                    None
                } else {
                    proof {
                        assert(nw * nh <= w * h) by (nonlinear_arith)
                            requires
                                0 <= nw <= w,
                                0 <= nh <= h,
                        ;
                    }
                    Some(self.copy_region(nw, nh, cx0, cy0, cx1 + 1, cy1 + 1, 0, 0))
                };
                proof {
                    assert forall|x0: int, y0: int, x1: int, y1: int|
                        #[trigger] is_alive_bbox(*self, x0, y0, x1, y1) implies (x0 == bx0 && y0
                        == by0 && x1 == bx1 && y1 == by1) by {
                        lemma_bbox_unique(
                            *self,
                            x0,
                            y0,
                            x1,
                            y1,
                            bx0 as int,
                            by0 as int,
                            bx1 as int,
                            by1 as int,
                        );
                    }
                    let xw = choose|xw: int| self.alive_at(xw, by0 as int);
                    assert(!board_is_empty(*self));
                }
                r
            },
        }
    }
}

/// A grid has at most one alive-cell bounding box.
pub proof fn lemma_bbox_unique(
    b: Board,
    ax0: int,
    ay0: int,
    ax1: int,
    ay1: int,
    bx0: int,
    by0: int,
    bx1: int,
    by1: int,
)
    requires
        is_alive_bbox(b, ax0, ay0, ax1, ay1),
        is_alive_bbox(b, bx0, by0, bx1, by1),
    ensures
        ax0 == bx0 && ay0 == by0 && ax1 == bx1 && ay1 == by1,
{
    let wy0 = choose|y: int| b.alive_at(ax0, y);
    let wy1 = choose|y: int| b.alive_at(ax1, y);
    let wx0 = choose|x: int| b.alive_at(x, ay0);
    let wx1 = choose|x: int| b.alive_at(x, ay1);
    let vy0 = choose|y: int| b.alive_at(bx0, y);
    let vy1 = choose|y: int| b.alive_at(bx1, y);
    let vx0 = choose|x: int| b.alive_at(x, by0);
    let vx1 = choose|x: int| b.alive_at(x, by1);
    assert(b.alive_at(ax0, wy0) && b.alive_at(ax1, wy1) && b.alive_at(wx0, ay0) && b.alive_at(
        wx1,
        ay1,
    ));
    assert(b.alive_at(bx0, vy0) && b.alive_at(bx1, vy1) && b.alive_at(vx0, by0) && b.alive_at(
        vx1,
        by1,
    ));
}

/// Whether `v` is the least x coordinate of any alive cell.
pub open spec fn is_min_alive_x(b: Board, v: int) -> bool {
    (exists|j: int| b.alive_at(v, j)) && (forall|i: int, j: int| b.alive_at(i, j) ==> v <= i)
}

/// Whether `v` is the greatest x coordinate of any alive cell.
pub open spec fn is_max_alive_x(b: Board, v: int) -> bool {
    (exists|j: int| b.alive_at(v, j)) && (forall|i: int, j: int| b.alive_at(i, j) ==> i <= v)
}

/// Whether `v` is the least y coordinate of any alive cell.
pub open spec fn is_min_alive_y(b: Board, v: int) -> bool {
    (exists|i: int| b.alive_at(i, v)) && (forall|i: int, j: int| b.alive_at(i, j) ==> v <= j)
}

/// Whether `v` is the greatest y coordinate of any alive cell.
pub open spec fn is_max_alive_y(b: Board, v: int) -> bool {
    (exists|i: int| b.alive_at(i, v)) && (forall|i: int, j: int| b.alive_at(i, j) ==> j <= v)
}

/// A grid with an alive cell has an alive-cell bounding box.
pub proof fn lemma_bbox_exists(b: Board)
    requires
        !board_is_empty(b),
    ensures
        exists|x0: int, y0: int, x1: int, y1: int| is_alive_bbox(b, x0, y0, x1, y1),
{
    let (x, y) = choose|x: int, y: int| b.in_bounds(x, y) && b.spec_cell(x, y) != CellState::Dead;
    assert(b.alive_at(x, y));
    lemma_min_alive_x(b, x, y);
    lemma_max_alive_x(b, x, y);
    lemma_min_alive_y(b, x, y);
    lemma_max_alive_y(b, x, y);
    let x0 = choose|v: int| is_min_alive_x(b, v);
    let x1 = choose|v: int| is_max_alive_x(b, v);
    let y0 = choose|v: int| is_min_alive_y(b, v);
    let y1 = choose|v: int| is_max_alive_y(b, v);
    assert(is_alive_bbox(b, x0, y0, x1, y1));
}

/// Among the alive cells there is one of least x coordinate.
proof fn lemma_min_alive_x(b: Board, x: int, y: int)
    requires
        b.alive_at(x, y),
    ensures
        exists|v: int| is_min_alive_x(b, v),
    decreases x,
{
    if forall|i: int, j: int| b.alive_at(i, j) ==> x <= i {
        assert(is_min_alive_x(b, x));
    } else {
        let (i, j) = choose|i: int, j: int| b.alive_at(i, j) && i < x;
        lemma_min_alive_x(b, i, j);
    }
}

/// Among the alive cells there is one of greatest x coordinate.
proof fn lemma_max_alive_x(b: Board, x: int, y: int)
    requires
        b.alive_at(x, y),
    ensures
        exists|v: int| is_max_alive_x(b, v),
    decreases b.spec_width() - x,
{
    if forall|i: int, j: int| b.alive_at(i, j) ==> i <= x {
        assert(is_max_alive_x(b, x));
    } else {
        let (i, j) = choose|i: int, j: int| b.alive_at(i, j) && i > x;
        lemma_max_alive_x(b, i, j);
    }
}

/// Among the alive cells there is one of least y coordinate.
proof fn lemma_min_alive_y(b: Board, x: int, y: int)
    requires
        b.alive_at(x, y),
    ensures
        exists|v: int| is_min_alive_y(b, v),
    decreases y,
{
    if forall|i: int, j: int| b.alive_at(i, j) ==> y <= j {
        assert(is_min_alive_y(b, y));
    } else {
        let (i, j) = choose|i: int, j: int| b.alive_at(i, j) && j < y;
        lemma_min_alive_y(b, i, j);
    }
}

/// Among the alive cells there is one of greatest y coordinate.
proof fn lemma_max_alive_y(b: Board, x: int, y: int)
    requires
        b.alive_at(x, y),
    ensures
        exists|v: int| is_max_alive_y(b, v),
    decreases b.spec_height() - y,
{
    if forall|i: int, j: int| b.alive_at(i, j) ==> j <= y {
        assert(is_max_alive_y(b, y));
    } else {
        let (i, j) = choose|i: int, j: int| b.alive_at(i, j) && j > y;
        lemma_max_alive_y(b, i, j);
    }
}

/// Shrinking an already-shrunk grid is a no-op: when `optimize_size` has
/// produced a grid, running it again on that grid produces nothing.
pub proof fn lemma_optimize_idempotent(b: Board, margin: int, b1: Board, r2: Option<Board>)
    requires
        b.wf(),
        margin >= 0,
        optimize_post(b, margin, Some(b1)),
        optimize_post(b1, margin, r2),
    ensures
        r2 is None,
{
    if board_is_empty(b) {
        assert(b1.spec_width() == shrunk_len(b.spec_width(), margin));
        assert(b1.spec_height() == shrunk_len(b.spec_height(), margin));
        assert(board_is_empty(b1));
        assert(shrunk_len(b1.spec_width(), margin) == b1.spec_width());
        assert(shrunk_len(b1.spec_height(), margin) == b1.spec_height());
    } else {
        lemma_bbox_exists(b);
        let (x0, y0, x1, y1) = choose|x0: int, y0: int, x1: int, y1: int|
            is_alive_bbox(b, x0, y0, x1, y1);
        let w = b.spec_width();
        let h = b.spec_height();
        let cx0 = crop_low(x0, margin);
        let cy0 = crop_low(y0, margin);
        let cx1 = crop_high(x1, margin, w);
        let cy1 = crop_high(y1, margin, h);
        let nw = cx1 - cx0 + 1;
        let nh = cy1 - cy0 + 1;
        assert(is_alive_bbox(b, x0, y0, x1, y1));
        assert(b1.spec_width() == nw && b1.spec_height() == nh);
        // Alive cells sit within the box, so the box coordinates are usable.
        let wy = choose|j: int| b.alive_at(x0, j);
        assert(b.alive_at(x0, wy));
        assert(0 <= x0 <= x1 < w && 0 <= y0 <= y1 < h) by {
            let vy = choose|j: int| b.alive_at(x1, j);
            let vx = choose|i: int| b.alive_at(i, y0);
            let ux = choose|i: int| b.alive_at(i, y1);
            assert(b.alive_at(x1, vy) && b.alive_at(vx, y0) && b.alive_at(ux, y1));
        }
        // The shifted box is the bounding box of the shrunk grid.
        assert forall|nx: int, ny: int| b1.in_bounds(nx, ny) implies (b1.alive_at(nx, ny)
            <==> b.alive_at(nx + cx0, ny + cy0)) by {
            assert(b1.spec_cell(nx, ny) == b.spec_cell(nx + cx0, ny + cy0));
        }
        assert(is_alive_bbox(b1, x0 - cx0, y0 - cy0, x1 - cx0, y1 - cy0)) by {
            assert(b1.alive_at(x0 - cx0, wy - cy0)) by {
                assert(b.alive_at(x0, wy));
                assert(b1.in_bounds(x0 - cx0, wy - cy0));
                assert(b1.spec_cell(x0 - cx0, wy - cy0) == b.spec_cell(x0, wy));
            }
            let vy = choose|j: int| b.alive_at(x1, j);
            assert(b1.alive_at(x1 - cx0, vy - cy0)) by {
                assert(b.alive_at(x1, vy));
                assert(b1.in_bounds(x1 - cx0, vy - cy0));
                assert(b1.spec_cell(x1 - cx0, vy - cy0) == b.spec_cell(x1, vy));
            }
            let vx = choose|i: int| b.alive_at(i, y0);
            assert(b1.alive_at(vx - cx0, y0 - cy0)) by {
                assert(b.alive_at(vx, y0));
                assert(b1.in_bounds(vx - cx0, y0 - cy0));
                assert(b1.spec_cell(vx - cx0, y0 - cy0) == b.spec_cell(vx, y0));
            }
            let ux = choose|i: int| b.alive_at(i, y1);
            assert(b1.alive_at(ux - cx0, y1 - cy0)) by {
                assert(b.alive_at(ux, y1));
                assert(b1.in_bounds(ux - cx0, y1 - cy0));
                assert(b1.spec_cell(ux - cx0, y1 - cy0) == b.spec_cell(ux, y1));
            }
            assert forall|nx: int, ny: int| b1.alive_at(nx, ny) implies x0 - cx0 <= nx <= x1 - cx0
                && y0 - cy0 <= ny <= y1 - cy0 by {
                assert(b.alive_at(nx + cx0, ny + cy0));
            }
        }
        assert(crop_low(x0 - cx0, margin) == 0);
        assert(crop_high(x1 - cx0, margin, nw) == nw - 1);
        assert(crop_low(y0 - cy0, margin) == 0);
        assert(crop_high(y1 - cy0, margin, nh) == nh - 1);
    }
}

/// Where copying starts on a source axis of length `old` when resizing to
/// length `new`: a shrinking axis is cropped around its center.
pub open spec fn crop_start(old_len: int, new_len: int) -> int {
    if new_len < old_len {
        (old_len - new_len) / 2
    } else {
        0
    }
}

/// Where copying ends (exclusive) on a source axis of length `old` when
/// resizing to length `new`.
pub open spec fn crop_end(old_len: int, new_len: int) -> int {
    if crop_start(old_len, new_len) + new_len < old_len {
        crop_start(old_len, new_len) + new_len
    } else {
        old_len
    }
}

/// The offset on a target axis of length `new` at which content of a source
/// axis of length `old` lands: a growing axis centers the content.
pub open spec fn center_offset(old_len: int, new_len: int) -> int {
    if new_len > old_len {
        (new_len - old_len) / 2
    } else {
        0
    }
}

} // verus!
