//! The click/drag cell-editing state machine.
//!
//! A single click toggles a cell. A drag gesture fixes its action on the
//! first cell it touches — painting when that cell was dead, erasing when it
//! was alive — and applies only that action to every further cell it
//! crosses, so one gesture performs one consistent kind of edit.

use vstd::prelude::*;

use crate::board::{board_unchanged, cells_updated, flip, Board, CellState};

verus! {

/// The kind of edit a drag gesture performs, fixed by the first cell it
/// touches.
#[derive(Debug, Clone, Copy, PartialEq, Eq, Structural)]
pub enum DragAction {
    /// The gesture paints: dead cells become alive, alive cells are left.
    CreateCell,
    /// The gesture erases: alive cells become dead, dead cells are left.
    KillCell,
}

/// The state of a drag gesture: idle, or dragging with a fixed action and
/// the cell last touched.
#[derive(Debug, Clone, Copy)]
pub struct DragState {
    /// Whether a drag gesture is in progress.
    pub is_dragging: bool,
    /// The action fixed by the first cell of the gesture.
    pub drag_action: Option<DragAction>,
    /// The cell the pointer last touched during the gesture.
    pub last_cell: Option<(usize, usize)>,
}

impl Default for DragState {
    fn default() -> (r: Self)
        ensures
            !r.is_dragging,
            r.drag_action is None,
            r.last_cell is None,
    {
        DragState { is_dragging: false, drag_action: None, last_cell: None }
    }
}

impl DragState {
    /// A fresh, idle drag state.
    pub fn new() -> (r: DragState)
        ensures
            !r.is_dragging,
            r.drag_action is None,
            r.last_cell is None,
    {
        DragState::default()
    }

    /// Begins a gesture with the given action, on the given first cell.
    pub fn start_drag(&mut self, action: DragAction, cell: (usize, usize))
        ensures
            final(self).is_dragging,
            final(self).drag_action == Some(action),
            final(self).last_cell == Some(cell),
    {
        self.is_dragging = true;
        self.drag_action = Some(action);
        self.last_cell = Some(cell);
    }

    /// Ends the gesture, clearing action and last cell.
    pub fn end_drag(&mut self)
        ensures
            !final(self).is_dragging,
            final(self).drag_action is None,
            final(self).last_cell is None,
    {
        self.is_dragging = false;
        self.drag_action = None;
        self.last_cell = None;
    }

    /// Whether a gesture is in progress.
    pub fn is_dragging(&self) -> (r: bool)
        ensures
            r == self.is_dragging,
    {
        self.is_dragging
    }

    /// The gesture's fixed action, if any.
    pub fn drag_action(&self) -> (r: Option<DragAction>)
        ensures
            r == self.drag_action,
    {
        self.drag_action
    }

    /// Records the cell the pointer last touched.
    pub fn update_last_cell(&mut self, cell: (usize, usize))
        ensures
            final(self).is_dragging == old(self).is_dragging,
            final(self).drag_action == old(self).drag_action,
            final(self).last_cell == Some(cell),
    {
        self.last_cell = Some(cell);
    }

    /// Whether `cell` differs from the cell last touched (a repeated event
    /// on the same cell is not a new cell).
    pub fn is_new_cell(&self, cell: (usize, usize)) -> (r: bool)
        ensures
            r == (self.last_cell != Some(cell)),
    {
        match self.last_cell {
            Some(last) => last.0 != cell.0 || last.1 != cell.1,
            None => true,
        }
    }
}

/// How one `continue_drag` event transforms the drag state and the grid.
///
/// Nothing happens while no gesture is in progress or when the event repeats
/// the last cell. Otherwise the last cell is recorded and the gesture's
/// fixed action is applied: `CreateCell` only sets a dead cell alive,
/// `KillCell` only sets an alive cell dead; the returned flag says whether
/// the grid changed.
pub open spec fn continue_drag_post(
    pre: DragState,
    post: DragState,
    bpre: Board,
    bpost: Board,
    x: usize,
    y: usize,
    r: bool,
) -> bool {
    if !pre.is_dragging {
        &&& post == pre
        &&& board_unchanged(bpre, bpost)
        &&& r == false
    } else if pre.last_cell == Some((x, y)) {
        &&& post == pre
        &&& board_unchanged(bpre, bpost)
        &&& r == false
    } else {
        &&& post.is_dragging == true
        &&& post.drag_action == pre.drag_action
        &&& post.last_cell == Some((x, y))
        &&& match pre.drag_action {
            None => board_unchanged(bpre, bpost) && r == false,
            Some(DragAction::CreateCell) => {
                &&& cells_updated(bpre, bpost, x as int, y as int, CellState::Alive)
                &&& r == (bpre.in_bounds(x as int, y as int) && bpre.spec_cell(x as int, y as int)
                    == CellState::Dead)
            },
            Some(DragAction::KillCell) => {
                &&& cells_updated(bpre, bpost, x as int, y as int, CellState::Dead)
                &&& r == (bpre.in_bounds(x as int, y as int) && bpre.spec_cell(x as int, y as int)
                    == CellState::Alive)
            },
        }
    }
}

/// Manager translating pointer events into grid edits.
pub struct CellStateManager {
    drag_state: DragState,
}

impl CellStateManager {
    /// The manager's drag state.
    pub closed spec fn spec_drag_state(&self) -> DragState {
        self.drag_state
    }

    /// A fresh manager with an idle drag state.
    pub fn new() -> (r: CellStateManager)
        ensures
            !r.spec_drag_state().is_dragging,
            r.spec_drag_state().drag_action is None,
            r.spec_drag_state().last_cell is None,
    {
        CellStateManager { drag_state: DragState::new() }
    }

    /// A single click: toggles the cell, without touching the drag state.
    /// Returns whether the cell changed (out of bounds changes nothing).
    pub fn handle_cell_click(&mut self, board: &mut Board, x: usize, y: usize) -> (r: bool)
        requires
            old(board).wf(),
        ensures
            final(board).wf(),
            final(self).spec_drag_state() == old(self).spec_drag_state(),
            r == old(board).in_bounds(x as int, y as int),
            cells_updated(
                *old(board),
                *final(board),
                x as int,
                y as int,
                flip(old(board).spec_cell(x as int, y as int)),
            ),
    {
        board.toggle_cell(x, y)
    }

    /// Begins a drag on `(x, y)`: fixes the action from the cell's current
    /// state (dead starts painting, alive starts erasing), toggles that
    /// first cell, and enters the dragging state. An out-of-bounds start
    /// changes nothing. Returns whether the cell changed.
    pub fn start_drag(&mut self, board: &mut Board, x: usize, y: usize) -> (r: bool)
        requires
            old(board).wf(),
        ensures
            final(board).wf(),
            r == old(board).in_bounds(x as int, y as int),
            cells_updated(
                *old(board),
                *final(board),
                x as int,
                y as int,
                flip(old(board).spec_cell(x as int, y as int)),
            ),
            old(board).in_bounds(x as int, y as int) ==> {
                &&& final(self).spec_drag_state().is_dragging
                &&& final(self).spec_drag_state().drag_action == Some(
                    if old(board).spec_cell(x as int, y as int) == CellState::Dead {
                        DragAction::CreateCell
                    } else {
                        DragAction::KillCell
                    },
                )
                &&& final(self).spec_drag_state().last_cell == Some((x, y))
            },
            !old(board).in_bounds(x as int, y as int) ==> final(self).spec_drag_state() == old(
                self,
            ).spec_drag_state(),
    {
        match board.get_cell(x, y) {
            Some(current_state) => {
                let drag_action = match current_state {
                    CellState::Dead => DragAction::CreateCell,
                    CellState::Alive => DragAction::KillCell,
                };
                self.drag_state.start_drag(drag_action, (x, y));
                board.toggle_cell(x, y)
            },
            None => false,
        }
    }

    /// Continues a drag over `(x, y)`: a no-op unless a gesture is in
    /// progress and the cell is new; otherwise records the cell and applies
    /// the gesture's fixed action to it. Returns whether the cell changed.
    pub fn continue_drag(&mut self, board: &mut Board, x: usize, y: usize) -> (r: bool)
        requires
            old(board).wf(),
        ensures
            final(board).wf(),
            continue_drag_post(
                old(self).spec_drag_state(),
                final(self).spec_drag_state(),
                *old(board),
                *final(board),
                x,
                y,
                r,
            ),
    {
        if !self.drag_state.is_dragging() {
            return false;
        }
        if !self.drag_state.is_new_cell((x, y)) {
            return false;
        }
        self.drag_state.update_last_cell((x, y));
        let drag_action = match self.drag_state.drag_action() {
            Some(action) => action,
            None => {
                return false;
            },
        };
        let current_state = match board.get_cell(x, y) {
            Some(state) => state,
            None => {
                return false;
            },
        };
        match drag_action {
            DragAction::CreateCell => {
                if current_state == CellState::Dead {
                    board.set_cell(x, y, CellState::Alive)
                } else {
                    false
                }
            },
            DragAction::KillCell => {
                if current_state == CellState::Alive {
                    board.set_cell(x, y, CellState::Dead)
                } else {
                    false
                }
            },
        }
    }

    /// Ends the gesture.
    pub fn end_drag(&mut self)
        ensures
            !final(self).spec_drag_state().is_dragging,
            final(self).spec_drag_state().drag_action is None,
            final(self).spec_drag_state().last_cell is None,
    {
        self.drag_state.end_drag();
    }

    /// Whether a gesture is in progress.
    pub fn is_dragging(&self) -> (r: bool)
        ensures
            r == self.spec_drag_state().is_dragging,
    {
        self.drag_state.is_dragging()
    }

    /// The current drag state.
    pub fn drag_state(&self) -> (r: &DragState)
        ensures
            *r == self.spec_drag_state(),
    {
        &self.drag_state
    }

    /// A pointer-move event: continues the gesture if one is in progress,
    /// else does nothing. Returns whether the cell changed.
    pub fn handle_mouse_over(&mut self, board: &mut Board, x: usize, y: usize) -> (r: bool)
        requires
            old(board).wf(),
        ensures
            final(board).wf(),
            continue_drag_post(
                old(self).spec_drag_state(),
                final(self).spec_drag_state(),
                *old(board),
                *final(board),
                x,
                y,
                r,
            ),
    {
        if self.is_dragging() {
            self.continue_drag(board, x, y)
        } else {
            false
        }
    }

    /// Aborts any gesture in progress.
    pub fn reset(&mut self)
        ensures
            !final(self).spec_drag_state().is_dragging,
            final(self).spec_drag_state().drag_action is None,
            final(self).spec_drag_state().last_cell is None,
    {
        self.drag_state.end_drag();
    }
}

impl Default for CellStateManager {
    fn default() -> (r: Self)
        ensures
            !r.spec_drag_state().is_dragging,
            r.spec_drag_state().drag_action is None,
            r.spec_drag_state().last_cell is None,
    {
        CellStateManager::new()
    }
}

/// A gesture that paints never erases: under the `CreateCell` action, every
/// cell alive before a drag event is still alive after it.
pub proof fn lemma_create_drag_monotonic(
    pre: DragState,
    post: DragState,
    bpre: Board,
    bpost: Board,
    x: usize,
    y: usize,
    r: bool,
)
    requires
        pre.drag_action == Some(DragAction::CreateCell),
        continue_drag_post(pre, post, bpre, bpost, x, y, r),
    ensures
        forall|i: int, j: int| bpre.alive_at(i, j) ==> bpost.alive_at(i, j),
{
}

/// A gesture that erases never paints: under the `KillCell` action, every
/// cell dead before a drag event is still dead after it.
pub proof fn lemma_kill_drag_monotonic(
    pre: DragState,
    post: DragState,
    bpre: Board,
    bpost: Board,
    x: usize,
    y: usize,
    r: bool,
)
    requires
        pre.drag_action == Some(DragAction::KillCell),
        continue_drag_post(pre, post, bpre, bpost, x, y, r),
    ensures
        forall|i: int, j: int| !bpre.alive_at(i, j) ==> !bpost.alive_at(i, j),
{
}

} // verus!
