//! The two-stage reset protocol.
//!
//! A snapshot of the grid is saved at the first run-start. The first reset
//! afterwards restores that snapshot, resized to the currently configured
//! target size; the second reset clears to an empty grid and discards the
//! history. The target size is always read from the configuration at call
//! time, so configuration changes made after a run are honored.

use vstd::prelude::*;

use crate::board::{board_unchanged, Board};
use crate::expansion::{board_is_empty, center_offset, crop_end, crop_start, region_copied};
use crate::rules::SizeConfig;

verus! {

/// Whether two optional grids show the same content.
pub open spec fn option_board_unchanged(a: Option<Board>, b: Option<Board>) -> bool {
    match (a, b) {
        (None, None) => true,
        (Some(x), Some(y)) => board_unchanged(x, y),
        _ => false,
    }
}

/// How a grid `b` relates to a source grid `src` resized to a `target x
/// target` square: centered padding on a growing axis, a centered crop on a
/// shrinking one.
pub open spec fn resized_to_square(src: Board, b: Board, target: int) -> bool {
    &&& b.spec_width() == target
    &&& b.spec_height() == target
    &&& region_copied(
        src,
        b,
        crop_start(src.spec_width(), target),
        crop_start(src.spec_height(), target),
        crop_end(src.spec_width(), target),
        crop_end(src.spec_height(), target),
        center_offset(src.spec_width(), target),
        center_offset(src.spec_height(), target),
    )
}

/// Manager for the two-stage reset protocol.
pub struct ResetManager {
    pre_start_board: Option<Board>,
    last_reset_was_to_pre_start: bool,
    was_ever_started: bool,
}

impl ResetManager {
    /// The saved pre-run snapshot, if any.
    pub closed spec fn spec_pre_start(&self) -> Option<Board> {
        self.pre_start_board
    }

    /// Whether the last reset restored the snapshot (so the next one
    /// clears).
    pub closed spec fn spec_last_reset_was_to_pre_start(&self) -> bool {
        self.last_reset_was_to_pre_start
    }

    /// Whether a run was ever started since the history was last discarded.
    pub closed spec fn spec_was_ever_started(&self) -> bool {
        self.was_ever_started
    }

    /// A saved snapshot is a well-formed grid.
    pub closed spec fn wf(&self) -> bool {
        self.pre_start_board matches Some(b) ==> b.wf()
    }

    /// A fresh manager: no snapshot, nothing started.
    pub fn new() -> (r: ResetManager)
        ensures
            r.wf(),
            r.spec_pre_start() is None,
            !r.spec_last_reset_was_to_pre_start(),
            !r.spec_was_ever_started(),
    {
        ResetManager { pre_start_board: None, last_reset_was_to_pre_start: false, was_ever_started: false }
    }

    /// Saves the grid as the pre-run snapshot, marks the session as
    /// started, and arms the snapshot-restoring stage.
    pub fn save_pre_start_state(&mut self, board: &Board)
        requires
            old(self).wf(),
            board.wf(),
        ensures
            final(self).wf(),
            final(self).spec_pre_start() matches Some(b) && board_unchanged(*board, b),
            !final(self).spec_last_reset_was_to_pre_start(),
            final(self).spec_was_ever_started(),
    {
        self.pre_start_board = Some(board.clone());
        self.last_reset_was_to_pre_start = false;
        self.was_ever_started = true;
    }

    /// Whether a pre-run snapshot is saved.
    pub fn has_pre_start_state(&self) -> (r: bool)
        ensures
            r == (self.spec_pre_start() is Some),
    {
        self.pre_start_board.is_some()
    }

    /// Discards the snapshot and disarms the snapshot-restoring stage; the
    /// session flag is history and stays.
    pub fn clear_pre_start_state(&mut self)
        requires
            old(self).wf(),
        ensures
            final(self).wf(),
            final(self).spec_pre_start() is None,
            !final(self).spec_last_reset_was_to_pre_start(),
            final(self).spec_was_ever_started() == old(self).spec_was_ever_started(),
    {
        self.pre_start_board = None;
        self.last_reset_was_to_pre_start = false;
    }

    /// A plain-words description of what the next reset will do.
    pub fn get_next_reset_description(&self, ever_started: bool) -> (r: &'static str)
        ensures
            r@ == if ever_started && self.spec_pre_start() is Some
                && !self.spec_last_reset_was_to_pre_start() {
                "Reset to pre-start state"@
            } else {
                "Reset to empty board"@
            },
    {
        if !ever_started {
            "Reset to empty board"
        } else if self.pre_start_board.is_some() {
            if !self.last_reset_was_to_pre_start {
                "Reset to pre-start state"
            } else {
                "Reset to empty board"
            }
        } else {
            "Reset to empty board"
        }
    }

    /// Whether the next reset will produce an empty grid (rather than
    /// restore the snapshot).
    pub fn next_reset_is_empty(&self, ever_started: bool) -> (r: bool)
        ensures
            r == !(ever_started && self.spec_pre_start() is Some
                && !self.spec_last_reset_was_to_pre_start()),
    {
        if !ever_started {
            true
        } else if self.pre_start_board.is_some() {
            self.last_reset_was_to_pre_start
        } else {
            true
        }
    }

    /// Performs one reset step; see `reset_post` for the three branches.
    /// Returns the new grid and whether the caller's `ever_started` flag
    /// must be cleared.
    pub fn reset_board(&mut self, _current_board: &Board, ever_started: bool, config: &SizeConfig) -> (r:
        (Board, bool))
        requires
            old(self).wf(),
            config.wf(),
        ensures
            final(self).wf(),
            r.0.wf(),
            reset_post(*old(self), *final(self), ever_started, *config, r.0, r.1),
    {
        let target_size = config.get_current_board_size();
        proof {
            assert(target_size * target_size <= 201 * 201) by (nonlinear_arith)
                requires
                    0 <= target_size <= 201,
            ;
        }
        if !ever_started {
            let new_board = Board::new(target_size, target_size);
            self.last_reset_was_to_pre_start = false;
            (new_board, false)
        } else {
            match self.pre_start_board {
                Some(ref pre_start) => {
                    if !self.last_reset_was_to_pre_start {
                        let resized = pre_start.resize_to_square(target_size);
                        self.last_reset_was_to_pre_start = true;
                        (resized, false)
                    } else {
                        let new_board = Board::new(target_size, target_size);
                        self.last_reset_was_to_pre_start = false;
                        self.pre_start_board = None;
                        self.was_ever_started = false;
                        (new_board, true)
                    }
                },
                None => {
                    let new_board = Board::new(target_size, target_size);
                    self.last_reset_was_to_pre_start = false;
                    self.pre_start_board = None;
                    self.was_ever_started = false;
                    (new_board, true)
                },
            }
        }
    }
}

impl Default for ResetManager {
    fn default() -> (r: Self)
        ensures
            r.wf(),
            r.spec_pre_start() is None,
            !r.spec_last_reset_was_to_pre_start(),
            !r.spec_was_ever_started(),
    {
        ResetManager::new()
    }
}

/// What one call of `reset_board` does.
///
/// Before any run has started, it hands out a fresh empty grid of the
/// configured target size and changes no history. With a saved snapshot
/// whose restoring stage is armed, it hands out the snapshot resized to the
/// target size and arms the clearing stage. Otherwise it hands out a fresh
/// empty grid, discards the snapshot, and tells the caller to clear its
/// `ever_started` flag.
pub open spec fn reset_post(
    pre: ResetManager,
    post: ResetManager,
    ever_started: bool,
    config: SizeConfig,
    b: Board,
    cleared: bool,
) -> bool {
    let target = config.spec_current_board_size();
    if !ever_started {
        &&& b.spec_width() == target
        &&& b.spec_height() == target
        &&& board_is_empty(b)
        &&& !post.spec_last_reset_was_to_pre_start()
        &&& option_board_unchanged(pre.spec_pre_start(), post.spec_pre_start())
        &&& post.spec_was_ever_started() == pre.spec_was_ever_started()
        &&& cleared == false
    } else if pre.spec_pre_start() is Some && !pre.spec_last_reset_was_to_pre_start() {
        &&& (pre.spec_pre_start() matches Some(snap) ==> resized_to_square(snap, b, target))
        &&& post.spec_last_reset_was_to_pre_start()
        &&& option_board_unchanged(pre.spec_pre_start(), post.spec_pre_start())
        &&& post.spec_was_ever_started() == pre.spec_was_ever_started()
        &&& cleared == false
    } else {
        &&& b.spec_width() == target
        &&& b.spec_height() == target
        &&& board_is_empty(b)
        &&& !post.spec_last_reset_was_to_pre_start()
        &&& post.spec_pre_start() is None
        &&& !post.spec_was_ever_started()
        &&& cleared == true
    }
}

/// The two-stage reset: with a session started and a snapshot whose
/// restoring stage is armed, the first reset hands back the snapshot
/// (resized to the configured target size) and keeps the history; the
/// second reset hands back an empty grid of the target size, discards the
/// snapshot, and tells the caller to clear its `ever_started` flag.
pub proof fn lemma_two_stage_reset(
    m0: ResetManager,
    m1: ResetManager,
    m2: ResetManager,
    config: SizeConfig,
    b1: Board,
    f1: bool,
    b2: Board,
    f2: bool,
)
    requires
        m0.spec_pre_start() is Some,
        !m0.spec_last_reset_was_to_pre_start(),
        reset_post(m0, m1, true, config, b1, f1),
        reset_post(m1, m2, true, config, b2, f2),
    ensures
        m0.spec_pre_start() matches Some(snap) ==> resized_to_square(
            snap,
            b1,
            config.spec_current_board_size(),
        ),
        f1 == false,
        b2.spec_width() == config.spec_current_board_size(),
        b2.spec_height() == config.spec_current_board_size(),
        board_is_empty(b2),
        f2 == true,
        m2.spec_pre_start() is None,
        !m2.spec_was_ever_started(),
{
}

} // verus!
