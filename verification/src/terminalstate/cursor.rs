//! Moving the cursor and the viewport.

use crate::model::CursorPosition;
use crate::model::Position;
use crate::model::StateView;
use crate::screen::VisibleRowIndex;
use crate::screen::MAX_LINES;
use crate::terminalstate::clamp_i64;
use crate::terminalstate::TerminalState;
use vstd::prelude::*;

verus! {

impl TerminalState {
    fn target_column(&self, x: Position) -> (col: usize)
        requires
            self.wf(),
        ensures
            col == self@.target_x(x),
            col < self@.cols(),
    {
        let cols = self.screen.active().physical_cols as i64;
        let v = match x {
            Position::Relative(d) => if d >= cols {
                cols - 1
            } else if d <= -cols {
                0
            } else {
                clamp_i64(self.cursor.x as i64 + d, 0, cols - 1)
            },
            Position::Absolute(v) => clamp_i64(v, 0, cols - 1),
        };
        v as usize
    }

    fn target_row(&self, y: Position) -> (row: VisibleRowIndex)
        requires
            self.wf(),
        ensures
            row == self@.target_y(y),
            0 <= row < self@.rows(),
    {
        let rows = self.screen.active().physical_rows as i64;
        match y {
            Position::Relative(d) => if d >= rows {
                rows - 1
            } else if d <= -rows {
                0
            } else {
                clamp_i64(self.cursor.y + d, 0, rows - 1)
            },
            Position::Absolute(v) => clamp_i64(v, 0, rows - 1),
        }
    }

    /// Moves the cursor, keeping it on the screen.
    pub(crate) fn set_cursor_pos(&mut self, x: Position, y: Position)
        requires
            old(self).wf(),
        ensures
            final(self)@ == old(self)@.cursor_moved(x, y),
            final(self).wf(),
    {
        proof {
            reveal(StateView::cursor_moved);
        }
        let new_x = self.target_column(x);
        let new_y = self.target_row(y);
        let old_y = self.cursor.y;
        let screen = self.screen_mut();
        screen.dirty_line(old_y);
        screen.dirty_line(new_y);
        self.cursor = CursorPosition { x: new_x, y: new_y };
        self.wrap_next = false;
        proof {
            crate::model::lemma_cursor_moved_frame(old(self)@, x, y);
        }
    }

    /// Marks the rows in view dirty.
    fn dirty_viewport(&mut self)
        requires
            old(self).wf(),
        ensures
            final(self)@ == old(self)@.viewport_dirtied(),
            final(self).wf(),
    {
        proof {
            reveal(StateView::viewport_dirtied);
        }
        let rows = self.screen.active().physical_rows;
        let len = self.screen.active().lines.len();
        let top = len - (rows + self.viewport_offset as usize);
        let screen = self.screen_mut();
        screen.dirty_range(top, top + rows);
        let ghost a = screen@;
        proof {
            crate::model::lemma_with_active_wf(old(self)@, a);
        }
    }

    /// Moves the viewport to `position` lines back into the scrollback.
    pub(crate) fn set_scroll_viewport(&mut self, position: VisibleRowIndex)
        requires
            old(self).wf(),
        ensures
            final(self)@ == old(self)@.viewport_set(position as int),
            final(self).wf(),
    {
        self.clear_selection();
        let ghost cleared = self@;
        let rows = self.screen.active().physical_rows;
        let len = self.screen.active().lines.len();
        let avail_scrollback = len - rows;
        let pos = clamp_i64(position, 0, avail_scrollback as i64);
        assert(pos == crate::model::clamp(position as int, 0, cleared.active().base()));
        self.viewport_offset = pos;
        assert(self@ == (StateView { viewport_offset: pos, ..cleared }));
        self.dirty_viewport();
        self.recompute_highlight();
    }

    /// Moves the viewport by `delta` lines, forward in the text for a positive `delta`.
    pub fn scroll_viewport(&mut self, delta: VisibleRowIndex)
        requires
            old(self).wf(),
        ensures
            final(self)@ == old(self)@.viewport_scrolled(delta as int),
            final(self).wf(),
    {
        let limit = MAX_LINES as i64;
        let position = if delta > limit {
            -1
        } else if delta < -limit {
            limit
        } else {
            self.viewport_offset - delta
        };
        proof {
            crate::model::lemma_viewport_set_clamps(
                self@,
                position as int,
                self@.viewport_offset - delta,
            );
        }
        self.set_scroll_viewport(position);
    }
}

} // verus!
