//! Scrolling the scroll region, and the moves that scroll at its edges.

use crate::model::lemma_with_active_wf;
use crate::model::Position;
use crate::model::StateView;
use crate::screen::lemma_scrolled_down_shape;
use crate::screen::lemma_scrolled_up_shape;
use crate::screen::VisibleRowIndex;
use crate::screen::MAX_DIMENSION;
use crate::terminalstate::TerminalState;
use vstd::prelude::*;

verus! {

impl TerminalState {
    /// Scrolls rows `top` up to `bottom` of the screen that is shown up by `num_rows`, and
    /// keeps the viewport within the scrollback that is left.
    pub(crate) fn scroll_region_up(&mut self, top: VisibleRowIndex, bottom: VisibleRowIndex, num_rows: usize)
        requires
            old(self).wf(),
            0 <= top < bottom <= old(self)@.rows(),
        ensures
            final(self)@ == old(self)@.with_scrolled(
                old(self)@.active().scrolled_up(top as int, bottom as int, num_rows as int),
            ),
            final(self).wf(),
    {
        let ghost a = old(self)@.active().scrolled_up(top as int, bottom as int, num_rows as int);
        proof {
            reveal(StateView::with_scrolled);
            lemma_scrolled_up_shape(old(self)@.active(), top as int, bottom as int, num_rows as int);
            crate::model::lemma_with_scrolled_wf(old(self)@, a);
        }
        let screen = self.screen_mut();
        screen.scroll_up(top, bottom, num_rows);
        let base = (screen.lines.len() - screen.physical_rows) as i64;
        assert(self@ == old(self)@.with_active(a));
        assert(base == a.base());
        let ghost swapped = self@;
        if self.viewport_offset > base {
            self.viewport_offset = base;
        }
        assert(self@ == (StateView {
            viewport_offset: if swapped.viewport_offset > a.base() {
                a.base() as i64
            } else {
                swapped.viewport_offset
            },
            ..swapped
        }));
        assert(swapped.viewport_offset == old(self)@.viewport_offset) by {
            reveal(StateView::with_active);
        }
    }

    pub(crate) fn scroll_up(&mut self, num_rows: usize)
        requires
            old(self).wf(),
        ensures
            final(self)@ == old(self)@.scrolled_up(num_rows as int),
            final(self).wf(),
    {
        proof {
            reveal(StateView::scrolled_up);
        }
        self.clear_selection();
        let top = self.scroll_top;
        let bottom = self.scroll_bottom;
        self.scroll_region_up(top, bottom, num_rows);
    }

    pub(crate) fn scroll_down(&mut self, num_rows: usize)
        requires
            old(self).wf(),
        ensures
            final(self)@ == old(self)@.scrolled_down(num_rows as int),
            final(self).wf(),
    {
        proof {
            reveal(StateView::scrolled_down);
        }
        self.clear_selection();
        let ghost cleared = self@;
        let top = self.scroll_top;
        let bottom = self.scroll_bottom;
        self.screen_mut().scroll_down(top, bottom, num_rows);
        proof {
            let a = cleared.active().scrolled_down(top as int, bottom as int, num_rows as int);
            lemma_scrolled_down_shape(cleared.active(), top as int, bottom as int, num_rows as int);
            lemma_with_active_wf(cleared, a);
        }
    }

    pub(crate) fn new_line(&mut self, move_to_first_column: bool)
        requires
            old(self).wf(),
        ensures
            final(self)@ == old(self)@.new_line(move_to_first_column),
            final(self).wf(),
    {
        let x = if move_to_first_column {
            0
        } else {
            self.cursor.x as i64
        };
        let y = self.cursor.y;
        let y = if y == self.scroll_bottom - 1 {
            self.scroll_up(1);
            y
        } else {
            y + 1
        };
        self.set_cursor_pos(Position::Absolute(x), Position::Absolute(y));
    }

    pub(crate) fn c1_index(&mut self)
        requires
            old(self).wf(),
        ensures
            final(self)@ == old(self)@.index(),
            final(self).wf(),
    {
        let y = self.cursor.y;
        let y = if y == self.scroll_bottom - 1 {
            self.scroll_up(1);
            y
        } else {
            y + 1
        };
        self.set_cursor_pos(Position::Relative(0), Position::Absolute(y));
    }

    pub(crate) fn c1_nel(&mut self)
        requires
            old(self).wf(),
        ensures
            final(self)@ == old(self)@.new_line(true),
            final(self).wf(),
    {
        self.new_line(true);
    }

    pub(crate) fn c1_hts(&mut self)
        requires
            old(self).wf(),
        ensures
            final(self)@ == old(self)@.tab_set(),
            final(self).wf(),
    {
        proof {
            reveal(StateView::tab_set);
        }
        self.tabs.set_tab_stop(self.cursor.x);
    }

    pub(crate) fn c0_horizontal_tab(&mut self)
        requires
            old(self).wf(),
        ensures
            final(self)@ == old(self)@.horizontal_tab(),
            final(self).wf(),
    {
        let x = match self.tabs.find_next_tab_stop(self.cursor.x) {
            Some(x) => x,
            None => self.screen.active().physical_cols - 1,
        };
        let target = if x > MAX_DIMENSION {
            MAX_DIMENSION
        } else {
            x
        };
        self.set_cursor_pos(Position::Absolute(target as i64), Position::Relative(0));
    }

    pub(crate) fn c1_reverse_index(&mut self)
        requires
            old(self).wf(),
        ensures
            final(self)@ == old(self)@.reverse_index(),
            final(self).wf(),
    {
        let y = self.cursor.y;
        let y = if y == self.scroll_top {
            self.scroll_down(1);
            y
        } else {
            y - 1
        };
        self.set_cursor_pos(Position::Relative(0), Position::Absolute(y));
    }
}

} // verus!
