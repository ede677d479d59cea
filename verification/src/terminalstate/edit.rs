//! Editing operations: erasing, inserting and deleting cells and lines.

use crate::escape::csi::Edit;
use crate::escape::csi::EraseInDisplay;
use crate::escape::csi::EraseInLine;
use crate::model::lemma_with_active_wf;
use crate::model::Position;
use crate::model::StateView;
use crate::screen::lemma_scrolled_down_shape;
use crate::screen::VisibleRowIndex;
use crate::terminalstate::TerminalState;
use vstd::prelude::*;

verus! {

impl TerminalState {
    fn edit_limit(&self, n: u32) -> (limit: usize)
        requires
            self.wf(),
        ensures
            limit == self@.edit_limit(n),
            self@.cursor.x <= limit <= self@.cols(),
    {
        let cols = self.screen.active().physical_cols;
        let x = self.cursor.x;
        if (n as u64) < (cols - x) as u64 {
            x + n as usize
        } else {
            cols
        }
    }

    fn erase_start(&self, erase: EraseInLine) -> (start: usize)
        ensures
            start == self@.erase_start(erase),
    {
        match erase {
            EraseInLine::EraseToEndOfLine => self.cursor.x,
            _ => 0,
        }
    }

    fn erase_end(&self, erase: EraseInLine) -> (end: usize)
        ensures
            end == self@.erase_end(erase),
    {
        match erase {
            EraseInLine::EraseToStartOfLine => self.cursor.x,
            _ => self.screen.active().physical_cols,
        }
    }

    pub(crate) fn erase_in_line(&mut self, erase: EraseInLine)
        requires
            old(self).wf(),
        ensures
            final(self)@ == old(self)@.erased_in_line(erase),
            final(self).wf(),
    {
        proof {
            reveal(StateView::erased_in_line);
        }
        let cy = self.cursor.y;
        let pen = self.pen.clone_sgr_only();
        let start = self.erase_start(erase);
        let end = self.erase_end(erase);
        self.screen_mut().clear_line(cy, start, end, &pen);
        proof {
            let a = old(self)@.active().with_cleared(cy as int, start as int, end as int, pen);
            lemma_with_active_wf(old(self)@, a);
            assert(self@ == old(self)@.with_active(a));
        }
        self.clear_selection_if_intersects(start, end, cy);
    }

    fn delete_chars(&mut self, n: u32)
        requires
            old(self).wf(),
        ensures
            final(self)@ == old(self)@.chars_deleted(n),
            final(self).wf(),
    {
        proof {
            reveal(StateView::chars_deleted);
        }
        let y = self.cursor.y;
        let x = self.cursor.x;
        let limit = self.edit_limit(n);
        self.screen_mut().erase_cells(x, y, limit - x);
        proof {
            let a = old(self)@.active().with_erased_cells(x as int, y as int, limit - x);
            lemma_with_active_wf(old(self)@, a);
        }
        self.clear_selection_if_intersects(x, limit, y);
    }

    fn erase_chars(&mut self, n: u32)
        requires
            old(self).wf(),
        ensures
            final(self)@ == old(self)@.chars_erased(n),
            final(self).wf(),
    {
        proof {
            reveal(StateView::chars_erased);
        }
        let y = self.cursor.y;
        let x = self.cursor.x;
        let limit = self.edit_limit(n);
        let attrs = self.pen.clone_sgr_only();
        self.screen_mut().blank_cells(x, limit, y, attrs);
        proof {
            let a = old(self)@.active().with_cells(
                x as int,
                limit as int,
                y as int,
                crate::cell::CellView::blank(attrs),
            );
            lemma_with_active_wf(old(self)@, a);
            assert(self@ == old(self)@.with_active(a));
        }
        self.clear_selection_if_intersects(x, limit, y);
    }

    fn insert_chars(&mut self, n: u32)
        requires
            old(self).wf(),
        ensures
            final(self)@ == old(self)@.chars_inserted(n),
            final(self).wf(),
    {
        proof {
            reveal(StateView::chars_inserted);
        }
        let y = self.cursor.y;
        let x = self.cursor.x;
        let limit = self.edit_limit(n);
        self.screen_mut().insert_cells(x, limit, y);
        proof {
            let a = old(self)@.active().with_inserted_cells(x as int, limit as int, y as int);
            lemma_with_active_wf(old(self)@, a);
        }
        self.clear_selection_if_intersects(x, limit, y);
    }

    fn delete_lines(&mut self, n: u32)
        requires
            old(self).wf(),
        ensures
            final(self)@ == old(self)@.lines_deleted(n),
            final(self).wf(),
    {
        proof {
            reveal(StateView::lines_deleted);
        }
        let y = self.cursor.y;
        let bottom = self.scroll_bottom;
        if self.scroll_top <= y && y < bottom {
            self.scroll_region_up(y, bottom, n as usize);
            self.clear_selection_if_intersects_rows(y, bottom);
        }
    }

    fn insert_lines(&mut self, n: u32)
        requires
            old(self).wf(),
        ensures
            final(self)@ == old(self)@.lines_inserted(n),
            final(self).wf(),
    {
        proof {
            reveal(StateView::lines_inserted);
        }
        let y = self.cursor.y;
        let bottom = self.scroll_bottom;
        if self.scroll_top <= y && y < bottom {
            self.screen_mut().scroll_down(y, bottom, n as usize);
            proof {
                let a = old(self)@.active().scrolled_down(y as int, bottom as int, n as int);
                lemma_scrolled_down_shape(old(self)@.active(), y as int, bottom as int, n as int);
                lemma_with_active_wf(old(self)@, a);
            }
            self.clear_selection_if_intersects_rows(y, bottom);
        }
    }

    fn repeat(&mut self, n: u32)
        requires
            old(self).wf(),
        ensures
            final(self)@ == old(self)@.repeated(n),
            final(self).wf(),
    {
        proof {
            reveal(StateView::repeated);
        }
        let y = self.cursor.y;
        let x = self.cursor.x;
        let from = if x > 0 {
            x - 1
        } else {
            0
        };
        if from < self.screen.active().row_len(y) {
            self.screen_mut().repeat_cell(x, y, n as usize);
            proof {
                let a = old(self)@.active().with_repeated(x as int, y as int, n as int);
                lemma_with_active_wf(old(self)@, a);
                assert(self@ == old(self)@.with_active(a));
            }
            self.set_cursor_pos(Position::Relative(n as i64), Position::Relative(0));
        }
    }

    fn clear_selection_over_rows(&mut self, from: VisibleRowIndex, to: VisibleRowIndex)
        requires
            old(self).wf(),
        ensures
            final(self)@ == old(self)@.selection_cleared_over_rows(from as int, to as int),
            final(self).wf(),
    {
        let mut y = from;
        let mut gone = false;
        while y < to && !gone
            invariant
                self.wf(),
                gone ==> self@ == old(self)@.selection_cleared_over_rows(from as int, to as int),
                !gone ==> self@.selection_cleared_over_rows(y as int, to as int) == old(
                    self,
                )@.selection_cleared_over_rows(from as int, to as int),
            decreases to - y, if gone { 0int } else { 1int },
        {
            gone = self.clear_selection_if_intersects(0, usize::MAX, y);
            if !gone {
                y = y + 1;
            }
        }
    }

    fn erase_rows(&mut self, from: VisibleRowIndex, to: VisibleRowIndex)
        requires
            old(self).wf(),
            0 <= from,
            to <= old(self)@.rows(),
        ensures
            final(self)@ == old(self)@.rows_erased(from as int, to as int),
            final(self).wf(),
    {
        proof {
            reveal(StateView::rows_erased);
        }
        let pen = self.pen.clone_sgr_only();
        self.screen_mut().clear_rows(from, to, pen);
        proof {
            let a = old(self)@.active().with_rows_cleared(from as int, to as int, pen);
            lemma_with_active_wf(old(self)@, a);
        }
        self.clear_selection_over_rows(from, to);
    }

    /// Erases part of the screen.
    pub(crate) fn erase_in_display(&mut self, erase: EraseInDisplay)
        requires
            old(self).wf(),
        ensures
            final(self)@ == old(self)@.erased_in_display(erase),
            final(self).wf(),
    {
        let cy = self.cursor.y;
        let rows = self.screen.active().physical_rows as VisibleRowIndex;
        match erase {
            EraseInDisplay::EraseToEndOfDisplay => {
                self.erase_in_line(EraseInLine::EraseToEndOfLine);
                proof {
                    crate::model::lemma_erased_in_line_shape(old(self)@, EraseInLine::EraseToEndOfLine);
                }
                self.erase_rows(cy + 1, rows);
            },
            EraseInDisplay::EraseToStartOfDisplay => {
                self.erase_in_line(EraseInLine::EraseToStartOfLine);
                proof {
                    crate::model::lemma_erased_in_line_shape(
                        old(self)@,
                        EraseInLine::EraseToStartOfLine,
                    );
                }
                self.erase_rows(0, cy);
            },
            EraseInDisplay::EraseDisplay => {
                self.erase_rows(0, rows);
            },
            EraseInDisplay::EraseScrollback => {},
        }
    }

    /// Applies an editing operation.
    pub(crate) fn perform_csi_edit(&mut self, edit: Edit)
        requires
            old(self).wf(),
        ensures
            final(self)@ == old(self)@.edited(edit),
            final(self).wf(),
    {
        match edit {
            Edit::DeleteCharacter(n) => self.delete_chars(n),
            Edit::DeleteLine(n) => self.delete_lines(n),
            Edit::EraseCharacter(n) => self.erase_chars(n),
            Edit::EraseInLine(erase) => self.erase_in_line(erase),
            Edit::InsertCharacter(n) => self.insert_chars(n),
            Edit::InsertLine(n) => self.insert_lines(n),
            Edit::ScrollDown(n) => self.scroll_down(n as usize),
            Edit::ScrollUp(n) => self.scroll_up(n as usize),
            Edit::EraseInDisplay(erase) => self.erase_in_display(erase),
            Edit::Repeat(n) => self.repeat(n),
        }
    }
}

} // verus!
