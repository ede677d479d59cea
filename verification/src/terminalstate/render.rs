//! What a renderer reads: the text of the selection and the dirty lines.

use crate::line::append_text;
use crate::line::trim_end;
use crate::line::Line;
use crate::terminalstate::TerminalState;
use crate::text::string_of;
use std::ops::Range;
use vstd::prelude::*;

verus! {

impl TerminalState {
    fn selection_chars(&self) -> (text: Vec<char>)
        requires
            self.wf(),
        ensures
            text@ == self@.selection_text(),
    {
        let mut s: Vec<char> = Vec::new();
        match self.selection_range {
            Some(sel) => {
                let rows = sel.rows();
                let screen = self.screen.active();
                let mut y = rows.start;
                let mut last_was_wrapped = false;
                while y < rows.end
                    invariant
                        self.wf(),
                        screen@ == self@.active(),
                        rows.start <= y,
                        self@.text_rows(sel, y as int, rows.end as int, s@, last_was_wrapped)
                            == self@.selection_text(),
                        self@.selection_range == Some(sel),
                        rows.start == sel.first_row(),
                        rows.end == sel.rows_end(),
                    decreases rows.end - y,
                {
                    let idx = screen.scrollback_or_visible_row(y);
                    if idx < screen.lines.len() {
                        let cols = sel.cols_for_row(y);
                        let line = screen.line(idx);
                        if s.len() > 0 && !last_was_wrapped {
                            s.push('\n');
                        }
                        let mut part = line.columns_text(cols.start, cols.end);
                        trim_end(&mut part);
                        append_text(&mut s, &part);
                        let len = line.len();
                        if len == 0 || (cols.end == 0) {
                            last_was_wrapped = false;
                        } else {
                            let last = if cols.end < len {
                                cols.end - 1
                            } else {
                                len - 1
                            };
                            let cell = line.cell(last);
                            last_was_wrapped = cell.attrs().wrapped() && !cell.is_space();
                        }
                    }
                    y = y + 1;
                }
            },
            None => {},
        }
        s
    }

    /// The text of the selection: the text of each of its rows without the white space at
    /// the end, with a line feed between rows unless the row before it wrapped.
    pub fn get_selection_text(&self) -> (text: String)
        requires
            self.wf(),
        ensures
            text@ == self@.selection_text(),
    {
        string_of(&self.selection_chars())
    }

    /// Whether a row in view is dirty.
    pub fn has_dirty_lines(&self) -> (b: bool)
        requires
            self.wf(),
        ensures
            b == (self@.dirty_rows(self@.rows()).len() > 0),
    {
        self.get_dirty_lines().len() > 0
    }

    /// The rows in view that are dirty: for each its number counted from the top of the
    /// viewport, its line, and the columns of it that are selected.
    pub fn get_dirty_lines(&self) -> (res: Vec<(usize, &Line, Range<usize>)>)
        requires
            self.wf(),
        ensures
            res@.len() == self@.dirty_rows(self@.rows()).len(),
            forall|k: int|
                0 <= k < res@.len() ==> {
                    let row = #[trigger] self@.dirty_rows(self@.rows())[k];
                    &&& res@[k].0 == row
                    &&& res@[k].1@ == self@.active().lines[self@.shown_index(row)]
                    &&& res@[k].2.start == self@.selected_start(row)
                    &&& res@[k].2.end == self@.selected_end(row)
                },
    {
        let mut res: Vec<(usize, &Line, Range<usize>)> = Vec::new();
        let screen = self.screen.active();
        let height = screen.physical_rows;
        let top = screen.lines.len() - height - self.viewport_offset as usize;
        let mut i: usize = 0;
        while i < height
            invariant
                i <= height,
                self.wf(),
                height == self@.rows(),
                screen@ == self@.active(),
                top == self@.shown_index(0),
                res@.len() == self@.dirty_rows(i as int).len(),
                forall|k: int|
                    0 <= k < res@.len() ==> {
                        let row = #[trigger] self@.dirty_rows(i as int)[k];
                        &&& res@[k].0 == row
                        &&& res@[k].1@ == self@.active().lines[self@.shown_index(row)]
                        &&& res@[k].2.start == self@.selected_start(row)
                        &&& res@[k].2.end == self@.selected_end(row)
                    },
            decreases height - i,
        {
            let line = screen.line(top + i);
            if line.is_dirty() {
                let selrange = match self.selection_range {
                    None => 0..0,
                    Some(sel) => sel.cols_for_row(i as i64 - self.viewport_offset),
                };
                let ghost before = res@;
                res.push((i, line, selrange));
                proof {
                    let rows = self@.dirty_rows(i + 1);
                    assert(rows == self@.dirty_rows(i as int).push(i as int));
                    assert forall|k: int| 0 <= k < res@.len() implies {
                        let row = #[trigger] rows[k];
                        &&& res@[k].0 == row
                        &&& res@[k].1@ == self@.active().lines[self@.shown_index(row)]
                        &&& res@[k].2.start == self@.selected_start(row)
                        &&& res@[k].2.end == self@.selected_end(row)
                    } by {
                        if k < before.len() {
                            assert(rows[k] == self@.dirty_rows(i as int)[k]);
                            assert(res@[k] == before[k]);
                        }
                    }
                }
            }
            i = i + 1;
        }
        res
    }
}

} // verus!
