//! What a renderer asks of a terminal.

use crate::hyperlink::Hyperlink;
use crate::line::Line;
use crate::model::CursorPosition;
use crate::terminal::Terminal;
use std::ops::Range;
use vstd::prelude::*;

verus! {

/// Something that can be rendered as a terminal: a terminal itself, or what stands for one
/// that runs elsewhere.
pub trait Renderable {
    /// Whether the surface is fit to be asked.
    spec fn ready(&self) -> bool;

    /// The cursor, counted from the top left of the viewport.
    fn get_cursor_position(&self) -> CursorPosition
        requires
            self.ready(),
    ;

    /// The rows in view that are dirty: for each its number counted from the top of the
    /// viewport, a copy of its line, and the columns of it that are selected.
    fn get_dirty_lines(&self) -> Vec<(usize, Line, Range<usize>)>
        requires
            self.ready(),
    ;

    /// Whether a row in view is dirty.
    fn has_dirty_lines(&self) -> bool
        requires
            self.ready(),
    ;

    /// Marks every line dirty, for a full repaint.
    fn make_all_lines_dirty(&mut self)
        requires
            old(self).ready(),
        ensures
            final(self).ready(),
    ;

    /// Clears the dirty flag of every line.
    fn clean_dirty_lines(&mut self)
        requires
            old(self).ready(),
        ensures
            final(self).ready(),
    ;

    /// The link under the mouse, if there is one.
    fn current_highlight(&self) -> Option<Hyperlink>
        requires
            self.ready(),
    ;

    /// The rows and columns of the screen, scrollback not counted.
    fn physical_dimensions(&self) -> (usize, usize)
        requires
            self.ready(),
    ;
}

impl Renderable for Terminal {
    open spec fn ready(&self) -> bool {
        self.wf()
    }

    fn get_cursor_position(&self) -> (pos: CursorPosition)
        ensures
            pos == self@.state.shown_cursor(),
    {
        self.state().cursor_pos()
    }

    fn get_dirty_lines(&self) -> (res: Vec<(usize, Line, Range<usize>)>)
        ensures
            res@.len() == self@.state.dirty_rows(self@.state.rows()).len(),
            forall|k: int|
                0 <= k < res@.len() ==> {
                    let row = #[trigger] self@.state.dirty_rows(self@.state.rows())[k];
                    &&& res@[k].0 == row
                    &&& res@[k].1@ == self@.state.active().lines[self@.state.shown_index(row)]
                    &&& res@[k].2.start == self@.state.selected_start(row)
                    &&& res@[k].2.end == self@.state.selected_end(row)
                },
    {
        let lines = self.state().get_dirty_lines();
        let mut res: Vec<(usize, Line, Range<usize>)> = Vec::new();
        let mut i: usize = 0;
        while i < lines.len()
            invariant
                i <= lines.len(),
                res@.len() == i,
                forall|k: int|
                    0 <= k < i ==> {
                        &&& (#[trigger] res@[k]).0 == lines@[k].0
                        &&& res@[k].1@ == lines@[k].1@
                        &&& res@[k].2.start == lines@[k].2.start
                        &&& res@[k].2.end == lines@[k].2.end
                    },
            decreases lines.len() - i,
        {
            let entry = &lines[i];
            res.push((entry.0, entry.1.duplicate(), entry.2.start..entry.2.end));
            i = i + 1;
        }
        res
    }

    fn has_dirty_lines(&self) -> (b: bool)
        ensures
            b == (self@.state.dirty_rows(self@.state.rows()).len() > 0),
    {
        self.state().has_dirty_lines()
    }

    fn make_all_lines_dirty(&mut self)
        ensures
            final(self)@.state == old(self)@.state.all_lines_marked(true),
            final(self)@.history == old(self)@.history,
    {
        self.state_mut().make_all_lines_dirty();
    }

    fn clean_dirty_lines(&mut self)
        ensures
            final(self)@.state == old(self)@.state.all_lines_marked(false),
            final(self)@.history == old(self)@.history,
    {
        self.state_mut().clean_dirty_lines();
    }

    fn current_highlight(&self) -> (link: Option<Hyperlink>)
        ensures
            link is Some == (self@.state.current_highlight matches Some(id) && id.index
                < self@.state.links.len()),
            link matches Some(l) ==> l@ == self@.state.links[self@.state.current_highlight.unwrap().index as int],
    {
        self.state().current_highlight()
    }

    fn physical_dimensions(&self) -> (dims: (usize, usize))
        ensures
            dims.0 == self@.state.rows(),
            dims.1 == self@.state.cols(),
    {
        self.state().physical_dimensions()
    }
}

} // verus!
