//! Printing text: one cell for each grapheme cluster.

use crate::cell::Cell;
use crate::engine::line_drawing_char;
use crate::engine::shown_grapheme;
use crate::engine::Cluster;
use crate::model::lemma_with_active_wf;
use crate::model::CursorPosition;
use crate::model::StateView;
use crate::terminalstate::TerminalState;
use crate::text::copy_text;
use crate::text::display_width;
use crate::text::split_graphemes;
use crate::views::views;
use vstd::prelude::*;

verus! {

/// The character of the DEC line drawing set that a letter stands for.
pub fn line_drawing(c: char) -> (d: char)
    ensures
        d == line_drawing_char(c),
{
    match c {
        'j' => '\u{2518}',
        'k' => '\u{2510}',
        'l' => '\u{250c}',
        'm' => '\u{2514}',
        'n' => '\u{253c}',
        'q' => '\u{2500}',
        't' => '\u{251c}',
        'u' => '\u{2524}',
        'v' => '\u{2534}',
        'w' => '\u{252c}',
        'x' => '\u{2502}',
        _ => c,
    }
}

/// The grapheme that is shown for `g`.
pub fn shown(g: &Vec<char>, drawing: bool) -> (s: Vec<char>)
    ensures
        s@ == shown_grapheme(g@, drawing),
{
    if drawing && g.len() == 1 {
        let mut s: Vec<char> = Vec::new();
        s.push(line_drawing(g[0]));
        assert(s@ =~= seq![line_drawing_char(g@[0])]);
        s
    } else {
        copy_text(g)
    }
}

impl TerminalState {
    fn wrap_if_due(&mut self)
        requires
            old(self).wf(),
        ensures
            final(self)@ == old(self)@.wrapped_if_due(),
            final(self).wf(),
    {
        if !self.modes.insert && self.wrap_next {
            self.new_line(true);
        }
    }

    fn cluster_cell(&self, g: &Vec<char>, width: usize) -> (cell: Cell)
        requires
            self.wf(),
        ensures
            cell@ == self@.cluster_cell(g@, width),
    {
        let w: usize = if width > 1 {
            2
        } else {
            1
        };
        let mut pen = self.pen;
        if !self.modes.insert && self.cursor.x + w >= self.screen.active().physical_cols {
            pen.set_wrapped(true);
        }
        Cell::with_width(g, width, pen)
    }

    fn write_cluster(&mut self, g: &Vec<char>, width: usize)
        requires
            old(self).wf(),
        ensures
            final(self)@ == old(self)@.cluster_written(g@, width),
            final(self).wf(),
            final(self)@.cursor == old(self)@.cursor,
            final(self)@.cols() == old(self)@.cols(),
    {
        proof {
            reveal(StateView::cluster_written);
            reveal(StateView::cleared_if_intersects);
        }
        let w: usize = if width > 1 {
            2
        } else {
            1
        };
        let x = self.cursor.x;
        let y = self.cursor.y;
        let cell = self.cluster_cell(g, width);
        let insert = self.modes.insert;
        let screen = self.screen_mut();
        if insert {
            screen.insert_cells_at(x, y, w);
        }
        screen.set_cell(x, y, &cell);
        let ghost a = screen@;
        proof {
            lemma_with_active_wf(old(self)@, a);
        }
        self.clear_selection_if_intersects(x, x + w, y);
    }

    fn advance_cursor(&mut self, width: usize, Ghost(before): Ghost<StateView>)
        requires
            old(self).wf(),
            before.wf(),
            1 <= width <= 2,
            before.cursor == old(self)@.cursor,
            before.cols() == old(self)@.cols(),
        ensures
            final(self)@ == old(self)@.advanced(width as int, before),
            final(self).wf(),
    {
        proof {
            reveal(StateView::advanced);
        }
        if self.cursor.x + width < self.screen.active().physical_cols {
            self.cursor = CursorPosition { x: self.cursor.x + width, y: self.cursor.y };
            self.wrap_next = false;
        } else {
            self.wrap_next = true;
        }
    }

    /// Prints one grapheme cluster of the given width at the cursor: the pending wrap is
    /// carried out first unless cells are being inserted, the cluster is written as one
    /// cell with the pen's attributes, and the cursor moves on by the width or, at the right
    /// edge, stays with the wrap put off.
    pub fn print_cluster_as(&mut self, g: &Vec<char>, width: usize)
        requires
            old(self).wf(),
        ensures
            final(self)@ == old(self)@.cluster_printed_as(g@, width),
            final(self).wf(),
    {
        let text = shown(g, self.modes.dec_line_drawing_mode);
        self.wrap_if_due();
        let ghost ready = self@;
        self.write_cluster(&text, width);
        let w: usize = if width > 1 {
            2
        } else {
            1
        };
        self.advance_cursor(w, Ghost(ready));
    }

    /// Prints one grapheme cluster at the cursor, as wide as what is shown for it is
    /// measured to be.
    pub fn print_cluster(&mut self, g: &Vec<char>)
        requires
            old(self).wf(),
        ensures
            final(self)@ == old(self)@.cluster_printed(g@),
            final(self).wf(),
    {
        let text = shown(g, self.modes.dec_line_drawing_mode);
        let width = display_width(&text);
        self.print_cluster_as(g, width);
    }

    /// Prints clusters with the widths given for them, one after the other.
    pub fn print_clusters(&mut self, clusters: &Vec<Cluster>)
        requires
            old(self).wf(),
        ensures
            final(self)@ == old(self)@.clusters_printed_as(
                views(clusters@),
                clusters@.len() as int,
            ),
            final(self).wf(),
    {
        let mut i: usize = 0;
        while i < clusters.len()
            invariant
                i <= clusters.len(),
                self.wf(),
                self@ == old(self)@.clusters_printed_as(views(clusters@), i as int),
            decreases clusters.len() - i,
        {
            assert(views(clusters@)[i as int] == clusters@[i as int]@);
            self.print_cluster_as(&clusters[i].text, clusters[i].width);
            i = i + 1;
        }
    }

    /// Prints a run of text: the text is split into grapheme clusters, and each is printed
    /// at the cursor.
    pub fn print_text(&mut self, text: &Vec<char>)
        requires
            old(self).wf(),
        ensures
            final(self)@ == old(self)@.text_printed(text@),
            final(self).wf(),
    {
        let clusters = split_graphemes(text);
        let ghost all = views(clusters@);
        let mut i: usize = 0;
        while i < clusters.len()
            invariant
                i <= clusters.len(),
                all == views(clusters@),
                self.wf(),
                self@ == old(self)@.clusters_printed(all, i as int),
            decreases clusters.len() - i,
        {
            assert(all[i as int] == clusters@[i as int]@);
            self.print_cluster(&clusters[i]);
            i = i + 1;
        }
    }
}

} // verus!
