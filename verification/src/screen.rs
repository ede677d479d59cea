//! The screen: scrollback followed by the visible rows.

use crate::cell::Cell;
use crate::cell::CellAttributes;
use crate::cell::CellView;
use crate::hyperlink::FoundLink;
use crate::line::Line;
use crate::line::LineView;
use crate::line::MAX_COLUMN;
use crate::views::lemma_views_insert;
use crate::views::lemma_views_push;
use crate::views::lemma_views_remove;
use crate::views::lemma_views_update;
use crate::views::views;
use vstd::prelude::*;

verus! {

/// A row of the visible screen, counted from its top.
pub type VisibleRowIndex = i64;

/// A row counted from the top of the visible screen; rows of the scrollback are negative.
pub type ScrollbackOrVisibleRowIndex = i64;

/// An index into the lines a screen holds, scrollback included.
pub type PhysRowIndex = usize;

/// The largest number of rows, of columns and of scrollback lines a screen can have.
pub const MAX_DIMENSION: usize = 0x3fff_ffff;

/// The largest number of lines a screen holds, scrollback included.
pub const MAX_LINES: usize = 0x7fff_ffff;

/// What a screen is.
pub struct ScreenView {
    pub lines: Seq<LineView>,
    pub scrollback_size: usize,
    pub physical_rows: usize,
    pub physical_cols: usize,
}

/// `n` fresh lines of `width` columns.
pub open spec fn fresh_lines(n: int, width: int) -> Seq<LineView> {
    Seq::new(if n >= 0 { n as nat } else { 0 }, |i: int| LineView::with_width(width))
}

/// The lines with those from `from` up to `to` marked dirty.
pub open spec fn dirtied(lines: Seq<LineView>, from: int, to: int) -> Seq<LineView> {
    Seq::new(
        lines.len(),
        |i: int|
            if from <= i < to {
                lines[i].marked_dirty()
            } else {
                lines[i]
            },
    )
}

/// The lines with every line's dirty flag set to `dirty`.
pub open spec fn all_marked(lines: Seq<LineView>, dirty: bool) -> Seq<LineView> {
    Seq::new(lines.len(), |i: int| LineView { dirty, ..lines[i] })
}

/// The lines with the dirty flag of the first `upto` set to `dirty`.
pub open spec fn marked_prefix(lines: Seq<LineView>, dirty: bool, upto: int) -> Seq<LineView> {
    Seq::new(
        lines.len(),
        |i: int|
            if i < upto {
                LineView { dirty, ..lines[i] }
            } else {
                lines[i]
            },
    )
}

/// The lines with the first `upto` cut or padded to `width` columns.
pub open spec fn resized_prefix(lines: Seq<LineView>, width: int, upto: int) -> Seq<LineView> {
    Seq::new(
        lines.len(),
        |i: int|
            if i < upto {
                lines[i].resized(width)
            } else {
                lines[i]
            },
    )
}

/// The lines with those among the first `upto` that hold a link marked dirty.
pub open spec fn links_dirtied(lines: Seq<LineView>, upto: int) -> Seq<LineView> {
    Seq::new(
        lines.len(),
        |i: int|
            if i < upto && lines[i].links_present() {
                lines[i].marked_dirty()
            } else {
                lines[i]
            },
    )
}

/// The lines, each cut or padded to `width` columns.
pub open spec fn all_resized(lines: Seq<LineView>, width: int) -> Seq<LineView> {
    Seq::new(lines.len(), |i: int| lines[i].resized(width))
}

impl ScreenView {
    /// The dimensions are within bounds, the visible rows are all there and the lines are
    /// no more than a screen can hold.
    pub open spec fn wf(self) -> bool {
        &&& 1 <= self.physical_rows <= MAX_DIMENSION
        &&& 1 <= self.physical_cols <= MAX_DIMENSION
        &&& self.scrollback_size <= MAX_DIMENSION
        &&& self.physical_rows <= self.lines.len() <= MAX_LINES
    }

    /// The number of scrollback lines: the index of the first visible row.
    pub open spec fn base(self) -> int {
        self.lines.len() - self.physical_rows
    }

    /// The most lines the screen holds.
    pub open spec fn capacity(self) -> int {
        self.physical_rows + self.scrollback_size
    }

    /// A screen of fresh lines.
    pub open spec fn blank(rows: usize, cols: usize, scrollback: usize) -> ScreenView {
        ScreenView {
            lines: fresh_lines(rows as int, cols as int),
            scrollback_size: scrollback,
            physical_rows: rows,
            physical_cols: cols,
        }
    }

    /// The index of the line that shows visible or scrollback row `row`: never before the
    /// first line, never past the end.
    pub open spec fn row_index(self, row: int) -> int {
        let v = self.base() + row;
        if v < 0 {
            0
        } else if v > self.lines.len() {
            self.lines.len() as int
        } else {
            v
        }
    }

    /// The screen with its lines replaced.
    pub open spec fn with_lines(self, lines: Seq<LineView>) -> ScreenView {
        ScreenView { lines, ..self }
    }

    /// The screen with the line of visible row `y` replaced.
    pub open spec fn with_row(self, y: int, line: LineView) -> ScreenView {
        self.with_lines(self.lines.update(self.base() + y, line))
    }

    /// The line of visible row `y`.
    pub open spec fn row(self, y: int) -> LineView {
        self.lines[self.base() + y]
    }

    /// The screen resized: lines are added at the bottom when it grows taller, every line
    /// takes the new width, and the lines it held stay, scrollback included, in their
    /// order. Only where the lines would be more than a screen can hold do the oldest leave.
    #[verifier::opaque]
    pub open spec fn resized(self, rows: usize, cols: usize) -> ScreenView {
        let grown = self.lines + fresh_lines(rows - self.physical_rows, cols as int);
        let kept = if grown.len() > MAX_LINES {
            grown.subrange(grown.len() - MAX_LINES, grown.len() as int)
        } else {
            grown
        };
        ScreenView {
            lines: all_resized(kept, cols as int),
            physical_rows: rows,
            physical_cols: cols,
            ..self
        }
    }

    /// The screen with visible row `y` marked dirty, if there is such a row.
    #[verifier::opaque]
    pub open spec fn row_dirtied(self, y: int) -> ScreenView {
        if 0 <= y < self.physical_rows {
            self.with_row(y, self.row(y).marked_dirty())
        } else {
            self
        }
    }

    /// The screen after `cell` is written at column `x` of row `y`.
    #[verifier::opaque]
    pub open spec fn with_cell(self, x: int, y: int, cell: CellView) -> ScreenView {
        self.with_row(y, self.row(y).with_cell(x, cell))
    }

    /// A plain blank is inserted at column `x` of row `y`; what is pushed past the right edge
    /// is cut off.
    #[verifier::opaque]
    pub open spec fn with_inserted_cell(self, x: int, y: int) -> ScreenView {
        let line = self.row(y).with_inserted(x, CellView::blank(CellAttributes::plain()));
        self.with_row(
            y,
            if line.cells.len() > self.physical_cols {
                line.resized(self.physical_cols as int)
            } else {
                line
            },
        )
    }

    /// The screen after the cell at column `x` of row `y` is removed.
    #[verifier::opaque]
    pub open spec fn with_erased_cell(self, x: int, y: int) -> ScreenView {
        self.with_row(y, self.row(y).with_erased(x))
    }

    /// Columns `start` up to `end` of row `y` are cleared to blanks that have `attrs`: a
    /// range that covers the line makes it a line of as many such blanks as the screen is
    /// wide, any other range is filled with them. The line is marked dirty even where
    /// nothing is left to clear.
    #[verifier::opaque]
    pub open spec fn with_cleared(self, y: int, start: int, end: int, attrs: CellAttributes) -> ScreenView {
        let line = self.row(y);
        self.with_row(
            y,
            if start == 0 && end >= line.cells.len() {
                LineView::cleared(self.physical_cols as int, attrs)
            } else {
                line.filled(start, end, line.cells.len() as int, CellView::blank(attrs)).marked_dirty()
            },
        )
    }

    /// The cell at column `x` of row `y` is removed `count` times over.
    pub open spec fn with_erased_cells(self, x: int, y: int, count: int) -> ScreenView
        decreases count,
    {
        if count <= 0 {
            self
        } else {
            self.with_erased_cells(x, y, count - 1).with_erased_cell(x, y)
        }
    }

    /// A plain blank is inserted at each column of row `y` from `x` up to `end`, in turn.
    pub open spec fn with_inserted_cells(self, x: int, end: int, y: int) -> ScreenView
        decreases end - x,
    {
        if end <= x {
            self
        } else {
            self.with_inserted_cells(x, end - 1, y).with_inserted_cell(end - 1, y)
        }
    }

    /// A plain blank is inserted at column `x` of row `y`, `count` times over.
    pub open spec fn with_inserted_cells_at(self, x: int, y: int, count: int) -> ScreenView
        decreases count,
    {
        if count <= 0 {
            self
        } else {
            self.with_inserted_cells_at(x, y, count - 1).with_inserted_cell(x, y)
        }
    }

    /// `cell` is written at each column of row `y` from `x` up to `end`.
    pub open spec fn with_cells(self, x: int, end: int, y: int, cell: CellView) -> ScreenView
        decreases end - x,
    {
        if end <= x {
            self
        } else {
            self.with_cells(x, end - 1, y, cell).with_cell(end - 1, y, cell)
        }
    }

    /// Each row from `from` up to `to` becomes a line of blanks that have `attrs`.
    pub open spec fn with_rows_cleared(self, from: int, to: int, attrs: CellAttributes) -> ScreenView
        decreases to - from,
    {
        if to <= from {
            self
        } else {
            self.with_rows_cleared(from, to - 1, attrs).with_row(
                to - 1,
                LineView::cleared(self.physical_cols as int, attrs),
            )
        }
    }

    /// The cell before the cursor's column `x` in row `y` is written again at each column
    /// from `x` up to and with `x + n`, as far as the line reaches; `n` counts up to the
    /// largest column index.
    #[verifier::opaque]
    pub open spec fn with_repeated(self, x: int, y: int, n: int) -> ScreenView {
        let line = self.row(y);
        let from = if x > 0 {
            x - 1
        } else {
            0
        };
        let count = if n > MAX_COLUMN {
            MAX_COLUMN as int
        } else {
            n
        };
        if from < line.cells.len() {
            self.with_row(
                y,
                line.filled(x, x + count + 1, line.cells.len() as int, line.cells[from]),
            )
        } else {
            self
        }
    }

    /// The number of rows a scroll of `n` rows moves within a region of visible rows.
    pub open spec fn scroll_count(start: int, end: int, n: int) -> int {
        if n < end - start {
            n
        } else {
            end - start
        }
    }

    /// The region of visible rows from `start` up to `end` scrolls up by `n` rows. Its rows
    /// are marked dirty and fresh lines come in at its bottom. Rows that leave a region which
    /// is the whole screen stay as scrollback, so many of the oldest lines leaving that the
    /// capacity is kept; rows that leave any other region are dropped.
    #[verifier::opaque]
    pub open spec fn scrolled_up(self, start: int, end: int, n: int) -> ScreenView {
        let count = ScreenView::scroll_count(start, end, n);
        let s = self.base() + start;
        let e = self.base() + end;
        let marked = dirtied(self.lines, s, e);
        let fresh = fresh_lines(count, self.physical_cols as int);
        if start > 0 || end < self.physical_rows {
            self.with_lines(
                marked.subrange(0, s) + marked.subrange(s + count, e) + fresh + marked.subrange(
                    e,
                    marked.len() as int,
                ),
            )
        } else {
            let over = self.lines.len() + count - self.capacity();
            let removed = if over > 0 {
                over
            } else {
                0
            };
            self.with_lines(
                marked.subrange(removed, e) + fresh + marked.subrange(e, marked.len() as int),
            )
        }
    }

    /// The region of visible rows from `start` up to `end` scrolls down by `n` rows: the rows
    /// that stay are marked dirty, fresh lines come in at its top and its last rows are
    /// dropped.
    #[verifier::opaque]
    pub open spec fn scrolled_down(self, start: int, end: int, n: int) -> ScreenView {
        let count = ScreenView::scroll_count(start, end, n);
        let s = self.base() + start;
        let e = self.base() + end;
        let marked = dirtied(self.lines, s, e - count);
        let fresh = fresh_lines(count, self.physical_cols as int);
        self.with_lines(
            marked.subrange(0, s) + fresh + marked.subrange(s, e - count) + marked.subrange(
                e,
                marked.len() as int,
            ),
        )
    }
}

/// The primary or the alternate screen of a terminal.
#[derive(Debug)]
pub struct Screen {
    pub lines: Vec<Line>,
    pub scrollback_size: usize,
    pub physical_rows: usize,
    pub physical_cols: usize,
}

impl View for Screen {
    type V = ScreenView;

    open spec fn view(&self) -> ScreenView {
        ScreenView {
            lines: views(self.lines@),
            scrollback_size: self.scrollback_size,
            physical_rows: self.physical_rows,
            physical_cols: self.physical_cols,
        }
    }
}

impl Screen {
    /// The screen is well formed.
    pub open spec fn wf(&self) -> bool {
        self@.wf()
    }

    /// A screen of fresh lines.
    pub fn new(physical_rows: usize, physical_cols: usize, scrollback_size: usize) -> (screen: Screen)
        requires
            1 <= physical_rows <= MAX_DIMENSION,
            1 <= physical_cols <= MAX_DIMENSION,
            scrollback_size <= MAX_DIMENSION,
        ensures
            screen@ == ScreenView::blank(physical_rows, physical_cols, scrollback_size),
            screen.wf(),
    {
        let mut lines: Vec<Line> = Vec::new();
        let mut i: usize = 0;
        while i < physical_rows
            invariant
                i <= physical_rows,
                views(lines@) == fresh_lines(i as int, physical_cols as int),
            decreases physical_rows - i,
        {
            let line = Line::with_width(physical_cols);
            proof {
                lemma_views_push(lines@, line);
            }
            let ghost before = views(lines@);
            lines.push(line);
            assert(before.push(LineView::with_width(physical_cols as int)) =~= fresh_lines(
                i + 1,
                physical_cols as int,
            ));
            i = i + 1;
        }
        Screen { lines, scrollback_size, physical_rows, physical_cols }
    }

    /// The index of the line that shows visible row `row`.
    pub fn phys_row(&self, row: VisibleRowIndex) -> (idx: PhysRowIndex)
        requires
            self.wf(),
            0 <= row < self@.physical_rows,
        ensures
            idx == self@.base() + row,
            idx < self@.lines.len(),
    {
        (self.lines.len() - self.physical_rows) + row as usize
    }

    /// The index of the line that shows visible or scrollback row `row`: never before the
    /// first line, never past the end.
    pub fn scrollback_or_visible_row(&self, row: ScrollbackOrVisibleRowIndex) -> (idx: PhysRowIndex)
        requires
            self.wf(),
        ensures
            idx == self@.row_index(row as int),
            idx <= self@.lines.len(),
    {
        let len = self.lines.len();
        let base = (len - self.physical_rows) as i64;
        if row < -base {
            0
        } else if row > self.physical_rows as i64 {
            len
        } else {
            (base + row) as usize
        }
    }

    /// The line at index `idx`.
    pub fn line(&self, idx: PhysRowIndex) -> (line: &Line)
        requires
            idx < self@.lines.len(),
        ensures
            line@ == self@.lines[idx as int],
    {
        &self.lines[idx]
    }

    /// Marks the line of visible row `y` dirty, if there is such a row.
    pub fn dirty_line(&mut self, y: VisibleRowIndex)
        requires
            old(self).wf(),
        ensures
            final(self)@ == old(self)@.row_dirtied(y as int),
            final(self).wf(),
            final(self)@.lines.len() == old(self)@.lines.len(),
            final(self)@.physical_rows == old(self)@.physical_rows,
            final(self)@.physical_cols == old(self)@.physical_cols,
            final(self)@.scrollback_size == old(self)@.scrollback_size,
    {
        proof {
            reveal(ScreenView::row_dirtied);
        }
        if 0 <= y && y < self.physical_rows as i64 {
            let idx = self.phys_row(y);
            self.lines[idx].set_dirty();
            proof {
                lemma_views_update(old(self).lines@, idx as int, self.lines@[idx as int]);
            }
        }
    }

    /// Writes a copy of `cell` at column `x` of visible row `y`.
    pub fn set_cell(&mut self, x: usize, y: VisibleRowIndex, cell: &Cell)
        requires
            old(self).wf(),
            0 <= y < old(self)@.physical_rows,
            x <= MAX_COLUMN,
        ensures
            final(self)@ == old(self)@.with_cell(x as int, y as int, cell@),
            final(self).wf(),
            final(self)@.lines.len() == old(self)@.lines.len(),
            final(self)@.physical_rows == old(self)@.physical_rows,
            final(self)@.physical_cols == old(self)@.physical_cols,
            final(self)@.scrollback_size == old(self)@.scrollback_size,
    {
        proof {
            reveal(ScreenView::with_cell);
        }
        let idx = self.phys_row(y);
        self.lines[idx].set_cell(x, cell.duplicate());
        proof {
            lemma_views_update(old(self).lines@, idx as int, self.lines@[idx as int]);
        }
    }

    /// Inserts a plain blank at column `x` of visible row `y`; what is pushed past the right
    /// edge is cut off.
    pub fn insert_cell(&mut self, x: usize, y: VisibleRowIndex)
        requires
            old(self).wf(),
            0 <= y < old(self)@.physical_rows,
        ensures
            final(self)@ == old(self)@.with_inserted_cell(x as int, y as int),
            final(self).wf(),
            final(self)@.lines.len() == old(self)@.lines.len(),
            final(self)@.physical_rows == old(self)@.physical_rows,
            final(self)@.physical_cols == old(self)@.physical_cols,
            final(self)@.scrollback_size == old(self)@.scrollback_size,
    {
        proof {
            reveal(ScreenView::with_inserted_cell);
        }
        let cols = self.physical_cols;
        let idx = self.phys_row(y);
        let line = &mut self.lines[idx];
        line.insert_cell(x, Cell::blank(CellAttributes::new()));
        if line.len() > cols {
            line.resize(cols);
        }
        proof {
            lemma_views_update(old(self).lines@, idx as int, self.lines@[idx as int]);
        }
    }

    /// Removes the cell at column `x` of visible row `y`.
    pub fn erase_cell(&mut self, x: usize, y: VisibleRowIndex)
        requires
            old(self).wf(),
            0 <= y < old(self)@.physical_rows,
        ensures
            final(self)@ == old(self)@.with_erased_cell(x as int, y as int),
            final(self).wf(),
            final(self)@.lines.len() == old(self)@.lines.len(),
            final(self)@.physical_rows == old(self)@.physical_rows,
            final(self)@.physical_cols == old(self)@.physical_cols,
            final(self)@.scrollback_size == old(self)@.scrollback_size,
    {
        proof {
            reveal(ScreenView::with_erased_cell);
        }
        let idx = self.phys_row(y);
        self.lines[idx].erase_cell(x);
        proof {
            lemma_views_update(old(self).lines@, idx as int, self.lines@[idx as int]);
        }
    }

    /// Clears columns `start` up to `end` of visible row `y`.
    pub fn clear_line(&mut self, y: VisibleRowIndex, start: usize, end: usize, attrs: &CellAttributes)
        requires
            old(self).wf(),
            0 <= y < old(self)@.physical_rows,
        ensures
            final(self)@ == old(self)@.with_cleared(y as int, start as int, end as int, *attrs),
            final(self).wf(),
            final(self)@.lines.len() == old(self)@.lines.len(),
            final(self)@.physical_rows == old(self)@.physical_rows,
            final(self)@.physical_cols == old(self)@.physical_cols,
            final(self)@.scrollback_size == old(self)@.scrollback_size,
    {
        proof {
            reveal(ScreenView::with_cleared);
        }
        let cols = self.physical_cols;
        let idx = self.phys_row(y);
        let line = &mut self.lines[idx];
        if start == 0 && end >= line.len() {
            line.resize_and_clear(cols, *attrs);
        } else {
            line.fill_range(start, end, &Cell::blank(*attrs));
            line.set_dirty();
        }
        proof {
            lemma_views_update(old(self).lines@, idx as int, self.lines@[idx as int]);
        }
    }

    /// Marks the lines from index `from` up to `to` dirty.
    pub fn dirty_range(&mut self, from: usize, to: usize)
        requires
            from <= to <= old(self)@.lines.len(),
        ensures
            final(self)@ == old(self)@.with_lines(dirtied(old(self)@.lines, from as int, to as int)),
    {
        let mut i = from;
        assert(old(self)@.lines =~= dirtied(old(self)@.lines, from as int, from as int));
        while i < to
            invariant
                from <= i <= to <= self.lines.len(),
                self.lines.len() == old(self).lines.len(),
                self@ == old(self)@.with_lines(dirtied(old(self)@.lines, from as int, i as int)),
            decreases to - i,
        {
            let ghost before = self.lines@;
            self.lines[i].set_dirty();
            proof {
                lemma_views_update(before, i as int, self.lines@[i as int]);
                assert(self.lines@ == before.update(i as int, self.lines@[i as int]));
                assert(views(before) == dirtied(old(self)@.lines, from as int, i as int));
                assert(views(before)[i as int] == old(self)@.lines[i as int]);
                assert(views(self.lines@) =~= dirtied(old(self)@.lines, from as int, i + 1));
            }
            i = i + 1;
        }
    }

    fn remove_lines(&mut self, at: usize, count: usize)
        requires
            at + count <= old(self)@.lines.len(),
        ensures
            final(self)@ == old(self)@.with_lines(
                old(self)@.lines.subrange(0, at as int) + old(self)@.lines.subrange(
                    at + count,
                    old(self)@.lines.len() as int,
                ),
            ),
    {
        let mut k: usize = 0;
        assert(old(self)@.lines =~= old(self)@.lines.subrange(0, at as int) + old(self)@.lines.subrange(
            at as int,
            old(self)@.lines.len() as int,
        ));
        while k < count
            invariant
                k <= count,
                at + count <= old(self)@.lines.len(),
                self.lines.len() == old(self).lines.len() - k,
                self@ == old(self)@.with_lines(
                    old(self)@.lines.subrange(0, at as int) + old(self)@.lines.subrange(
                        at + k,
                        old(self)@.lines.len() as int,
                    ),
                ),
            decreases count - k,
        {
            let ghost before = self.lines@;
            proof {
                lemma_views_remove(before, at as int);
            }
            self.lines.remove(at);
            assert(views(self.lines@) =~= old(self)@.lines.subrange(0, at as int) + old(
                self,
            )@.lines.subrange(at + k + 1, old(self)@.lines.len() as int));
            k = k + 1;
        }
    }

    fn insert_fresh(&mut self, at: usize, count: usize)
        requires
            at <= old(self)@.lines.len(),
        ensures
            final(self)@ == old(self)@.with_lines(
                old(self)@.lines.subrange(0, at as int) + fresh_lines(
                    count as int,
                    old(self)@.physical_cols as int,
                ) + old(self)@.lines.subrange(at as int, old(self)@.lines.len() as int),
            ),
    {
        let mut k: usize = 0;
        assert(old(self)@.lines =~= old(self)@.lines.subrange(0, at as int) + fresh_lines(
            0,
            old(self)@.physical_cols as int,
        ) + old(self)@.lines.subrange(at as int, old(self)@.lines.len() as int));
        while k < count
            invariant
                k <= count,
                at <= old(self)@.lines.len(),
                self.lines.len() == old(self).lines.len() + k,
                self@ == old(self)@.with_lines(
                    old(self)@.lines.subrange(0, at as int) + fresh_lines(
                        k as int,
                        old(self)@.physical_cols as int,
                    ) + old(self)@.lines.subrange(at as int, old(self)@.lines.len() as int),
                ),
            decreases count - k,
        {
            let ghost before = self.lines@;
            let line = Line::with_width(self.physical_cols);
            proof {
                lemma_views_insert(before, at as int, line);
            }
            self.lines.insert(at, line);
            assert(views(self.lines@) =~= old(self)@.lines.subrange(0, at as int) + fresh_lines(
                k + 1,
                old(self)@.physical_cols as int,
            ) + old(self)@.lines.subrange(at as int, old(self)@.lines.len() as int));
            k = k + 1;
        }
    }

    fn rotate_up(&mut self, remove_at: usize, removed: usize, insert_at: usize, count: usize)
        requires
            remove_at + removed <= insert_at + removed <= old(self)@.lines.len(),
        ensures
            final(self)@ == old(self)@.with_lines(
                old(self)@.lines.subrange(0, remove_at as int) + old(self)@.lines.subrange(
                    remove_at + removed,
                    insert_at + removed,
                ) + fresh_lines(count as int, old(self)@.physical_cols as int) + old(
                    self,
                )@.lines.subrange(insert_at + removed, old(self)@.lines.len() as int),
            ),
    {
        self.remove_lines(remove_at, removed);
        self.insert_fresh(insert_at, count);
        assert(self@.lines =~= old(self)@.lines.subrange(0, remove_at as int) + old(
            self,
        )@.lines.subrange(remove_at + removed, insert_at + removed) + fresh_lines(
            count as int,
            old(self)@.physical_cols as int,
        ) + old(self)@.lines.subrange(insert_at + removed, old(self)@.lines.len() as int));
    }

    /// Scrolls the region of visible rows from `start` up to `end` up by `num_rows` rows.
    pub fn scroll_up(&mut self, start: VisibleRowIndex, end: VisibleRowIndex, num_rows: usize)
        requires
            old(self).wf(),
            0 <= start < end <= old(self)@.physical_rows,
        ensures
            final(self)@ == old(self)@.scrolled_up(start as int, end as int, num_rows as int),
            final(self).wf(),
    {
        proof {
            reveal(ScreenView::scrolled_up);
        }
        let base = self.lines.len() - self.physical_rows;
        let s = base + start as usize;
        let e = base + end as usize;
        let count = if num_rows < e - s {
            num_rows
        } else {
            e - s
        };
        self.dirty_range(s, e);
        let ghost marked = self@.lines;
        assert(self.lines@.len() == marked.len() && marked.len() == old(self)@.lines.len());
        let capacity = self.physical_rows + self.scrollback_size;
        if start > 0 || end < self.physical_rows as i64 {
            self.rotate_up(s, count, e - count, count);
        } else {
            let removed = if self.lines.len() + count > capacity {
                self.lines.len() + count - capacity
            } else {
                0
            };
            self.rotate_up(0, removed, e - removed, count);
            assert(marked.subrange(0, 0) + marked.subrange(removed as int, e as int)
                =~= marked.subrange(removed as int, e as int));
        }
    }

    /// Scrolls the region of visible rows from `start` up to `end` down by `num_rows` rows.
    pub fn scroll_down(&mut self, start: VisibleRowIndex, end: VisibleRowIndex, num_rows: usize)
        requires
            old(self).wf(),
            0 <= start < end <= old(self)@.physical_rows,
        ensures
            final(self)@ == old(self)@.scrolled_down(start as int, end as int, num_rows as int),
            final(self).wf(),
    {
        proof {
            reveal(ScreenView::scrolled_down);
        }
        let base = self.lines.len() - self.physical_rows;
        let s = base + start as usize;
        let e = base + end as usize;
        let count = if num_rows < e - s {
            num_rows
        } else {
            e - s
        };
        let middle = e - count;
        self.dirty_range(s, middle);
        let ghost marked = self@.lines;
        assert(self.lines@.len() == marked.len() && marked.len() == old(self)@.lines.len());
        self.remove_lines(middle, count);
        self.insert_fresh(s, count);
        assert(self@.lines =~= marked.subrange(0, s as int) + fresh_lines(
            count as int,
            self@.physical_cols as int,
        ) + marked.subrange(s as int, e - count) + marked.subrange(e as int, marked.len() as int));
    }

    /// Sets the dirty flag of every line, scrollback included.
    pub fn mark_all(&mut self, dirty: bool)
        ensures
            final(self)@ == old(self)@.with_lines(all_marked(old(self)@.lines, dirty)),
    {
        let mut i: usize = 0;
        let n = self.lines.len();
        assert(old(self)@.lines =~= marked_prefix(old(self)@.lines, dirty, 0));
        while i < n
            invariant
                i <= n,
                n == self.lines.len(),
                n == old(self).lines.len(),
                self@ == old(self)@.with_lines(marked_prefix(old(self)@.lines, dirty, i as int)),
            decreases n - i,
        {
            let ghost before = self.lines@;
            if dirty {
                self.lines[i].set_dirty();
            } else {
                self.lines[i].clear_dirty();
            }
            proof {
                lemma_views_update(before, i as int, self.lines@[i as int]);
                assert(self.lines@ == before.update(i as int, self.lines@[i as int]));
                assert(views(before) == marked_prefix(old(self)@.lines, dirty, i as int));
                assert(views(before)[i as int] == old(self)@.lines[i as int]);
                assert(views(self.lines@) =~= marked_prefix(old(self)@.lines, dirty, i + 1));
            }
            i = i + 1;
        }
        assert(self@.lines =~= all_marked(old(self)@.lines, dirty));
    }

    /// Removes the cell at column `x` of visible row `y`, `count` times over.
    pub fn erase_cells(&mut self, x: usize, y: VisibleRowIndex, count: usize)
        requires
            old(self).wf(),
            0 <= y < old(self)@.physical_rows,
        ensures
            final(self)@ == old(self)@.with_erased_cells(x as int, y as int, count as int),
            final(self).wf(),
            final(self)@.lines.len() == old(self)@.lines.len(),
            final(self)@.physical_rows == old(self)@.physical_rows,
            final(self)@.physical_cols == old(self)@.physical_cols,
            final(self)@.scrollback_size == old(self)@.scrollback_size,
    {
        let mut k: usize = 0;
        while k < count
            invariant
                k <= count,
                self.wf(),
                0 <= y < self@.physical_rows,
                self@ == old(self)@.with_erased_cells(x as int, y as int, k as int),
                self@.lines.len() == old(self)@.lines.len(),
                self@.physical_rows == old(self)@.physical_rows,
                self@.physical_cols == old(self)@.physical_cols,
                self@.scrollback_size == old(self)@.scrollback_size,
            decreases count - k,
        {
            self.erase_cell(x, y);
            k = k + 1;
        }
    }

    /// Inserts a plain blank at column `x` of visible row `y`, `count` times over.
    pub fn insert_cells_at(&mut self, x: usize, y: VisibleRowIndex, count: usize)
        requires
            old(self).wf(),
            0 <= y < old(self)@.physical_rows,
        ensures
            final(self)@ == old(self)@.with_inserted_cells_at(x as int, y as int, count as int),
            final(self).wf(),
            final(self)@.lines.len() == old(self)@.lines.len(),
            final(self)@.physical_rows == old(self)@.physical_rows,
            final(self)@.physical_cols == old(self)@.physical_cols,
            final(self)@.scrollback_size == old(self)@.scrollback_size,
    {
        let mut k: usize = 0;
        while k < count
            invariant
                k <= count,
                self.wf(),
                0 <= y < self@.physical_rows,
                self@ == old(self)@.with_inserted_cells_at(x as int, y as int, k as int),
                self@.lines.len() == old(self)@.lines.len(),
                self@.physical_rows == old(self)@.physical_rows,
                self@.physical_cols == old(self)@.physical_cols,
                self@.scrollback_size == old(self)@.scrollback_size,
            decreases count - k,
        {
            self.insert_cell(x, y);
            k = k + 1;
        }
    }

    /// Inserts a plain blank at each column of visible row `y` from `x` up to `end`.
    pub fn insert_cells(&mut self, x: usize, end: usize, y: VisibleRowIndex)
        requires
            old(self).wf(),
            0 <= y < old(self)@.physical_rows,
        ensures
            final(self)@ == old(self)@.with_inserted_cells(x as int, end as int, y as int),
            final(self).wf(),
            final(self)@.lines.len() == old(self)@.lines.len(),
            final(self)@.physical_rows == old(self)@.physical_rows,
            final(self)@.physical_cols == old(self)@.physical_cols,
            final(self)@.scrollback_size == old(self)@.scrollback_size,
    {
        let mut k: usize = x;
        while k < end
            invariant
                x <= k,
                k <= end || (end < x && k == x),
                self.wf(),
                0 <= y < self@.physical_rows,
                self@ == old(self)@.with_inserted_cells(x as int, k as int, y as int),
                self@.lines.len() == old(self)@.lines.len(),
                self@.physical_rows == old(self)@.physical_rows,
                self@.physical_cols == old(self)@.physical_cols,
                self@.scrollback_size == old(self)@.scrollback_size,
            decreases end - k,
        {
            self.insert_cell(k, y);
            k = k + 1;
        }
    }

    /// Writes a copy of `cell` at each column of visible row `y` from `x` up to `end`.
    pub fn set_cells(&mut self, x: usize, end: usize, y: VisibleRowIndex, cell: &Cell)
        requires
            old(self).wf(),
            0 <= y < old(self)@.physical_rows,
            end <= MAX_COLUMN,
        ensures
            final(self)@ == old(self)@.with_cells(x as int, end as int, y as int, cell@),
            final(self).wf(),
            final(self)@.lines.len() == old(self)@.lines.len(),
            final(self)@.physical_rows == old(self)@.physical_rows,
            final(self)@.physical_cols == old(self)@.physical_cols,
            final(self)@.scrollback_size == old(self)@.scrollback_size,
    {
        let mut k: usize = x;
        while k < end
            invariant
                x <= k,
                k <= end || (end < x && k == x),
                end <= MAX_COLUMN,
                self.wf(),
                0 <= y < self@.physical_rows,
                self@ == old(self)@.with_cells(x as int, k as int, y as int, cell@),
                self@.lines.len() == old(self)@.lines.len(),
                self@.physical_rows == old(self)@.physical_rows,
                self@.physical_cols == old(self)@.physical_cols,
                self@.scrollback_size == old(self)@.scrollback_size,
            decreases end - k,
        {
            self.set_cell(k, y, cell);
            k = k + 1;
        }
    }

    /// Writes a blank with `attrs` at each column of visible row `y` from `x` up to `end`.
    pub fn blank_cells(&mut self, x: usize, end: usize, y: VisibleRowIndex, attrs: CellAttributes)
        requires
            old(self).wf(),
            0 <= y < old(self)@.physical_rows,
            end <= MAX_COLUMN,
        ensures
            final(self)@ == old(self)@.with_cells(
                x as int,
                end as int,
                y as int,
                CellView::blank(attrs),
            ),
            final(self).wf(),
            final(self)@.lines.len() == old(self)@.lines.len(),
            final(self)@.physical_rows == old(self)@.physical_rows,
            final(self)@.physical_cols == old(self)@.physical_cols,
            final(self)@.scrollback_size == old(self)@.scrollback_size,
    {
        let blank = Cell::blank(attrs);
        self.set_cells(x, end, y, &blank);
    }

    /// The number of cells in visible row `y`.
    pub fn row_len(&self, y: VisibleRowIndex) -> (n: usize)
        requires
            self.wf(),
            0 <= y < self@.physical_rows,
        ensures
            n == self@.row(y as int).cells.len(),
    {
        let idx = self.phys_row(y);
        self.lines[idx].len()
    }

    /// Makes visible row `y` a line of blanks that have `attrs`.
    pub fn reset_row(&mut self, y: VisibleRowIndex, attrs: CellAttributes)
        requires
            old(self).wf(),
            0 <= y < old(self)@.physical_rows,
        ensures
            final(self)@ == old(self)@.with_row(
                y as int,
                LineView::cleared(old(self)@.physical_cols as int, attrs),
            ),
            final(self).wf(),
    {
        let cols = self.physical_cols;
        let idx = self.phys_row(y);
        self.lines[idx].resize_and_clear(cols, attrs);
        proof {
            lemma_views_update(old(self).lines@, idx as int, self.lines@[idx as int]);
        }
    }

    /// Makes each visible row from `from` up to `to` a line of blanks that have `attrs`.
    pub fn clear_rows(&mut self, from: VisibleRowIndex, to: VisibleRowIndex, attrs: CellAttributes)
        requires
            old(self).wf(),
            0 <= from,
            to <= old(self)@.physical_rows,
        ensures
            final(self)@ == old(self)@.with_rows_cleared(from as int, to as int, attrs),
            final(self).wf(),
            final(self)@.lines.len() == old(self)@.lines.len(),
            final(self)@.physical_rows == old(self)@.physical_rows,
            final(self)@.physical_cols == old(self)@.physical_cols,
            final(self)@.scrollback_size == old(self)@.scrollback_size,
    {
        let mut y = from;
        while y < to
            invariant
                from <= y,
                y <= to || (to < from && y == from),
                0 <= from,
                to <= self@.physical_rows,
                self.wf(),
                self@ == old(self)@.with_rows_cleared(from as int, y as int, attrs),
                self@.lines.len() == old(self)@.lines.len(),
                self@.physical_rows == old(self)@.physical_rows,
                self@.physical_cols == old(self)@.physical_cols,
                self@.scrollback_size == old(self)@.scrollback_size,
            decreases to - y,
        {
            self.reset_row(y, attrs);
            y = y + 1;
        }
    }

    /// Writes the cell before column `x` of visible row `y` again at each column from `x` up
    /// to and with `x + n`, as far as the line reaches.
    pub fn repeat_cell(&mut self, x: usize, y: VisibleRowIndex, n: usize)
        requires
            old(self).wf(),
            0 <= y < old(self)@.physical_rows,
            x <= MAX_COLUMN,
        ensures
            final(self)@ == old(self)@.with_repeated(x as int, y as int, n as int),
            final(self).wf(),
            final(self)@.lines.len() == old(self)@.lines.len(),
            final(self)@.physical_rows == old(self)@.physical_rows,
            final(self)@.physical_cols == old(self)@.physical_cols,
            final(self)@.scrollback_size == old(self)@.scrollback_size,
    {
        proof {
            reveal(ScreenView::with_repeated);
        }
        let idx = self.phys_row(y);
        let from = if x > 0 {
            x - 1
        } else {
            0
        };
        let count = if n > MAX_COLUMN {
            MAX_COLUMN
        } else {
            n
        };
        assert(old(self)@.row(y as int) == old(self).lines@[idx as int]@);
        if from < self.lines[idx].len() {
            let line = &mut self.lines[idx];
            let cell = line.cell(from).duplicate();
            line.fill_range(x, x + count + 1, &cell);
            proof {
                lemma_views_update(old(self).lines@, idx as int, self.lines@[idx as int]);
            }
        }
    }

    /// Gives the cells of the line at index `idx` the links found in its text.
    pub fn link_line(&mut self, idx: usize, found: &Vec<FoundLink>, base: usize)
        requires
            old(self).wf(),
            idx < old(self)@.lines.len(),
            base + found@.len() <= usize::MAX,
        ensures
            final(self)@ == old(self)@.with_lines(
                old(self)@.lines.update(
                    idx as int,
                    old(self)@.lines[idx as int].with_found_links(views(found@), base as int),
                ),
            ),
            final(self).wf(),
            final(self)@.lines.len() == old(self)@.lines.len(),
            final(self)@.physical_rows == old(self)@.physical_rows,
            final(self)@.physical_cols == old(self)@.physical_cols,
            final(self)@.scrollback_size == old(self)@.scrollback_size,
    {
        self.lines[idx].apply_found_links(found, base);
        proof {
            lemma_views_update(old(self).lines@, idx as int, self.lines@[idx as int]);
        }
    }

    /// Marks every line that holds a link dirty.
    pub fn invalidate_hyperlinks(&mut self)
        ensures
            final(self)@ == old(self)@.with_lines(
                links_dirtied(old(self)@.lines, old(self)@.lines.len() as int),
            ),
    {
        let mut i: usize = 0;
        let n = self.lines.len();
        assert(old(self)@.lines =~= links_dirtied(old(self)@.lines, 0));
        while i < n
            invariant
                i <= n,
                n == self.lines.len(),
                n == old(self).lines.len(),
                self@ == old(self)@.with_lines(links_dirtied(old(self)@.lines, i as int)),
            decreases n - i,
        {
            let ghost before = self.lines@;
            assert(views(before)[i as int] == old(self)@.lines[i as int]);
            if self.lines[i].has_hyperlink() {
                self.lines[i].set_dirty();
            }
            proof {
                lemma_views_update(before, i as int, self.lines@[i as int]);
                assert(self.lines@ =~= before.update(i as int, self.lines@[i as int]));
                assert(views(before) == links_dirtied(old(self)@.lines, i as int));
                assert(views(self.lines@) =~= links_dirtied(old(self)@.lines, i + 1));
            }
            i = i + 1;
        }
    }

    fn resize_all(&mut self, width: usize)
        ensures
            final(self)@ == old(self)@.with_lines(all_resized(old(self)@.lines, width as int)),
    {
        let mut i: usize = 0;
        let n = self.lines.len();
        assert(old(self)@.lines =~= resized_prefix(old(self)@.lines, width as int, 0));
        while i < n
            invariant
                i <= n,
                n == self.lines.len(),
                n == old(self).lines.len(),
                self@ == old(self)@.with_lines(resized_prefix(old(self)@.lines, width as int, i as int)),
            decreases n - i,
        {
            let ghost before = self.lines@;
            self.lines[i].resize(width);
            proof {
                lemma_views_update(before, i as int, self.lines@[i as int]);
                assert(self.lines@ == before.update(i as int, self.lines@[i as int]));
                assert(views(before) == resized_prefix(old(self)@.lines, width as int, i as int));
                assert(views(before)[i as int] == old(self)@.lines[i as int]);
                assert(views(self.lines@) =~= resized_prefix(old(self)@.lines, width as int, i + 1));
            }
            i = i + 1;
        }
        assert(self@.lines =~= all_resized(old(self)@.lines, width as int));
    }

    /// Resizes the screen to `physical_rows` rows of `physical_cols` columns.
    pub fn resize(&mut self, physical_rows: usize, physical_cols: usize)
        requires
            old(self).wf(),
            1 <= physical_rows <= MAX_DIMENSION,
            1 <= physical_cols <= MAX_DIMENSION,
        ensures
            final(self)@ == old(self)@.resized(physical_rows, physical_cols),
            final(self).wf(),
    {
        proof {
            reveal(ScreenView::resized);
        }
        let old_rows = self.physical_rows;
        self.physical_cols = physical_cols;
        let len = self.lines.len();
        if physical_rows > old_rows {
            self.insert_fresh(len, physical_rows - old_rows);
        }
        let ghost grown = self@.lines;
        assert(grown =~= old(self)@.lines + fresh_lines(
            physical_rows - old_rows,
            physical_cols as int,
        ));
        let len = self.lines.len();
        if len > MAX_LINES {
            self.remove_lines(0, len - MAX_LINES);
            assert(self@.lines =~= grown.subrange(grown.len() - MAX_LINES, grown.len() as int));
        }
        self.resize_all(physical_cols);
        self.physical_rows = physical_rows;
    }
}

/// Scrolling a region up keeps the screen's size.
pub proof fn lemma_scrolled_up_shape(s: ScreenView, start: int, end: int, n: int)
    requires
        s.wf(),
        0 <= start < end <= s.physical_rows,
        0 <= n,
    ensures
        s.scrolled_up(start, end, n).wf(),
        s.scrolled_up(start, end, n).physical_rows == s.physical_rows,
        s.scrolled_up(start, end, n).physical_cols == s.physical_cols,
        s.scrolled_up(start, end, n).scrollback_size == s.scrollback_size,
{
    reveal(ScreenView::scrolled_up);
}

/// Scrolling a region down keeps the screen's size and the number of its lines.
pub proof fn lemma_scrolled_down_shape(s: ScreenView, start: int, end: int, n: int)
    requires
        s.wf(),
        0 <= start < end <= s.physical_rows,
        0 <= n,
    ensures
        s.scrolled_down(start, end, n).wf(),
        s.scrolled_down(start, end, n).physical_rows == s.physical_rows,
        s.scrolled_down(start, end, n).physical_cols == s.physical_cols,
        s.scrolled_down(start, end, n).scrollback_size == s.scrollback_size,
        s.scrolled_down(start, end, n).lines.len() == s.lines.len(),
{
    reveal(ScreenView::scrolled_down);
}

/// A resized screen has the new size, and as many lines as it has rows at least.
pub proof fn lemma_resized_shape(s: ScreenView, rows: usize, cols: usize)
    requires
        s.wf(),
        1 <= rows <= MAX_DIMENSION,
        1 <= cols <= MAX_DIMENSION,
    ensures
        s.resized(rows, cols).wf(),
        s.resized(rows, cols).physical_rows == rows,
        s.resized(rows, cols).physical_cols == cols,
        s.resized(rows, cols).scrollback_size == s.scrollback_size,
{
    reveal(ScreenView::resized);
}

/// Clearing part of a row keeps the screen's size and the number of its lines.
pub proof fn lemma_with_cleared_shape(s: ScreenView, y: int, start: int, end: int, attrs: CellAttributes)
    requires
        s.wf(),
        0 <= y < s.physical_rows,
    ensures
        s.with_cleared(y, start, end, attrs).wf(),
        s.with_cleared(y, start, end, attrs).physical_rows == s.physical_rows,
        s.with_cleared(y, start, end, attrs).physical_cols == s.physical_cols,
        s.with_cleared(y, start, end, attrs).scrollback_size == s.scrollback_size,
        s.with_cleared(y, start, end, attrs).lines.len() == s.lines.len(),
{
    reveal(ScreenView::with_cleared);
}

/// Writing a cell keeps the screen's size and the number of its lines.
pub proof fn lemma_with_cell_shape(s: ScreenView, x: int, y: int, cell: CellView)
    requires
        s.wf(),
        0 <= y < s.physical_rows,
    ensures
        s.with_cell(x, y, cell).wf(),
        s.with_cell(x, y, cell).physical_rows == s.physical_rows,
        s.with_cell(x, y, cell).physical_cols == s.physical_cols,
        s.with_cell(x, y, cell).scrollback_size == s.scrollback_size,
        s.with_cell(x, y, cell).lines.len() == s.lines.len(),
{
    reveal(ScreenView::with_cell);
}

/// Marking a row dirty keeps the screen's size and the number of its lines.
pub proof fn lemma_row_dirtied_shape(s: ScreenView, y: int)
    requires
        s.wf(),
    ensures
        s.row_dirtied(y).wf(),
        s.row_dirtied(y).physical_rows == s.physical_rows,
        s.row_dirtied(y).physical_cols == s.physical_cols,
        s.row_dirtied(y).scrollback_size == s.scrollback_size,
        s.row_dirtied(y).lines.len() == s.lines.len(),
{
    reveal(ScreenView::row_dirtied);
}

} // verus!
