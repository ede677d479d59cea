//! The selection: a range of cells, by column and row.

use crate::screen::ScrollbackOrVisibleRowIndex;
use std::ops::Range;
use vstd::prelude::*;

verus! {

/// The largest column number, which stands for "to the end of the line".
pub const LAST_COLUMN: usize = usize::MAX;

/// A cell of the selection: its column, and its row counted from the top of the screen.
#[derive(Clone, Copy, Debug, PartialEq, Eq, Structural)]
pub struct SelectionCoordinate {
    pub x: usize,
    pub y: ScrollbackOrVisibleRowIndex,
}

/// A selection, from where it began to where it was extended.
#[derive(Clone, Copy, Debug, PartialEq, Eq, Structural)]
pub struct SelectionRange {
    pub start: SelectionCoordinate,
    pub end: SelectionCoordinate,
}

/// Whether two half-open ranges have an element in common.
pub open spec fn ranges_intersect(a_start: int, a_end: int, b_start: int, b_end: int) -> bool {
    let start = if a_start > b_start { a_start } else { b_start };
    let end = if a_end < b_end { a_end } else { b_end };
    end > start
}

/// Whether two half-open ranges of columns have a column in common.
pub fn intersects_range(r1: Range<usize>, r2: Range<usize>) -> (b: bool)
    ensures
        b == ranges_intersect(r1.start as int, r1.end as int, r2.start as int, r2.end as int),
{
    let start = if r1.start > r2.start { r1.start } else { r2.start };
    let end = if r1.end < r2.end { r1.end } else { r2.end };
    end > start
}

/// Whether two half-open ranges of rows have a row in common.
pub fn intersects_rows(r1: Range<i64>, r2: Range<i64>) -> (b: bool)
    ensures
        b == ranges_intersect(r1.start as int, r1.end as int, r2.start as int, r2.end as int),
{
    let start = if r1.start > r2.start { r1.start } else { r2.start };
    let end = if r1.end < r2.end { r1.end } else { r2.end };
    end > start
}

impl SelectionRange {
    /// The selection with its upper end first.
    pub open spec fn normalized(self) -> SelectionRange {
        if self.end.y < self.start.y {
            SelectionRange { start: self.end, end: self.start }
        } else {
            self
        }
    }

    /// The first row of the selection.
    pub open spec fn first_row(self) -> int {
        self.normalized().start.y as int
    }

    /// The row after the last row of the selection.
    pub open spec fn rows_end(self) -> int {
        self.normalized().end.y + 1
    }

    /// The first column of `row` that the selection holds.
    pub open spec fn cols_start(self, row: int) -> int {
        let norm = self.normalized();
        if row < norm.start.y || row > norm.end.y {
            0
        } else if norm.start.y == norm.end.y {
            if norm.start.x <= norm.end.x {
                norm.start.x as int
            } else {
                norm.end.x as int
            }
        } else if row == norm.end.y {
            0
        } else if row == norm.start.y {
            norm.start.x as int
        } else {
            0
        }
    }

    /// One past `x`, as far as a column number reaches.
    pub open spec fn after(x: usize) -> int {
        if x == usize::MAX {
            x as int
        } else {
            x + 1
        }
    }

    /// The column after the last column of `row` that the selection holds.
    pub open spec fn cols_end(self, row: int) -> int {
        let norm = self.normalized();
        if row < norm.start.y || row > norm.end.y {
            0
        } else if norm.start.y == norm.end.y {
            if norm.start.x <= norm.end.x {
                SelectionRange::after(norm.end.x)
            } else {
                SelectionRange::after(norm.start.x)
            }
        } else if row == norm.end.y {
            SelectionRange::after(norm.end.x)
        } else {
            usize::MAX as int
        }
    }

    /// A selection of the single cell `start`.
    pub fn start(start: SelectionCoordinate) -> (r: SelectionRange)
        ensures
            r == (SelectionRange { start, end: start }),
    {
        SelectionRange { start, end: start }
    }

    /// The selection with its end moved to `end`.
    pub fn extend(&self, end: SelectionCoordinate) -> (r: SelectionRange)
        ensures
            r == (SelectionRange { start: self.start, end }),
    {
        SelectionRange { start: self.start, end }
    }

    /// The selection with its upper end first.
    pub fn normalize(&self) -> (r: SelectionRange)
        ensures
            r == self.normalized(),
    {
        if self.end.y < self.start.y {
            SelectionRange { start: self.end, end: self.start }
        } else {
            *self
        }
    }

    /// The rows the selection spans.
    pub fn rows(&self) -> (r: Range<ScrollbackOrVisibleRowIndex>)
        requires
            self.start.y < i64::MAX,
            self.end.y < i64::MAX,
        ensures
            r.start == self.first_row(),
            r.end == self.rows_end(),
    {
        let norm = self.normalize();
        norm.start.y..norm.end.y + 1
    }

    /// The columns of `row` that the selection holds.
    pub fn cols_for_row(&self, row: ScrollbackOrVisibleRowIndex) -> (r: Range<usize>)
        ensures
            r.start == self.cols_start(row as int),
            r.end == self.cols_end(row as int),
    {
        let norm = self.normalize();
        if row < norm.start.y || row > norm.end.y {
            0..0
        } else if norm.start.y == norm.end.y {
            if norm.start.x <= norm.end.x {
                norm.start.x..norm.end.x.saturating_add(1)
            } else {
                norm.end.x..norm.start.x.saturating_add(1)
            }
        } else if row == norm.end.y {
            0..norm.end.x.saturating_add(1)
        } else if row == norm.start.y {
            norm.start.x..usize::MAX
        } else {
            0..usize::MAX
        }
    }
}

} // verus!
