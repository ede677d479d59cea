//! A line of the grid: one cell per column.

use crate::cell::Cell;
use crate::cell::CellAttributes;
use crate::cell::CellView;
use crate::cell::LinkId;
use crate::hyperlink::FoundLink;
use crate::hyperlink::FoundLinkView;
use crate::text::byte_len;
use crate::text::text_bytes;
use crate::views::views;
use vstd::prelude::*;

verus! {

/// The largest column index a line accepts.
pub const MAX_COLUMN: usize = 0x3fff_ffff;

/// What a line is: its cells, and the flags that drive redrawing.
pub struct LineView {
    pub cells: Seq<CellView>,
    pub dirty: bool,
    pub has_hyperlink: bool,
    /// Whether the line has been searched for links since it last changed.
    pub scanned: bool,
    /// Whether a search gave a cell of the line a link.
    pub has_implicit: bool,
}

/// The cells without the links that rules made.
pub open spec fn without_implicit(cells: Seq<CellView>) -> Seq<CellView> {
    Seq::new(
        cells.len(),
        |i: int|
            if cells[i].has_implicit_link() {
                cells[i].with_link(None)
            } else {
                cells[i]
            },
    )
}

/// The first `upto` cells without the links that rules made, the rest as they are.
pub open spec fn without_implicit_prefix(cells: Seq<CellView>, upto: int) -> Seq<CellView> {
    Seq::new(
        cells.len(),
        |i: int|
            if i < upto && cells[i].has_implicit_link() {
                cells[i].with_link(None)
            } else {
                cells[i]
            },
    )
}

/// `n` blank cells with the given attributes.
pub open spec fn blanks(n: int, attrs: CellAttributes) -> Seq<CellView> {
    Seq::new(if n >= 0 { n as nat } else { 0 }, |i: int| CellView::blank(attrs))
}

/// The cells padded with plain blanks up to `width` columns; unchanged if already that wide.
pub open spec fn padded(cells: Seq<CellView>, width: int) -> Seq<CellView> {
    cells + blanks(width - cells.len(), CellAttributes::plain())
}

/// The cells cut or padded to exactly `width` columns.
pub open spec fn sized(cells: Seq<CellView>, width: int) -> Seq<CellView> {
    if 0 <= width <= cells.len() {
        cells.subrange(0, width)
    } else {
        padded(cells, width)
    }
}

/// Writing at column `idx` breaks up a wide cell that starts just before it: that cell and
/// the column it covers become blanks with its attributes.
pub open spec fn invalidated(cells: Seq<CellView>, idx: int) -> Seq<CellView> {
    if 0 < idx <= cells.len() && cells[idx - 1].width() > 1 {
        let attrs = cells[idx - 1].attrs;
        let first = cells.update(idx - 1, CellView::blank(attrs));
        if idx < cells.len() {
            first.update(idx, CellView::blank(attrs))
        } else {
            first
        }
    } else {
        cells
    }
}

/// Whether a character is white space.
pub open spec fn is_white_space(c: char) -> bool {
    let v = c as u32;
    ||| 0x09 <= v <= 0x0d
    ||| v == 0x20
    ||| v == 0x85
    ||| v == 0xa0
    ||| v == 0x1680
    ||| 0x2000 <= v <= 0x200a
    ||| v == 0x2028
    ||| v == 0x2029
    ||| v == 0x202f
    ||| v == 0x205f
    ||| v == 0x3000
}

/// The text without the white space at its end.
pub open spec fn trimmed_end(text: Seq<char>) -> Seq<char>
    decreases text.len(),
{
    if text.len() > 0 && is_white_space(text.last()) {
        trimmed_end(text.drop_last())
    } else {
        text
    }
}

/// Whether a cell's text counts as part of a word for word selection.
pub open spec fn is_word_text(text: Seq<char>) -> bool {
    if text.len() > 1 {
        true
    } else if text.len() == 1 {
        let c = text[0];
        !(c == ' ' || c == '\t' || c == '\n' || c == '{' || c == '[' || c == '}' || c == ']'
            || c == '(' || c == ')' || c == '"' || c == '\'')
    } else {
        false
    }
}

/// The end (exclusive) of the run of word cells that starts at column `i`.
pub open spec fn word_upper(cells: Seq<CellView>, i: int) -> int
    decreases cells.len() - i,
{
    if 0 <= i < cells.len() && is_word_text(cells[i].text) {
        word_upper(cells, i + 1)
    } else {
        i
    }
}

/// The start of the run of word cells that ends at column `i`.
pub open spec fn word_lower(cells: Seq<CellView>, i: int) -> int
    decreases i + 1,
{
    if 0 <= i < cells.len() && is_word_text(cells[i].text) {
        word_lower(cells, i - 1)
    } else {
        i + 1
    }
}

/// The columns a double click selects, and whether the word runs on into the next line.
#[derive(Clone, Copy, Debug, PartialEq, Eq, Structural)]
pub enum DoubleClickRange {
    Range { start: usize, end: usize },
    RangeWithWrap { start: usize, end: usize },
}

impl LineView {
    /// A dirty line of `width` plain blanks.
    pub open spec fn with_width(width: int) -> LineView {
        LineView {
            cells: blanks(width, CellAttributes::plain()),
            dirty: true,
            has_hyperlink: false,
            scanned: false,
            has_implicit: false,
        }
    }

    /// A dirty line of `width` blanks with the given attributes.
    pub open spec fn cleared(width: int, attrs: CellAttributes) -> LineView {
        LineView {
            cells: blanks(width, attrs),
            dirty: true,
            has_hyperlink: false,
            scanned: false,
            has_implicit: false,
        }
    }

    /// Whether a cell of the line may have a link.
    pub open spec fn links_present(self) -> bool {
        self.has_hyperlink || self.has_implicit
    }

    /// A change to the line undoes the search for links: the links that rules made are
    /// dropped, and the line is marked dirty if it had any.
    pub open spec fn implicit_invalidated(self) -> LineView {
        if !self.scanned {
            self
        } else if self.has_implicit {
            LineView {
                cells: without_implicit(self.cells),
                dirty: true,
                scanned: false,
                has_implicit: false,
                ..self
            }
        } else {
            LineView { scanned: false, ..self }
        }
    }

    /// The line cut or padded to `width` columns.
    pub open spec fn resized(self, width: int) -> LineView {
        LineView { cells: sized(self.cells, width), dirty: true, ..self }
    }

    /// The line marked dirty.
    pub open spec fn marked_dirty(self) -> LineView {
        LineView { dirty: true, ..self }
    }

    /// The line marked clean.
    pub open spec fn marked_clean(self) -> LineView {
        LineView { dirty: false, ..self }
    }

    /// The line after `cell` is written at column `idx`: the line is padded to hold it, a
    /// wide cell it cuts into is blanked, and the column a wide `cell` covers is blanked.
    pub open spec fn with_cell(self, idx: int, cell: CellView) -> LineView {
        let base = self.implicit_invalidated();
        let w = cell.width() as int;
        let c0 = if idx + w >= base.cells.len() {
            padded(base.cells, idx + w)
        } else {
            base.cells
        };
        let c1 = invalidated(c0, idx);
        let c2 = if w > 1 {
            c1.update(idx + 1, CellView::blank(cell.attrs))
        } else {
            c1
        };
        LineView {
            cells: c2.update(idx, cell),
            dirty: true,
            has_hyperlink: base.has_hyperlink || cell.attrs.hyperlink.is_some(),
            ..base
        }
    }

    /// The line after `cell` is inserted at column `x`, the cells from there on moving right.
    pub open spec fn with_inserted(self, x: int, cell: CellView) -> LineView {
        let base = self.implicit_invalidated();
        let c0 = padded(base.cells, x);
        LineView { cells: invalidated(c0, x).insert(x, cell), dirty: true, ..base }
    }

    /// The line after the cell at column `x` is removed, the cells behind it moving left and
    /// a plain blank filling the end.
    pub open spec fn with_erased(self, x: int) -> LineView {
        let base = self.implicit_invalidated();
        if 0 <= x < base.cells.len() {
            LineView {
                cells: invalidated(base.cells, x).remove(x).push(
                    CellView::blank(CellAttributes::plain()),
                ),
                dirty: true,
                ..base
            }
        } else {
            base.marked_dirty()
        }
    }

    /// The line after `cell` is written at each column from `x` up to `end`, as far as the
    /// line reached (`limit` columns) when the filling began and no further than the largest
    /// column index.
    pub open spec fn filled(self, x: int, end: int, limit: int, cell: CellView) -> LineView
        decreases end - x,
    {
        if x >= end || x >= limit || x > MAX_COLUMN {
            self
        } else {
            self.with_cell(x, cell).filled(x + 1, end, limit, cell)
        }
    }

    /// The text of the cells from column `i` up to `end`, a wide cell counted once.
    pub open spec fn text_from(self, i: int, end: int) -> Seq<char>
        decreases (if end > i { end - i } else { 0 }),
    {
        if i < 0 || i >= end || i >= self.cells.len() {
            Seq::<char>::empty()
        } else {
            if self.cells[i].width() > 1 {
                self.cells[i].text + self.text_from(i + 2, end)
            } else {
                self.cells[i].text + self.text_from(i + 1, end)
            }
        }
    }

    /// The number of columns from cell `i` to the next cell that is not covered by it.
    pub open spec fn step(self, i: int) -> int {
        if self.cells[i].width() > 1 {
            2
        } else {
            1
        }
    }

    /// Where the text of cell `target` begins in the text of the line, counted in bytes, for
    /// a walk over the cells that has reached cell `i` at byte `at`; a cell that a wide cell
    /// covers has no place in the text.
    pub open spec fn cell_offset(self, i: int, at: int, target: int) -> Option<int>
        decreases (if self.cells.len() > i { self.cells.len() - i } else { 0 }),
    {
        if i < 0 || i >= self.cells.len() || i > target {
            None
        } else if i == target {
            Some(at)
        } else {
            self.cell_offset(
                i + self.step(i),
                at + text_bytes(self.cells[i].text, self.cells[i].text.len() as int),
                target,
            )
        }
    }

    /// The link that the found links give cell `i`: that of the longest found link that
    /// spans the place of the cell in the text, the first of them where several are as long.
    pub open spec fn assigned_link(self, found: Seq<FoundLinkView>, base: int, i: int) -> Option<
        LinkId,
    > {
        match self.cell_offset(0, 0, i) {
            Some(o) => match best_hit(found, o, found.len() as int) {
                Some(k) => Some(LinkId { index: (base + k) as usize, implicit: true }),
                None => None,
            },
            None => None,
        }
    }

    /// The first `upto` cells that have no link take the link that the found links give
    /// them.
    pub open spec fn linked_prefix(self, found: Seq<FoundLinkView>, base: int, upto: int) -> Seq<
        CellView,
    > {
        Seq::new(
            self.cells.len(),
            |i: int|
                if i < upto && self.cells[i].attrs.hyperlink is None {
                    self.cells[i].with_link(self.assigned_link(found, base, i))
                } else {
                    self.cells[i]
                },
        )
    }

    /// The line after it has been searched for links: each cell that has no link takes the
    /// link that the found links give it, where `base` is the index of the record of the
    /// first found link.
    pub open spec fn with_found_links(self, found: Seq<FoundLinkView>, base: int) -> LineView {
        LineView {
            cells: self.linked_prefix(found, base, self.cells.len() as int),
            scanned: true,
            has_implicit: found.len() > 0,
            ..self
        }
    }

    /// The columns of the word under column `click`.
    pub open spec fn double_click_range(self, click: int) -> DoubleClickRange {
        let upper = word_upper(self.cells, click);
        let lower = if upper > click {
            word_lower(self.cells, click)
        } else {
            click
        };
        if upper > lower && self.cells[upper - 1].attrs.wrapped {
            DoubleClickRange::RangeWithWrap { start: lower as usize, end: upper as usize }
        } else {
            DoubleClickRange::Range { start: lower as usize, end: upper as usize }
        }
    }
}

/// Among the first `upto` found links, the index of the longest that spans byte `offset`,
/// the first of them where several are as long.
pub open spec fn best_hit(found: Seq<FoundLinkView>, offset: int, upto: int) -> Option<int>
    decreases upto,
{
    if upto <= 0 {
        None
    } else {
        let prev = best_hit(found, offset, upto - 1);
        let h = found[upto - 1];
        if h.start <= offset < h.end && (prev is None || h.end - h.start > found[prev.unwrap()].end
            - found[prev.unwrap()].start) {
            Some(upto - 1)
        } else {
            prev
        }
    }
}

/// The best found link is one of those looked at.
pub proof fn lemma_best_hit_range(found: Seq<FoundLinkView>, offset: int, upto: int)
    requires
        0 <= upto <= found.len(),
    ensures
        best_hit(found, offset, upto) matches Some(k) ==> 0 <= k < upto,
        offset > usize::MAX ==> best_hit(found, offset, upto) is None,
    decreases upto,
{
    if upto > 0 {
        lemma_best_hit_range(found, offset, upto - 1);
    }
}

/// The place of a cell in the text is not before the place the walk has reached.
pub proof fn lemma_cell_offset_nonnegative(line: LineView, i: int, at: int, target: int)
    requires
        0 <= at,
    ensures
        line.cell_offset(i, at, target) matches Some(o) ==> o >= at,
    decreases (if line.cells.len() > i { line.cells.len() - i } else { 0 }),
{
    if !(i < 0 || i >= line.cells.len() || i > target) && i != target {
        crate::text::lemma_text_bytes_grows(
            line.cells[i].text,
            0,
            line.cells[i].text.len() as int,
        );
        lemma_cell_offset_nonnegative(
            line,
            i + line.step(i),
            at + text_bytes(line.cells[i].text, line.cells[i].text.len() as int),
            target,
        );
    }
}

/// The views of a sequence of cells.
pub open spec fn cell_views(cells: Seq<Cell>) -> Seq<CellView> {
    Seq::new(cells.len(), |i: int| cells[i]@)
}

proof fn lemma_views_push(cells: Seq<Cell>, cell: Cell)
    ensures
        cell_views(cells.push(cell)) == cell_views(cells).push(cell@),
{
    assert(cell_views(cells.push(cell)) =~= cell_views(cells).push(cell@));
}

proof fn lemma_views_prefix(cells: Seq<Cell>, n: int)
    requires
        0 <= n <= cells.len(),
    ensures
        cell_views(cells.subrange(0, n)) == cell_views(cells).subrange(0, n),
{
    assert(cell_views(cells.subrange(0, n)) =~= cell_views(cells).subrange(0, n));
}

/// One row of cells.
#[derive(Debug)]
pub struct Line {
    cells: Vec<Cell>,
    dirty: bool,
    has_hyperlink: bool,
    scanned: bool,
    has_implicit: bool,
}

impl View for Line {
    type V = LineView;

    closed spec fn view(&self) -> LineView {
        LineView {
            cells: cell_views(self.cells@),
            dirty: self.dirty,
            has_hyperlink: self.has_hyperlink,
            scanned: self.scanned,
            has_implicit: self.has_implicit,
        }
    }
}

/// The index of the longest found link that spans byte `offset`, the first of them where
/// several are as long.
pub fn pick_hit(found: &Vec<FoundLink>, offset: usize) -> (best: Option<usize>)
    ensures
        best is Some == best_hit(views(found@), offset as int, found@.len() as int) is Some,
        best matches Some(k) ==> k == best_hit(
            views(found@),
            offset as int,
            found@.len() as int,
        ).unwrap() && k < found@.len(),
{
    let mut best: Option<usize> = None;
    let mut i: usize = 0;
    while i < found.len()
        invariant
            i <= found.len(),
            best is Some == best_hit(views(found@), offset as int, i as int) is Some,
            best matches Some(k) ==> k == best_hit(views(found@), offset as int, i as int).unwrap()
                && k < i,
        decreases found.len() - i,
    {
        let h = &found[i];
        assert(views(found@)[i as int] == h@);
        if h.start <= offset && offset < h.end {
            let better = match best {
                None => true,
                Some(k) => {
                    assert(views(found@)[k as int] == found@[k as int]@);
                    let p = &found[k];
                    p.end < p.start || h.end - h.start > p.end - p.start
                },
            };
            if better {
                best = Some(i);
            }
        }
        i = i + 1;
    }
    best
}

/// Whether a character is white space.
pub fn white_space(c: char) -> (b: bool)
    ensures
        b == is_white_space(c),
{
    let v = c as u32;
    (0x09 <= v && v <= 0x0d) || v == 0x20 || v == 0x85 || v == 0xa0 || v == 0x1680 || (0x2000 <= v
        && v <= 0x200a) || v == 0x2028 || v == 0x2029 || v == 0x202f || v == 0x205f || v == 0x3000
}

/// Removes the white space at the end of a text.
pub fn trim_end(text: &mut Vec<char>)
    ensures
        final(text)@ == trimmed_end(old(text)@),
{
    while text.len() > 0 && white_space(text[text.len() - 1])
        invariant
            trimmed_end(text@) == trimmed_end(old(text)@),
        decreases text.len(),
    {
        let ghost before = text@;
        text.pop();
        assert(text@ =~= before.drop_last());
    }
}

/// Appends the characters of `more` to `text`.
pub fn append_text(text: &mut Vec<char>, more: &Vec<char>)
    ensures
        final(text)@ == old(text)@ + more@,
{
    let mut k: usize = 0;
    while k < more.len()
        invariant
            k <= more.len(),
            text@ == old(text)@ + more@.subrange(0, k as int),
        decreases more.len() - k,
    {
        text.push(more[k]);
        assert(text@ =~= old(text)@ + more@.subrange(0, k + 1));
        k = k + 1;
    }
    assert(more@.subrange(0, more.len() as int) =~= more@);
}

/// Whether a cell's text counts as part of a word for word selection.
pub fn is_double_click_word(s: &Vec<char>) -> (b: bool)
    ensures
        b == is_word_text(s@),
{
    if s.len() > 1 {
        true
    } else if s.len() == 1 {
        let c = s[0];
        !(c == ' ' || c == '\t' || c == '\n' || c == '{' || c == '[' || c == '}' || c == ']'
            || c == '(' || c == ')' || c == '"' || c == '\'')
    } else {
        false
    }
}

impl Line {
    /// A new dirty line of `width` plain blanks.
    pub fn with_width(width: usize) -> (line: Line)
        ensures
            line@ == LineView::with_width(width as int),
    {
        let mut cells: Vec<Cell> = Vec::new();
        let mut i: usize = 0;
        while i < width
            invariant
                i <= width,
                cell_views(cells@) == blanks(i as int, CellAttributes::plain()),
            decreases width - i,
        {
            let ghost before = cell_views(cells@);
            let cell = Cell::blank(CellAttributes::new());
            proof {
                lemma_views_push(cells@, cell);
            }
            cells.push(cell);
            assert(before.push(CellView::blank(CellAttributes::plain())) =~= blanks(
                i + 1,
                CellAttributes::plain(),
            ));
            i = i + 1;
        }
        Line { cells, dirty: true, has_hyperlink: false, scanned: false, has_implicit: false }
    }

    /// A copy of this line.
    pub fn duplicate(&self) -> (line: Line)
        ensures
            line@ == self@,
    {
        let mut cells: Vec<Cell> = Vec::new();
        let mut i: usize = 0;
        while i < self.cells.len()
            invariant
                i <= self.cells.len(),
                cell_views(cells@) == cell_views(self.cells@).subrange(0, i as int),
            decreases self.cells.len() - i,
        {
            let cell = self.cells[i].duplicate();
            proof {
                lemma_views_push(cells@, cell);
            }
            cells.push(cell);
            assert(cell_views(cells@) =~= cell_views(self.cells@).subrange(0, i + 1));
            i = i + 1;
        }
        assert(cell_views(self.cells@).subrange(0, self.cells.len() as int) =~= cell_views(
            self.cells@,
        ));
        Line {
            cells,
            dirty: self.dirty,
            has_hyperlink: self.has_hyperlink,
            scanned: self.scanned,
            has_implicit: self.has_implicit,
        }
    }

    /// The number of cells in the line.
    pub fn len(&self) -> (n: usize)
        ensures
            n == self@.cells.len(),
    {
        self.cells.len()
    }

    /// The cell at column `idx`.
    pub fn cell(&self, idx: usize) -> (cell: &Cell)
        requires
            idx < self@.cells.len(),
        ensures
            cell@ == self@.cells[idx as int],
    {
        &self.cells[idx]
    }

    /// Whether the line has changed since it was last drawn.
    pub fn is_dirty(&self) -> (b: bool)
        ensures
            b == self@.dirty,
    {
        self.dirty
    }

    /// Marks the line as changed.
    pub fn set_dirty(&mut self)
        ensures
            final(self)@ == old(self)@.marked_dirty(),
    {
        self.dirty = true;
    }

    /// Marks the line as drawn.
    pub fn clear_dirty(&mut self)
        ensures
            final(self)@ == old(self)@.marked_clean(),
    {
        self.dirty = false;
    }

    /// Whether a cell of the line may have a link.
    pub fn has_hyperlink(&self) -> (b: bool)
        ensures
            b == self@.links_present(),
    {
        self.has_hyperlink || self.has_implicit
    }

    /// Whether the line has been searched for links since it last changed.
    pub fn is_scanned(&self) -> (b: bool)
        ensures
            b == self@.scanned,
    {
        self.scanned
    }

    /// Undoes the search for links: drops the links that rules made.
    pub fn invalidate_implicit_hyperlinks(&mut self)
        ensures
            final(self)@ == old(self)@.implicit_invalidated(),
    {
        if self.scanned {
            self.scanned = false;
            if self.has_implicit {
                let n = self.cells.len();
                let mut i: usize = 0;
                assert(self@.cells =~= without_implicit_prefix(old(self)@.cells, 0));
                while i < n
                    invariant
                        i <= n,
                        n == self.cells.len(),
                        n == old(self).cells.len(),
                        self.dirty == old(self).dirty,
                        self.has_hyperlink == old(self).has_hyperlink,
                        self.has_implicit == old(self).has_implicit,
                        !self.scanned,
                        self@.cells == without_implicit_prefix(old(self)@.cells, i as int),
                    decreases n - i,
                {
                    let ghost before = self.cells@;
                    assert(cell_views(before) == without_implicit_prefix(old(self)@.cells, i as int));
                    assert(cell_views(before)[i as int] == old(self)@.cells[i as int]);
                    assert(before[i as int]@ == old(self)@.cells[i as int]);
                    let implicit = match self.cells[i].attrs().hyperlink {
                        Some(l) => l.implicit,
                        None => false,
                    };
                    if implicit {
                        self.cells[i].set_link(None);
                    }
                    proof {
                        assert(self.cells@ =~= before.update(i as int, self.cells@[i as int]));
                        assert forall|k: int| 0 <= k < n implies cell_views(self.cells@)[k]
                            == without_implicit_prefix(old(self)@.cells, i + 1)[k] by {
                            if k != i {
                                assert(cell_views(before)[k] == without_implicit_prefix(
                                    old(self)@.cells,
                                    i as int,
                                )[k]);
                            }
                        }
                        assert(cell_views(self.cells@) =~= without_implicit_prefix(
                            old(self)@.cells,
                            i + 1,
                        ));
                    }
                    i = i + 1;
                }
                assert(self@.cells =~= without_implicit(old(self)@.cells));
                self.has_implicit = false;
                self.dirty = true;
            }
        }
    }

    fn pad(&mut self, width: usize)
        ensures
            final(self)@ == (LineView { cells: padded(old(self)@.cells, width as int), ..old(self)@ }),
    {
        while self.cells.len() < width
            invariant
                self.dirty == old(self).dirty,
                self.has_hyperlink == old(self).has_hyperlink,
                self.scanned == old(self).scanned,
                self.has_implicit == old(self).has_implicit,
                self.cells.len() >= old(self).cells.len(),
                cell_views(self.cells@) == padded(
                    old(self)@.cells,
                    if self.cells.len() < width {
                        self.cells.len() as int
                    } else {
                        width as int
                    },
                ),
            decreases width - self.cells.len(),
        {
            let ghost before = cell_views(self.cells@);
            let cell = Cell::blank(CellAttributes::new());
            proof {
                lemma_views_push(self.cells@, cell);
            }
            self.cells.push(cell);
            assert(cell_views(self.cells@) =~= padded(old(self)@.cells, self.cells.len() as int));
        }
        assert(cell_views(self.cells@) =~= padded(old(self)@.cells, width as int));
    }

    /// Cuts or pads the line to `width` columns and marks it dirty.
    pub fn resize(&mut self, width: usize)
        ensures
            final(self)@ == old(self)@.resized(width as int),
    {
        if width <= self.cells.len() {
            proof {
                lemma_views_prefix(self.cells@, width as int);
            }
            self.cells.truncate(width);
        } else {
            self.pad(width);
        }
        self.dirty = true;
    }

    /// Makes the line `width` blanks with the given attributes.
    pub fn resize_and_clear(&mut self, width: usize, attrs: CellAttributes)
        ensures
            final(self)@ == LineView::cleared(width as int, attrs),
    {
        self.cells.clear();
        assert(cell_views(self.cells@) =~= blanks(0, attrs));
        let mut i: usize = 0;
        while i < width
            invariant
                i <= width,
                cell_views(self.cells@) == blanks(i as int, attrs),
            decreases width - i,
        {
            let ghost before = cell_views(self.cells@);
            let cell = Cell::blank(attrs);
            proof {
                lemma_views_push(self.cells@, cell);
            }
            self.cells.push(cell);
            assert(before.push(CellView::blank(attrs)) =~= blanks(i + 1, attrs));
            i = i + 1;
        }
        self.dirty = true;
        self.has_hyperlink = false;
        self.scanned = false;
        self.has_implicit = false;
    }

    fn put(&mut self, idx: usize, cell: Cell)
        requires
            idx < old(self)@.cells.len(),
        ensures
            final(self)@ == (LineView { cells: old(self)@.cells.update(idx as int, cell@), ..old(self)@ }),
    {
        self.cells[idx] = cell;
        assert(cell_views(self.cells@) =~= old(self)@.cells.update(idx as int, cell@));
    }

    fn invalidate_grapheme_at_or_before(&mut self, idx: usize)
        ensures
            final(self)@ == (LineView { cells: invalidated(old(self)@.cells, idx as int), ..old(self)@ }),
    {
        if idx > 0 && idx <= self.cells.len() {
            let prior = idx - 1;
            assert(self@.cells[prior as int] == self.cells@[prior as int]@);
            if self.cells[prior].width() > 1 {
                let attrs = *self.cells[prior].attrs();
                self.put(prior, Cell::blank(attrs));
                if idx < self.cells.len() {
                    self.put(idx, Cell::blank(attrs));
                }
                assert(self@.cells == invalidated(old(self)@.cells, idx as int));
            } else {
                assert(self@.cells == invalidated(old(self)@.cells, idx as int));
            }
        } else {
            assert(self@.cells == invalidated(old(self)@.cells, idx as int));
        }
    }

    /// Writes `cell` at column `idx`.
    pub fn set_cell(&mut self, idx: usize, cell: Cell)
        requires
            idx <= MAX_COLUMN,
        ensures
            final(self)@ == old(self)@.with_cell(idx as int, cell@),
    {
        self.invalidate_implicit_hyperlinks();
        let width = cell.width();
        if idx + width >= self.cells.len() {
            self.pad(idx + width);
        }
        self.invalidate_grapheme_at_or_before(idx);
        if width > 1 {
            self.put(idx + 1, Cell::blank(*cell.attrs()));
        }
        if cell.attrs().hyperlink.is_some() {
            self.has_hyperlink = true;
        }
        self.put(idx, cell);
        self.dirty = true;
    }

    /// Inserts `cell` at column `x`, moving the cells from there on to the right.
    pub fn insert_cell(&mut self, x: usize, cell: Cell)
        ensures
            final(self)@ == old(self)@.with_inserted(x as int, cell@),
    {
        self.invalidate_implicit_hyperlinks();
        self.pad(x);
        self.invalidate_grapheme_at_or_before(x);
        let ghost before = self@.cells;
        self.cells.insert(x, cell);
        assert(cell_views(self.cells@) =~= before.insert(x as int, cell@));
        self.dirty = true;
    }

    /// Removes the cell at column `x`, if the line reaches that far; the cells behind it move
    /// left and a plain blank fills the end.
    pub fn erase_cell(&mut self, x: usize)
        ensures
            final(self)@ == old(self)@.with_erased(x as int),
    {
        self.invalidate_implicit_hyperlinks();
        if x < self.cells.len() {
            self.invalidate_grapheme_at_or_before(x);
            let ghost before = self@.cells;
            assert(before.len() == old(self)@.implicit_invalidated().cells.len());
            assert(self.cells@.len() == before.len());
            self.cells.remove(x);
            self.cells.push(Cell::blank(CellAttributes::new()));
            assert(cell_views(self.cells@) =~= before.remove(x as int).push(
                CellView::blank(CellAttributes::plain()),
            ));
        }
        self.dirty = true;
    }

    /// Writes a copy of `cell` at each column from `start` up to `end`, as far as the line
    /// reaches now.
    pub fn fill_range(&mut self, start: usize, end: usize, cell: &Cell)
        ensures
            final(self)@ == old(self)@.filled(
                start as int,
                end as int,
                old(self)@.cells.len() as int,
                cell@,
            ),
    {
        let limit = self.cells.len();
        let mut x = start;
        while x < end && x < limit && x <= MAX_COLUMN
            invariant
                start <= x,
                self@.filled(x as int, end as int, limit as int, cell@) == old(self)@.filled(
                    start as int,
                    end as int,
                    limit as int,
                    cell@,
                ),
                limit <= self@.cells.len(),
            decreases end - x,
        {
            self.set_cell(x, cell.duplicate());
            x = x + 1;
        }
    }

    /// The text of the cells from column `start` up to `end`, a wide cell counted once.
    pub fn columns_text(&self, start: usize, end: usize) -> (text: Vec<char>)
        ensures
            text@ == self@.text_from(start as int, end as int),
    {
        let mut text: Vec<char> = Vec::new();
        let mut i = start;
        let len = self.cells.len();
        while i < end && i < len
            invariant
                len == self.cells.len(),
                text@ + self@.text_from(i as int, end as int) == self@.text_from(
                    start as int,
                    end as int,
                ),
            decreases len - i,
        {
            let cell = &self.cells[i];
            assert(self@.cells[i as int] == cell@);
            let ghost before = text@;
            append_text(&mut text, cell.chars());
            let w = cell.width();
            let ghost step: int = if w > 1 { 2 } else { 1 };
            let ghost rest = self@.text_from(i + step, end as int);
            assert(self@.text_from(i as int, end as int) == cell@.text + rest);
            assert(text@ + rest =~= before + (cell@.text + rest));
            if w > 1 && len - i > 1 {
                i = i + 2;
            } else if w > 1 {
                i = len;
                assert(self@.text_from(i as int, end as int) =~= rest);
            } else {
                i = i + 1;
            }
        }
        assert(self@.text_from(i as int, end as int) =~= Seq::<char>::empty());
        assert(text@ + Seq::<char>::empty() =~= text@);
        text
    }

    /// Where the text of each cell begins in the text of the line, counted in bytes;
    /// nothing for a cell that a wide cell covers, and for a cell whose place is past what
    /// the machine's word can count.
    pub fn offsets(&self) -> (r: Vec<Option<usize>>)
        ensures
            r@.len() == self@.cells.len(),
            forall|k: int|
                0 <= k < r@.len() ==> (#[trigger] r@[k]) == (match self@.cell_offset(0, 0, k) {
                    Some(o) => if 0 <= o <= usize::MAX {
                        Some(o as usize)
                    } else {
                        None
                    },
                    None => None,
                }),
    {
        let n = self.cells.len();
        let mut r: Vec<Option<usize>> = Vec::new();
        let mut at: Option<usize> = Some(0);
        let ghost mut place: int = 0;
        let mut k: usize = 0;
        while k < n
            invariant
                k <= n,
                n == self.cells.len(),
                r@.len() == k,
                0 <= place,
                at matches Some(v) ==> v == place,
                at is None ==> place > usize::MAX,
                forall|t: int|
                    k <= t < n ==> self@.cell_offset(0, 0, t) == self@.cell_offset(
                        k as int,
                        place,
                        t,
                    ),
                forall|t: int|
                    0 <= t < k ==> (#[trigger] r@[t]) == (match self@.cell_offset(0, 0, t) {
                        Some(o) => if 0 <= o <= usize::MAX {
                            Some(o as usize)
                        } else {
                            None
                        },
                        None => None,
                    }),
            decreases n - k,
        {
            assert(self@.cells[k as int] == self.cells@[k as int]@);
            let cell = &self.cells[k];
            let bytes = byte_len(cell.chars());
            let wide = cell.width() > 1;
            let ghost grown = place + text_bytes(cell@.text, cell@.text.len() as int);
            let ghost step: int = if wide { 2 } else { 1 };
            proof {
                assert(self@.cell_offset(0, 0, k as int) == Some(place));
                assert forall|t: int| k + 1 <= t < n implies self@.cell_offset(0, 0, t)
                    == self@.cell_offset(k + step, grown, t) by {
                    assert(self@.cell_offset(0, 0, t) == self@.cell_offset(k as int, place, t));
                }
            }
            r.push(at);
            at = match (at, bytes) {
                (Some(a), Some(b)) => if a <= usize::MAX - b {
                    Some(a + b)
                } else {
                    None
                },
                _ => None,
            };
            proof {
                place = grown;
            }
            k = k + 1;
            if wide && k < n {
                proof {
                    assert(self@.cell_offset(k + 1, place, k as int) is None);
                }
                r.push(None);
                k = k + 1;
            }
        }
        r
    }

    /// Gives each cell that has no link the link that the found links give it, and marks the
    /// line as searched.
    pub fn apply_found_links(&mut self, found: &Vec<FoundLink>, base: usize)
        requires
            base + found@.len() <= usize::MAX,
        ensures
            final(self)@ == old(self)@.with_found_links(views(found@), base as int),
    {
        let offsets = self.offsets();
        let n = self.cells.len();
        let mut i: usize = 0;
        assert(self@.cells =~= old(self)@.linked_prefix(views(found@), base as int, 0));
        while i < n
            invariant
                i <= n,
                n == self.cells.len(),
                n == old(self).cells.len(),
                offsets@.len() == n,
                base + found@.len() <= usize::MAX,
                self.dirty == old(self).dirty,
                self.has_hyperlink == old(self).has_hyperlink,
                self.scanned == old(self).scanned,
                self.has_implicit == old(self).has_implicit,
                forall|k: int|
                    0 <= k < n ==> (#[trigger] offsets@[k]) == (match old(self)@.cell_offset(0, 0, k) {
                        Some(o) => if 0 <= o <= usize::MAX {
                            Some(o as usize)
                        } else {
                            None
                        },
                        None => None,
                    }),
                self@.cells == old(self)@.linked_prefix(views(found@), base as int, i as int),
            decreases n - i,
        {
            let ghost before = self.cells@;
            assert(cell_views(before) == old(self)@.linked_prefix(views(found@), base as int, i as int));
            assert(cell_views(before)[i as int] == old(self)@.cells[i as int]);
            assert(before[i as int]@ == old(self)@.cells[i as int]);
            if self.cells[i].attrs().hyperlink.is_none() {
                let link = match offsets[i] {
                    Some(o) => match pick_hit(found, o) {
                        Some(k) => Some(LinkId { index: base + k, implicit: true }),
                        None => None,
                    },
                    None => None,
                };
                proof {
                    let spec_offset = old(self)@.cell_offset(0, 0, i as int);
                    assert(offsets@[i as int] == (match spec_offset {
                        Some(o) => if 0 <= o <= usize::MAX {
                            Some(o as usize)
                        } else {
                            None
                        },
                        None => None,
                    }));
                    match spec_offset {
                        Some(o) => {
                            lemma_best_hit_range(views(found@), o, found@.len() as int);
                            lemma_cell_offset_nonnegative(old(self)@, 0, 0, i as int);
                        },
                        None => {},
                    }
                    assert(link == old(self)@.assigned_link(views(found@), base as int, i as int));
                }
                self.cells[i].set_link(link);
            }
            proof {
                assert(self.cells@ =~= before.update(i as int, self.cells@[i as int]));
                assert forall|k: int| 0 <= k < n implies cell_views(self.cells@)[k] == old(
                    self,
                )@.linked_prefix(views(found@), base as int, i + 1)[k] by {
                    if k != i {
                        assert(cell_views(before)[k] == old(self)@.linked_prefix(
                            views(found@),
                            base as int,
                            i as int,
                        )[k]);
                    }
                }
                assert(cell_views(self.cells@) =~= old(self)@.linked_prefix(
                    views(found@),
                    base as int,
                    i + 1,
                ));
            }
            i = i + 1;
        }
        self.scanned = true;
        self.has_implicit = found.len() > 0;
    }

    /// The text of the line as a string.
    pub fn as_str(&self) -> (s: String)
        ensures
            s@ == self@.text_from(0, self@.cells.len() as int),
    {
        crate::text::string_of(&self.columns_text(0, self.cells.len()))
    }

    /// The columns of the word under column `click`, and whether the word runs on into the
    /// next line.
    pub fn compute_double_click_range(&self, click: usize) -> (range: DoubleClickRange)
        requires
            click < self@.cells.len(),
        ensures
            range == self@.double_click_range(click as int),
    {
        let len = self.cells.len();
        let mut upper = click;
        while upper < len && is_double_click_word(self.cells[upper].chars())
            invariant
                len == self.cells.len(),
                click <= upper <= len,
                word_upper(self@.cells, upper as int) == word_upper(self@.cells, click as int),
            decreases len - upper,
        {
            upper = upper + 1;
        }
        let mut lower = click;
        if upper > click {
            while lower > 0 && is_double_click_word(self.cells[lower - 1].chars())
                invariant
                    len == self.cells.len(),
                    lower <= click < len,
                    is_word_text(self@.cells[lower as int].text),
                    word_lower(self@.cells, lower as int) == word_lower(self@.cells, click as int),
                decreases lower,
            {
                lower = lower - 1;
            }
            assert(word_lower(self@.cells, lower as int) == lower) by {
                assert(word_lower(self@.cells, lower - 1) == lower);
            }
        }
        if upper > lower && self.cells[upper - 1].attrs().wrapped() {
            DoubleClickRange::RangeWithWrap { start: lower, end: upper }
        } else {
            DoubleClickRange::Range { start: lower, end: upper }
        }
    }
}

} // verus!
