//! What a terminal is, and what each operation makes of it.

use crate::cell::CellAttributes;
use crate::cell::CellView;
use crate::cell::LinkId;
use crate::color::PaletteView;
use crate::cell::ColorAttribute;
use crate::escape::csi::Cursor;
use crate::escape::csi::DecPrivateMode;
use crate::escape::csi::DecPrivateModeCode;
use crate::escape::csi::Device;
use crate::escape::csi::Edit;
use crate::escape::csi::Mode;
use crate::escape::csi::Sgr;
use crate::escape::csi::TerminalMode;
use crate::escape::csi::TerminalModeCode;
use crate::escape::csi::Window;
use crate::escape::OneBased;
use crate::reply::checksum_report;
use crate::reply::device_ident;
use crate::reply::mouse_report;
use crate::reply::paste_end;
use crate::reply::paste_start;
use crate::reply::position_report;
use crate::reply::secondary_ident;
use crate::reply::size_report;
use crate::reply::status_ok;
use crate::escape::csi::EraseInDisplay;
use crate::escape::csi::EraseInLine;
use crate::host::HostRequestView;
use crate::hyperlink::found_links;
use crate::hyperlink::FoundLinkView;
use crate::hyperlink::HyperlinkView;
use crate::hyperlink::RuleView;
use crate::input::key_bytes;
use crate::input::key_scroll_pages;
use crate::input::KeyCode;
use crate::input::KeyModifiers;
use crate::input::LastMouseClick;
use crate::input::MouseEvent;
use crate::input::MouseEventKind;
use crate::input::MouseButton;
use crate::line::trimmed_end;
use crate::line::DoubleClickRange;
use crate::line::LineView;
use crate::screen::all_marked;
use crate::screen::dirtied;
use crate::screen::lemma_row_dirtied_shape;
use crate::screen::lemma_with_cleared_shape;
use crate::screen::links_dirtied;
use crate::screen::ScreenView;
use crate::screen::VisibleRowIndex;
use crate::screen::MAX_DIMENSION;
use crate::screen::MAX_LINES;
use crate::selection::ranges_intersect;
use crate::selection::SelectionCoordinate;
use crate::selection::SelectionRange;
use crate::tabstop::TabStopView;
use vstd::prelude::*;

verus! {

/// A cell of the visible screen.
#[derive(Clone, Copy, Debug, PartialEq, Eq, Structural)]
pub struct CursorPosition {
    pub x: usize,
    pub y: VisibleRowIndex,
}

/// What a cursor save keeps.
#[derive(Clone, Copy, Debug, PartialEq, Eq, Structural)]
pub struct SavedCursor {
    pub position: CursorPosition,
    pub wrap_next: bool,
    pub insert: bool,
}

/// Where to move the cursor along one axis: by some cells, or to a cell.
#[derive(Clone, Copy, Debug, PartialEq, Eq, Structural)]
pub enum Position {
    Relative(i64),
    Absolute(i64),
}

/// What the pair of screens is.
pub struct ScreenOrAltView {
    pub screen: ScreenView,
    pub alt_screen: ScreenView,
    pub alt_screen_is_active: bool,
    pub saved_cursor: Option<SavedCursor>,
    pub alt_saved_cursor: Option<SavedCursor>,
}

impl ScreenOrAltView {
    /// Both screens are well formed and of one size, and the alternate screen has no
    /// scrollback.
    pub open spec fn wf(self) -> bool {
        &&& self.screen.wf()
        &&& self.alt_screen.wf()
        &&& self.alt_screen.scrollback_size == 0
        &&& self.screen.physical_rows == self.alt_screen.physical_rows
        &&& self.screen.physical_cols == self.alt_screen.physical_cols
    }

    /// Two blank screens of the given size, the primary one shown.
    pub open spec fn blank(rows: usize, cols: usize, scrollback: usize) -> ScreenOrAltView {
        ScreenOrAltView {
            screen: ScreenView::blank(rows, cols, scrollback),
            alt_screen: ScreenView::blank(rows, cols, 0),
            alt_screen_is_active: false,
            saved_cursor: None,
            alt_saved_cursor: None,
        }
    }

    /// The screen that is shown.
    pub open spec fn active(self) -> ScreenView {
        if self.alt_screen_is_active {
            self.alt_screen
        } else {
            self.screen
        }
    }

    /// The pair with the screen that is shown replaced.
    pub open spec fn with_active(self, s: ScreenView) -> ScreenOrAltView {
        if self.alt_screen_is_active {
            ScreenOrAltView { alt_screen: s, ..self }
        } else {
            ScreenOrAltView { screen: s, ..self }
        }
    }

    /// Both screens resized.
    pub open spec fn resized(self, rows: usize, cols: usize) -> ScreenOrAltView {
        ScreenOrAltView {
            screen: self.screen.resized(rows, cols),
            alt_screen: self.alt_screen.resized(rows, cols),
            ..self
        }
    }

    /// The cursor saved for the screen that is shown.
    pub open spec fn active_saved_cursor(self) -> Option<SavedCursor> {
        if self.alt_screen_is_active {
            self.alt_saved_cursor
        } else {
            self.saved_cursor
        }
    }

    /// The pair with the cursor saved for the screen that is shown replaced.
    pub open spec fn with_saved_cursor(self, saved: Option<SavedCursor>) -> ScreenOrAltView {
        if self.alt_screen_is_active {
            ScreenOrAltView { alt_saved_cursor: saved, ..self }
        } else {
            ScreenOrAltView { saved_cursor: saved, ..self }
        }
    }
}

/// What a terminal is.
pub struct StateView {
    pub screen: ScreenOrAltView,
    pub pen: CellAttributes,
    pub cursor: CursorPosition,
    pub wrap_next: bool,
    pub modes: Modes,
    pub scroll_top: VisibleRowIndex,
    pub scroll_bottom: VisibleRowIndex,
    pub current_mouse_button: MouseButton,
    pub mouse_position: CursorPosition,
    pub current_highlight: Option<LinkId>,
    pub last_mouse_click: Option<LastMouseClick>,
    pub viewport_offset: VisibleRowIndex,
    pub selection_start: Option<SelectionCoordinate>,
    pub selection_range: Option<SelectionRange>,
    pub tabs: TabStopView,
    pub rules: Seq<RuleView>,
    pub links: Seq<HyperlinkView>,
    pub title: Seq<char>,
    pub palette: PaletteView,
    pub pixel_width: usize,
    pub pixel_height: usize,
    pub requests: Seq<HostRequestView>,
}

/// The mode flags that are plain switches.
#[derive(Clone, Copy, Debug, PartialEq, Eq, Structural)]
pub enum ModeFlag {
    Insert,
    BracketedPaste,
    ApplicationCursorKeys,
    ApplicationKeypad,
    ShowCursor,
    ButtonEventMouse,
    SgrMouse,
    LineDrawing,
}

/// The modes of a terminal that are plain switches.
#[derive(Clone, Copy, Debug, PartialEq, Eq, Structural)]
pub struct Modes {
    pub insert: bool,
    pub bracketed_paste: bool,
    pub application_cursor_keys: bool,
    pub application_keypad: bool,
    pub cursor_visible: bool,
    pub button_event_mouse: bool,
    pub sgr_mouse: bool,
    pub dec_line_drawing_mode: bool,
}

impl Modes {
    /// The modes of a new terminal: all off, but the cursor is shown.
    pub open spec fn initial() -> Modes {
        Modes {
            insert: false,
            bracketed_paste: false,
            application_cursor_keys: false,
            application_keypad: false,
            cursor_visible: true,
            button_event_mouse: false,
            sgr_mouse: false,
            dec_line_drawing_mode: false,
        }
    }

    /// The modes with one of them set to `value`.
    pub open spec fn with(self, flag: ModeFlag, value: bool) -> Modes {
        match flag {
            ModeFlag::Insert => Modes { insert: value, ..self },
            ModeFlag::BracketedPaste => Modes { bracketed_paste: value, ..self },
            ModeFlag::ApplicationCursorKeys => Modes { application_cursor_keys: value, ..self },
            ModeFlag::ApplicationKeypad => Modes { application_keypad: value, ..self },
            ModeFlag::ShowCursor => Modes { cursor_visible: value, ..self },
            ModeFlag::ButtonEventMouse => Modes { button_event_mouse: value, ..self },
            ModeFlag::SgrMouse => Modes { sgr_mouse: value, ..self },
            ModeFlag::LineDrawing => Modes { dec_line_drawing_mode: value, ..self },
        }
    }

    /// The modes of a new terminal.
    pub fn new() -> (m: Modes)
        ensures
            m == Modes::initial(),
    {
        Modes {
            insert: false,
            bracketed_paste: false,
            application_cursor_keys: false,
            application_keypad: false,
            cursor_visible: true,
            button_event_mouse: false,
            sgr_mouse: false,
            dec_line_drawing_mode: false,
        }
    }

    /// Sets one of the modes to `value`.
    pub fn set(&mut self, flag: ModeFlag, value: bool)
        ensures
            *final(self) == old(self).with(flag, value),
    {
        match flag {
            ModeFlag::Insert => {
                self.insert = value;
            },
            ModeFlag::BracketedPaste => {
                self.bracketed_paste = value;
            },
            ModeFlag::ApplicationCursorKeys => {
                self.application_cursor_keys = value;
            },
            ModeFlag::ApplicationKeypad => {
                self.application_keypad = value;
            },
            ModeFlag::ShowCursor => {
                self.cursor_visible = value;
            },
            ModeFlag::ButtonEventMouse => {
                self.button_event_mouse = value;
            },
            ModeFlag::SgrMouse => {
                self.sgr_mouse = value;
            },
            ModeFlag::LineDrawing => {
                self.dec_line_drawing_mode = value;
            },
        }
    }
}

/// The pen after it takes one graphic attribute. A reset makes it plain but keeps its link.
#[verifier::opaque]
pub open spec fn pen_after(pen: CellAttributes, sgr: Sgr) -> CellAttributes {
    match sgr {
        Sgr::Reset => CellAttributes { hyperlink: pen.hyperlink, ..CellAttributes::plain() },
        Sgr::Intensity(v) => CellAttributes { intensity: v, ..pen },
        Sgr::Underline(v) => CellAttributes { underline: v, ..pen },
        Sgr::Blink(v) => CellAttributes { blink: v, ..pen },
        Sgr::Italic(v) => CellAttributes { italic: v, ..pen },
        Sgr::Inverse(v) => CellAttributes { reverse: v, ..pen },
        Sgr::Invisible(v) => CellAttributes { invisible: v, ..pen },
        Sgr::StrikeThrough(v) => CellAttributes { strikethrough: v, ..pen },
        Sgr::Foreground(c) => CellAttributes { foreground: ColorAttribute::of(c), ..pen },
        Sgr::Background(c) => CellAttributes { background: ColorAttribute::of(c), ..pen },
        Sgr::Font(_) => pen,
    }
}

/// The records of the links that rules found.
pub open spec fn implicit_links(found: Seq<FoundLinkView>) -> Seq<HyperlinkView> {
    Seq::new(found.len(), |k: int| HyperlinkView::implicit(found[k].uri))
}

/// `v` kept within `lo` and `hi`.
pub open spec fn clamp(v: int, lo: int, hi: int) -> int {
    if v < lo {
        lo
    } else if v > hi {
        hi
    } else {
        v
    }
}

/// Whether a selection coordinate is within the lines a screen can hold.
pub open spec fn coordinate_ok(c: SelectionCoordinate) -> bool {
    -(MAX_LINES as int) <= c.y < MAX_LINES
}

impl StateView {
    /// The screen that is shown.
    pub open spec fn active(self) -> ScreenView {
        self.screen.active()
    }

    /// The terminal with the screen that is shown replaced.
    #[verifier::opaque]
    pub open spec fn with_active(self, s: ScreenView) -> StateView {
        StateView { screen: self.screen.with_active(s), ..self }
    }

    /// The number of rows of the screen.
    pub open spec fn rows(self) -> int {
        self.active().physical_rows as int
    }

    /// The number of columns of the screen.
    pub open spec fn cols(self) -> int {
        self.active().physical_cols as int
    }

    /// The screens are well formed; the cursor is on the screen; the scroll region is a
    /// non-empty range of rows; the viewport is within the scrollback; there is a tab flag
    /// for every column; the palette is complete.
    pub open spec fn wf(self) -> bool {
        &&& self.screen.wf()
        &&& 0 <= self.cursor.x < self.cols()
        &&& 0 <= self.cursor.y < self.rows()
        &&& 0 <= self.scroll_top < self.scroll_bottom <= self.rows()
        &&& 0 <= self.viewport_offset <= self.active().base()
        &&& 0 <= self.mouse_position.x < self.cols()
        &&& 0 <= self.mouse_position.y < self.rows()
        &&& self.tabs.tabs.len() >= self.cols()
        &&& self.tabs.tab_width >= 1
        &&& self.palette.wf()
        &&& (self.selection_start matches Some(c) ==> coordinate_ok(c))
        &&& (self.selection_range matches Some(r) ==> coordinate_ok(r.start) && coordinate_ok(r.end))
    }

    /// A new terminal: blank screens, the cursor at the top left, a plain pen.
    pub open spec fn initial(
        rows: usize,
        cols: usize,
        pixel_width: usize,
        pixel_height: usize,
        scrollback: usize,
        rules: Seq<RuleView>,
    ) -> StateView {
        StateView {
            screen: ScreenOrAltView::blank(rows, cols, scrollback),
            pen: CellAttributes::plain(),
            cursor: CursorPosition { x: 0, y: 0 },
            wrap_next: false,
            modes: Modes::initial(),
            scroll_top: 0,
            scroll_bottom: rows as i64,
            current_mouse_button: MouseButton::NoButton,
            mouse_position: CursorPosition { x: 0, y: 0 },
            current_highlight: None,
            last_mouse_click: None,
            viewport_offset: 0,
            selection_start: None,
            selection_range: None,
            tabs: TabStopView::fresh(cols, 8),
            rules,
            links: Seq::empty(),
            title: seq!['m', 'i', 'r', 'o'],
            palette: PaletteView::standard(),
            pixel_width,
            pixel_height,
            requests: Seq::empty(),
        }
    }

    /// The lines of the selection are marked dirty.
    #[verifier::opaque]
    pub open spec fn selection_dirtied(self) -> StateView {
        match self.selection_range {
            Some(sel) => {
                let s = self.active();
                self.with_active(
                    s.with_lines(
                        dirtied(s.lines, s.row_index(sel.first_row()), s.row_index(sel.rows_end())),
                    ),
                )
            },
            None => self,
        }
    }

    /// The selection is dropped, its lines marked dirty.
    pub open spec fn selection_cleared(self) -> StateView {
        StateView { selection_range: None, selection_start: None, ..self.selection_dirtied() }
    }

    /// Whether the selection holds a column from `start` up to `end` of row `row`.
    pub open spec fn selection_intersects(self, start: int, end: int, row: int) -> bool {
        match self.selection_range {
            Some(sel) => ranges_intersect(start, end, sel.cols_start(row), sel.cols_end(row)),
            None => false,
        }
    }

    /// Whether the selection holds a row from `start` up to `end`.
    pub open spec fn selection_intersects_rows(self, start: int, end: int) -> bool {
        match self.selection_range {
            Some(sel) => ranges_intersect(start, end, sel.first_row(), sel.rows_end()),
            None => false,
        }
    }

    /// The selection is dropped if it holds a column from `start` up to `end` of row `row`;
    /// a selection that stays is kept with its upper end first.
    #[verifier::opaque]
    pub open spec fn cleared_if_intersects(self, start: int, end: int, row: int) -> StateView {
        match self.selection_range {
            Some(sel) => if self.selection_intersects(start, end, row) {
                StateView { selection_range: None, selection_start: None, ..self }
            } else {
                StateView { selection_range: Some(sel.normalized()), ..self }
            },
            None => self,
        }
    }

    /// The selection is dropped if it holds a row from `start` up to `end`.
    #[verifier::opaque]
    pub open spec fn cleared_if_intersects_rows(self, start: int, end: int) -> StateView {
        if self.selection_intersects_rows(start, end) {
            StateView { selection_range: None, selection_start: None, ..self }
        } else {
            self
        }
    }

    /// The link of the cell at column `x` of screen row `y`, if the cell has one.
    pub open spec fn hyperlink_for_cell(self, x: int, y: int) -> Option<LinkId> {
        let s = self.active();
        let idx = s.row_index(y);
        if idx < s.lines.len() && 0 <= x < s.lines[idx].cells.len() {
            s.lines[idx].cells[x].attrs.hyperlink
        } else {
            None
        }
    }

    /// Every line that holds a link is marked dirty.
    #[verifier::opaque]
    pub open spec fn hyperlinks_invalidated(self) -> StateView {
        let s = self.active();
        self.with_active(s.with_lines(links_dirtied(s.lines, s.lines.len() as int)))
    }

    /// The line at index `idx` of the screen that is shown is searched for links, unless it
    /// has been searched since it last changed: the rules are applied to its text, a record
    /// is made for each link they find, and each cell that has no link takes the link of the
    /// longest found link that spans it.
    #[verifier::opaque]
    pub open spec fn line_scanned(self, idx: int) -> StateView {
        let a = self.active();
        if idx < 0 || idx >= a.lines.len() || a.lines[idx].scanned {
            self
        } else {
            let line = a.lines[idx];
            let found = found_links(
                self.rules,
                line.text_from(0, line.cells.len() as int),
                self.rules.len() as int,
            );
            if self.links.len() + found.len() > usize::MAX {
                self
            } else {
                StateView {
                    links: self.links + implicit_links(found),
                    ..self.with_active(
                        a.with_lines(
                            a.lines.update(idx, line.with_found_links(found, self.links.len() as int)),
                        ),
                    )
                }
            }
        }
    }

    /// The highlighted link becomes the one under the mouse, after the line under the mouse
    /// has been searched for links, and every line that may hold a link is marked dirty.
    #[verifier::opaque]
    pub open spec fn highlight_recomputed(self) -> StateView {
        let row = self.mouse_position.y - self.viewport_offset;
        let scanned = self.line_scanned(self.active().row_index(row));
        StateView {
            current_highlight: scanned.hyperlink_for_cell(self.mouse_position.x as int, row),
            ..scanned
        }.hyperlinks_invalidated()
    }

    /// The column a move along the row leads to.
    pub open spec fn target_x(self, x: Position) -> int {
        clamp(
            match x {
                Position::Relative(d) => self.cursor.x + d,
                Position::Absolute(v) => v as int,
            },
            0,
            self.cols() - 1,
        )
    }

    /// The row a move along the column leads to.
    pub open spec fn target_y(self, y: Position) -> int {
        clamp(
            match y {
                Position::Relative(d) => self.cursor.y + d,
                Position::Absolute(v) => v as int,
            },
            0,
            self.rows() - 1,
        )
    }

    /// The cursor moves, staying on the screen; a pending wrap is dropped, and the row it
    /// leaves and the row it reaches are marked dirty.
    #[verifier::opaque]
    pub open spec fn cursor_moved(self, x: Position, y: Position) -> StateView {
        let new_x = self.target_x(x);
        let new_y = self.target_y(y);
        let s = self.active().row_dirtied(self.cursor.y as int).row_dirtied(new_y);
        StateView {
            cursor: CursorPosition { x: new_x as usize, y: new_y as i64 },
            wrap_next: false,
            ..self.with_active(s)
        }
    }

    /// The viewport moves to `position` lines back into the scrollback, as far as there is
    /// scrollback: the selection is dropped, the rows that come into view are marked dirty
    /// and the highlighted link is recomputed.
    pub open spec fn viewport_set(self, position: int) -> StateView {
        let cleared = self.selection_cleared();
        let pos = clamp(position, 0, cleared.active().base());
        StateView { viewport_offset: pos as i64, ..cleared }.viewport_dirtied().highlight_recomputed()
    }

    /// The rows in view are marked dirty.
    #[verifier::opaque]
    pub open spec fn viewport_dirtied(self) -> StateView {
        let s = self.active();
        let top = s.lines.len() - (s.physical_rows + self.viewport_offset);
        self.with_active(s.with_lines(dirtied(s.lines, top, top + s.physical_rows)))
    }

    /// The viewport moves by `delta` lines, forward in the text for a positive `delta`.
    pub open spec fn viewport_scrolled(self, delta: int) -> StateView {
        self.viewport_set(self.viewport_offset - delta)
    }

    /// The scroll region scrolls up by `n` rows; the selection is dropped.
    #[verifier::opaque]
    pub open spec fn scrolled_up(self, n: int) -> StateView {
        let cleared = self.selection_cleared();
        cleared.with_scrolled(
            cleared.active().scrolled_up(cleared.scroll_top as int, cleared.scroll_bottom as int, n),
        )
    }

    /// The screen that is shown is replaced by what a scroll made of it; the viewport stays
    /// within the scrollback that is left.
    #[verifier::opaque]
    pub open spec fn with_scrolled(self, a: ScreenView) -> StateView {
        StateView {
            viewport_offset: if self.viewport_offset > a.base() {
                a.base() as i64
            } else {
                self.viewport_offset
            },
            ..self.with_active(a)
        }
    }

    /// The scroll region scrolls down by `n` rows; the selection is dropped.
    #[verifier::opaque]
    pub open spec fn scrolled_down(self, n: int) -> StateView {
        let cleared = self.selection_cleared();
        cleared.with_active(
            cleared.active().scrolled_down(cleared.scroll_top as int, cleared.scroll_bottom as int, n),
        )
    }

    /// The cursor goes down one row, to the first column if asked; at the bottom of the
    /// scroll region the region scrolls instead.
    pub open spec fn new_line(self, move_to_first_column: bool) -> StateView {
        let x = if move_to_first_column {
            0
        } else {
            self.cursor.x as i64
        };
        let y = self.cursor.y;
        if y == self.scroll_bottom - 1 {
            self.scrolled_up(1).cursor_moved(Position::Absolute(x), Position::Absolute(y))
        } else {
            self.cursor_moved(Position::Absolute(x), Position::Absolute((y + 1) as i64))
        }
    }

    /// IND: the cursor goes down one row in its column, scrolling at the bottom of the
    /// scroll region.
    pub open spec fn index(self) -> StateView {
        let y = self.cursor.y;
        if y == self.scroll_bottom - 1 {
            self.scrolled_up(1).cursor_moved(Position::Relative(0), Position::Absolute(y))
        } else {
            self.cursor_moved(Position::Relative(0), Position::Absolute((y + 1) as i64))
        }
    }

    /// RI: the cursor goes up one row in its column, scrolling at the top of the scroll
    /// region.
    pub open spec fn reverse_index(self) -> StateView {
        let y = self.cursor.y;
        if y == self.scroll_top {
            self.scrolled_down(1).cursor_moved(Position::Relative(0), Position::Absolute(y))
        } else {
            self.cursor_moved(Position::Relative(0), Position::Absolute((y - 1) as i64))
        }
    }

    /// HTS: a tab stop is set at the cursor's column.
    #[verifier::opaque]
    pub open spec fn tab_set(self) -> StateView {
        StateView { tabs: self.tabs.with_stop(self.cursor.x as int), ..self }
    }

    /// HT: the cursor goes to the next tab stop, or to the last column if there is none.
    pub open spec fn horizontal_tab(self) -> StateView {
        let x = match self.tabs.next_stop(self.cursor.x as int) {
            Some(x) => x as int,
            None => self.cols() - 1,
        };
        self.cursor_moved(Position::Absolute(clamp(x, 0, MAX_DIMENSION as int) as i64), Position::Relative(0))
    }

    /// The cursor, the wrap and the insert flag are saved for the screen that is shown.
    #[verifier::opaque]
    pub open spec fn cursor_saved(self) -> StateView {
        StateView {
            screen: self.screen.with_saved_cursor(
                Some(
                    SavedCursor {
                        position: self.cursor,
                        insert: self.modes.insert,
                        wrap_next: self.wrap_next,
                    },
                ),
            ),
            ..self
        }
    }

    /// The cursor, the wrap and the insert flag saved for the screen that is shown come
    /// back; where nothing was saved the cursor goes to the top left.
    #[verifier::opaque]
    pub open spec fn cursor_restored(self) -> StateView {
        let saved = match self.screen.active_saved_cursor() {
            Some(s) => s,
            None => SavedCursor {
                position: CursorPosition { x: 0, y: 0 },
                insert: false,
                wrap_next: false,
            },
        };
        let moved = self.cursor_moved(
            Position::Absolute(clamp(saved.position.x as int, 0, MAX_DIMENSION as int) as i64),
            Position::Absolute(saved.position.y),
        );
        StateView {
            wrap_next: saved.wrap_next,
            modes: moved.modes.with(ModeFlag::Insert, saved.insert),
            ..moved
        }
    }

    /// Every line of the screen that is shown, scrollback included, gets this dirty flag.
    #[verifier::opaque]
    pub open spec fn all_lines_marked(self, dirty: bool) -> StateView {
        self.with_active(self.active().with_lines(all_marked(self.active().lines, dirty)))
    }

    /// The cursor as the viewport shows it.
    pub open spec fn shown_cursor(self) -> CursorPosition {
        CursorPosition { x: self.cursor.x, y: (self.cursor.y + self.viewport_offset) as i64 }
    }

    /// The text of the rows from `y` up to `end` of a selection, added to `acc`: the text of
    /// each row without the white space at its end, and a line feed before each row but the
    /// first and those that continue a wrapped row.
    pub open spec fn text_rows(
        self,
        sel: SelectionRange,
        y: int,
        end: int,
        acc: Seq<char>,
        last_was_wrapped: bool,
    ) -> Seq<char>
        decreases end - y,
    {
        if y >= end {
            acc
        } else {
            let s = self.active();
            let idx = s.row_index(y);
            if idx >= s.lines.len() {
                self.text_rows(sel, y + 1, end, acc, last_was_wrapped)
            } else {
                let line = s.lines[idx];
                let start = sel.cols_start(y);
                let stop = sel.cols_end(y);
                let joined = if acc.len() > 0 && !last_was_wrapped {
                    acc.push('\n')
                } else {
                    acc
                };
                let text = joined + trimmed_end(line.text_from(start, stop));
                let last = if stop < line.cells.len() {
                    stop - 1
                } else {
                    line.cells.len() - 1
                };
                let wrapped = last >= 0 && line.cells[last].attrs.wrapped && line.cells[last].text
                    != seq![' '];
                self.text_rows(sel, y + 1, end, text, wrapped)
            }
        }
    }

    /// The text of the selection.
    pub open spec fn selection_text(self) -> Seq<char> {
        match self.selection_range {
            Some(sel) => self.text_rows(
                sel,
                sel.first_row(),
                sel.rows_end(),
                Seq::empty(),
                false,
            ),
            None => Seq::empty(),
        }
    }

    /// The index of the line that visible row `i` shows through the viewport.
    pub open spec fn shown_index(self, i: int) -> int {
        self.active().base() - self.viewport_offset + i
    }

    /// The first selected column of row `row` of the viewport.
    pub open spec fn selected_start(self, row: int) -> int {
        match self.selection_range {
            Some(sel) => sel.cols_start(row - self.viewport_offset),
            None => 0,
        }
    }

    /// The column after the last selected column of row `row` of the viewport.
    pub open spec fn selected_end(self, row: int) -> int {
        match self.selection_range {
            Some(sel) => sel.cols_end(row - self.viewport_offset),
            None => 0,
        }
    }

    /// The rows among the first `upto` rows in view that are dirty.
    pub open spec fn dirty_rows(self, upto: int) -> Seq<int>
        decreases upto,
    {
        if upto <= 0 {
            Seq::empty()
        } else {
            let rest = self.dirty_rows(upto - 1);
            if self.active().lines[self.shown_index(upto - 1)].dirty {
                rest.push(upto - 1)
            } else {
                rest
            }
        }
    }

    /// The terminal takes a new size: both screens are resized, the scroll region becomes the
    /// whole screen, the tab stops reach the new width, the selection is dropped, the viewport
    /// shows the newest lines and the cursor stays on the screen.
    #[verifier::opaque]
    pub open spec fn resized(
        self,
        rows: usize,
        cols: usize,
        pixel_width: usize,
        pixel_height: usize,
    ) -> StateView {
        self.sized(rows, cols, pixel_width, pixel_height).viewport_set(0).cursor_moved(
            Position::Relative(0),
            Position::Relative(0),
        )
    }

    /// The new size is taken, before the viewport and the cursor are brought up to date.
    pub open spec fn sized(
        self,
        rows: usize,
        cols: usize,
        pixel_width: usize,
        pixel_height: usize,
    ) -> StateView {
        StateView {
            screen: self.screen.resized(rows, cols),
            scroll_top: 0,
            scroll_bottom: rows as i64,
            pixel_width,
            pixel_height,
            tabs: self.tabs.resized(cols),
            selection_range: None,
            selection_start: None,
            viewport_offset: 0,
            mouse_position: CursorPosition {
                x: clamp(self.mouse_position.x as int, 0, cols - 1) as usize,
                y: clamp(self.mouse_position.y as int, 0, rows - 1) as i64,
            },
            cursor: CursorPosition {
                x: clamp(self.cursor.x as int, 0, cols - 1) as usize,
                y: clamp(self.cursor.y as int, 0, rows - 1) as i64,
            },
            ..self
        }
    }

    /// The pen's link becomes `link`, which joins the links the terminal knows.
    #[verifier::opaque]
    pub open spec fn hyperlink_set(self, link: Option<HyperlinkView>) -> StateView {
        match link {
            Some(l) => StateView {
                links: self.links.push(l),
                pen: CellAttributes {
                    hyperlink: Some(LinkId { index: self.links.len() as usize, implicit: false }),
                    ..self.pen
                },
                ..self
            },
            None => StateView { pen: CellAttributes { hyperlink: None, ..self.pen }, ..self },
        }
    }

    /// Where an editing operation of `n` cells that begins at the cursor ends: `n` columns on,
    /// or at the right edge.
    pub open spec fn edit_limit(self, n: u32) -> int {
        if self.cursor.x + n < self.cols() {
            self.cursor.x + n
        } else {
            self.cols()
        }
    }

    /// The columns of the cursor's row that an erase in line covers.
    pub open spec fn erase_start(self, e: EraseInLine) -> int {
        match e {
            EraseInLine::EraseToEndOfLine => self.cursor.x as int,
            _ => 0,
        }
    }

    /// The column after the last column of the cursor's row that an erase in line covers.
    pub open spec fn erase_end(self, e: EraseInLine) -> int {
        match e {
            EraseInLine::EraseToStartOfLine => self.cursor.x as int,
            _ => self.cols(),
        }
    }

    /// Part of the cursor's row is cleared with the pen's attributes, and a selection that
    /// holds a cleared column is dropped.
    #[verifier::opaque]
    pub open spec fn erased_in_line(self, e: EraseInLine) -> StateView {
        let start = self.erase_start(e);
        let end = self.erase_end(e);
        self.with_active(
            self.active().with_cleared(self.cursor.y as int, start, end, self.pen.sgr_only()),
        ).cleared_if_intersects(start, end, self.cursor.y as int)
    }

    /// `n` cells are removed at the cursor, as far as the right edge.
    #[verifier::opaque]
    pub open spec fn chars_deleted(self, n: u32) -> StateView {
        let x = self.cursor.x as int;
        self.with_active(
            self.active().with_erased_cells(x, self.cursor.y as int, self.edit_limit(n) - x),
        ).cleared_if_intersects(x, self.edit_limit(n), self.cursor.y as int)
    }

    /// `n` cells from the cursor on become blanks with the pen's attributes, as far as the
    /// right edge.
    #[verifier::opaque]
    pub open spec fn chars_erased(self, n: u32) -> StateView {
        let x = self.cursor.x as int;
        self.with_active(
            self.active().with_cells(
                x,
                self.edit_limit(n),
                self.cursor.y as int,
                CellView::blank(self.pen.sgr_only()),
            ),
        ).cleared_if_intersects(x, self.edit_limit(n), self.cursor.y as int)
    }

    /// `n` blanks are inserted at the cursor, as far as the right edge.
    #[verifier::opaque]
    pub open spec fn chars_inserted(self, n: u32) -> StateView {
        let x = self.cursor.x as int;
        self.with_active(
            self.active().with_inserted_cells(x, self.edit_limit(n), self.cursor.y as int),
        ).cleared_if_intersects(x, self.edit_limit(n), self.cursor.y as int)
    }

    /// Whether the cursor is within the scroll region.
    pub open spec fn cursor_in_region(self) -> bool {
        self.scroll_top <= self.cursor.y < self.scroll_bottom
    }

    /// `n` lines are removed at the cursor: the rows from the cursor to the bottom of the
    /// scroll region scroll up.
    #[verifier::opaque]
    pub open spec fn lines_deleted(self, n: u32) -> StateView {
        if self.cursor_in_region() {
            self.with_scrolled(
                self.active().scrolled_up(self.cursor.y as int, self.scroll_bottom as int, n as int),
            ).cleared_if_intersects_rows(self.cursor.y as int, self.scroll_bottom as int)
        } else {
            self
        }
    }

    /// `n` lines are inserted at the cursor: the rows from the cursor to the bottom of the
    /// scroll region scroll down.
    #[verifier::opaque]
    pub open spec fn lines_inserted(self, n: u32) -> StateView {
        if self.cursor_in_region() {
            self.with_active(
                self.active().scrolled_down(
                    self.cursor.y as int,
                    self.scroll_bottom as int,
                    n as int,
                ),
            ).cleared_if_intersects_rows(self.cursor.y as int, self.scroll_bottom as int)
        } else {
            self
        }
    }

    /// Whether there is a cell before the cursor to repeat.
    pub open spec fn can_repeat(self) -> bool {
        let from = if self.cursor.x > 0 {
            self.cursor.x - 1
        } else {
            0
        };
        from < self.active().row(self.cursor.y as int).cells.len()
    }

    /// The cell before the cursor is written `n` more times and the cursor moves on by `n`.
    #[verifier::opaque]
    pub open spec fn repeated(self, n: u32) -> StateView {
        if self.can_repeat() {
            self.with_active(
                self.active().with_repeated(self.cursor.x as int, self.cursor.y as int, n as int),
            ).cursor_moved(Position::Relative(n as i64), Position::Relative(0))
        } else {
            self
        }
    }

    /// The selection is dropped if it holds a cell of a row from `y` up to `end`; the rows
    /// are looked at in turn until no selection is left.
    pub open spec fn selection_cleared_over_rows(self, y: int, end: int) -> StateView
        decreases end - y,
    {
        if y >= end {
            self
        } else {
            let s = self.cleared_if_intersects(0, usize::MAX as int, y);
            if s.selection_range is None {
                s
            } else {
                s.selection_cleared_over_rows(y + 1, end)
            }
        }
    }

    /// The rows from `from` up to `to` become blanks with the pen's attributes, and a
    /// selection that holds a cell of them is dropped.
    #[verifier::opaque]
    pub open spec fn rows_erased(self, from: int, to: int) -> StateView {
        self.with_active(
            self.active().with_rows_cleared(from, to, self.pen.sgr_only()),
        ).selection_cleared_over_rows(from, to)
    }

    /// Part of the screen is erased: from the cursor to the end, from the start to the
    /// cursor, or all of it. Erasing the scrollback changes nothing.
    pub open spec fn erased_in_display(self, e: EraseInDisplay) -> StateView {
        match e {
            EraseInDisplay::EraseToEndOfDisplay => self.erased_in_line(
                EraseInLine::EraseToEndOfLine,
            ).rows_erased(self.cursor.y + 1, self.rows()),
            EraseInDisplay::EraseToStartOfDisplay => self.erased_in_line(
                EraseInLine::EraseToStartOfLine,
            ).rows_erased(0, self.cursor.y as int),
            EraseInDisplay::EraseDisplay => self.rows_erased(0, self.rows()),
            EraseInDisplay::EraseScrollback => self,
        }
    }

    /// What an editing operation makes of the terminal.
    pub open spec fn edited(self, edit: Edit) -> StateView {
        match edit {
            Edit::DeleteCharacter(n) => self.chars_deleted(n),
            Edit::DeleteLine(n) => self.lines_deleted(n),
            Edit::EraseCharacter(n) => self.chars_erased(n),
            Edit::EraseInLine(e) => self.erased_in_line(e),
            Edit::InsertCharacter(n) => self.chars_inserted(n),
            Edit::InsertLine(n) => self.lines_inserted(n),
            Edit::ScrollDown(n) => self.scrolled_down(n as int),
            Edit::ScrollUp(n) => self.scrolled_up(n as int),
            Edit::EraseInDisplay(e) => self.erased_in_display(e),
            Edit::Repeat(n) => self.repeated(n),
        }
    }

    /// The pen takes one graphic attribute. A reset makes the pen plain but keeps its link.
    #[verifier::opaque]
    pub open spec fn sgr_applied(self, sgr: Sgr) -> StateView {
        StateView { pen: pen_after(self.pen, sgr), ..self }
    }

    /// A simple mode flag is set or reset.
    #[verifier::opaque]
    pub open spec fn flag_set(self, flag: ModeFlag, value: bool) -> StateView {
        StateView { modes: self.modes.with(flag, value), ..self }
    }

    /// The other screen is shown, with the viewport on its newest lines.
    #[verifier::opaque]
    pub open spec fn screen_switched(self, alt: bool) -> StateView {
        StateView {
            screen: ScreenOrAltView { alt_screen_is_active: alt, ..self.screen },
            viewport_offset: 0,
            ..self
        }
    }

    /// The alternate screen is shown, if it is not shown already.
    pub open spec fn alt_entered(self) -> StateView {
        if !self.screen.alt_screen_is_active {
            self.screen_switched(true).viewport_set(0)
        } else {
            self
        }
    }

    /// The primary screen is shown, if it is not shown already.
    pub open spec fn alt_left(self) -> StateView {
        if self.screen.alt_screen_is_active {
            self.screen_switched(false).viewport_set(0)
        } else {
            self
        }
    }

    /// The cursor is saved and the alternate screen is shown, cleared, with the cursor at
    /// its top left, if it is not shown already.
    pub open spec fn alt_entered_clear(self) -> StateView {
        if !self.screen.alt_screen_is_active {
            self.cursor_saved().screen_switched(true).cursor_moved(
                Position::Absolute(0),
                Position::Absolute(0),
            ).erased_in_display(EraseInDisplay::EraseDisplay).viewport_set(0)
        } else {
            self
        }
    }

    /// The primary screen is shown and its cursor restored, if it is not shown already.
    pub open spec fn alt_left_restore(self) -> StateView {
        if self.screen.alt_screen_is_active {
            self.screen_switched(false).cursor_restored().viewport_set(0)
        } else {
            self
        }
    }

    /// What setting or resetting a mode makes of the terminal. Modes that are not
    /// implemented change nothing.
    pub open spec fn mode_applied(self, mode: Mode) -> StateView {
        match mode {
            Mode::SetMode(TerminalMode::Code(TerminalModeCode::Insert)) => self.flag_set(
                ModeFlag::Insert,
                true,
            ),
            Mode::ResetMode(TerminalMode::Code(TerminalModeCode::Insert)) => self.flag_set(
                ModeFlag::Insert,
                false,
            ),
            Mode::SetDecPrivateMode(DecPrivateMode::Code(code)) => self.dec_mode_set(code),
            Mode::ResetDecPrivateMode(DecPrivateMode::Code(code)) => self.dec_mode_reset(code),
            _ => self,
        }
    }

    /// What setting a DEC private mode makes of the terminal.
    pub open spec fn dec_mode_set(self, code: DecPrivateModeCode) -> StateView {
        match code {
            DecPrivateModeCode::BracketedPaste => self.flag_set(ModeFlag::BracketedPaste, true),
            DecPrivateModeCode::EnableAlternateScreen => self.alt_entered(),
            DecPrivateModeCode::ApplicationCursorKeys => self.flag_set(
                ModeFlag::ApplicationCursorKeys,
                true,
            ),
            DecPrivateModeCode::ShowCursor => self.flag_set(ModeFlag::ShowCursor, true),
            DecPrivateModeCode::ButtonEventMouse => self.flag_set(ModeFlag::ButtonEventMouse, true),
            DecPrivateModeCode::SGRMouse => self.flag_set(ModeFlag::SgrMouse, true),
            DecPrivateModeCode::ClearAndEnableAlternateScreen => self.alt_entered_clear(),
            _ => self,
        }
    }

    /// What resetting a DEC private mode makes of the terminal.
    pub open spec fn dec_mode_reset(self, code: DecPrivateModeCode) -> StateView {
        match code {
            DecPrivateModeCode::BracketedPaste => self.flag_set(ModeFlag::BracketedPaste, false),
            DecPrivateModeCode::EnableAlternateScreen => self.alt_left(),
            DecPrivateModeCode::ApplicationCursorKeys => self.flag_set(
                ModeFlag::ApplicationCursorKeys,
                false,
            ),
            DecPrivateModeCode::ShowCursor => self.flag_set(ModeFlag::ShowCursor, false),
            DecPrivateModeCode::ButtonEventMouse => self.flag_set(ModeFlag::ButtonEventMouse, false),
            DecPrivateModeCode::SGRMouse => self.flag_set(ModeFlag::SgrMouse, false),
            DecPrivateModeCode::ClearAndEnableAlternateScreen => self.alt_left_restore(),
            _ => self,
        }
    }

    /// The scroll region becomes the rows from `top` to `bottom`, both counted from one and
    /// kept on the screen; the lesser of the two is its first row.
    #[verifier::opaque]
    pub open spec fn margins_set(self, top: OneBased, bottom: OneBased) -> StateView {
        let t = clamp(top.zero_based() as int, 0, self.rows() - 1);
        let b = clamp(bottom.zero_based() as int, 0, self.rows() - 1);
        if t > b {
            StateView { scroll_top: b as i64, scroll_bottom: (t + 1) as i64, ..self }
        } else {
            StateView { scroll_top: t as i64, scroll_bottom: (b + 1) as i64, ..self }
        }
    }

    /// The cursor goes to the next tab stop `n` times over.
    pub open spec fn tabbed(self, n: nat) -> StateView
        decreases n,
    {
        if n == 0 {
            self
        } else {
            self.tabbed((n - 1) as nat).horizontal_tab()
        }
    }

    /// The cursor goes to the start of the next line `n` times over.
    pub open spec fn lines_fed(self, n: nat) -> StateView
        decreases n,
    {
        if n == 0 {
            self
        } else {
            self.lines_fed((n - 1) as nat).new_line(true)
        }
    }

    /// A request is added to those the host is to serve.
    #[verifier::opaque]
    pub open spec fn with_request(self, r: HostRequestView) -> StateView {
        StateView { requests: self.requests.push(r), ..self }
    }

    /// The requests are handed over: none is left.
    #[verifier::opaque]
    pub open spec fn requests_taken(self) -> StateView {
        StateView { requests: Seq::empty(), ..self }
    }

    /// The bytes are to be sent to the child process.
    pub open spec fn with_reply(self, bytes: Seq<u8>) -> StateView {
        self.with_request(HostRequestView::Write(bytes))
    }

    /// What a cursor operation makes of the terminal.
    pub open spec fn cursor_applied(self, op: Cursor) -> StateView {
        let here = Position::Relative(0);
        match op {
            Cursor::SetTopAndBottomMargins { top, bottom } => self.margins_set(top, bottom),
            Cursor::ForwardTabulation(n) => self.tabbed(n as nat),
            Cursor::Left(n) => self.cursor_moved(Position::Relative((-(n as i64)) as i64), here),
            Cursor::Right(n) => self.cursor_moved(Position::Relative(n as i64), here),
            Cursor::Up(n) => self.cursor_moved(here, Position::Relative((-(n as i64)) as i64)),
            Cursor::Down(n) => self.cursor_moved(here, Position::Relative(n as i64)),
            Cursor::CharacterAndLinePosition { line, col } => self.cursor_moved(
                Position::Absolute(col.zero_based() as i64),
                Position::Absolute(line.zero_based() as i64),
            ),
            Cursor::Position { line, col } => self.cursor_moved(
                Position::Absolute(col.zero_based() as i64),
                Position::Absolute(line.zero_based() as i64),
            ),
            Cursor::CharacterAbsolute(col) => self.cursor_moved(
                Position::Absolute(col.zero_based() as i64),
                here,
            ),
            Cursor::CharacterPositionAbsolute(col) => self.cursor_moved(
                Position::Absolute(col.zero_based() as i64),
                here,
            ),
            Cursor::CharacterPositionBackward(n) => self.cursor_moved(
                Position::Relative((-(n as i64)) as i64),
                here,
            ),
            Cursor::CharacterPositionForward(n) => self.cursor_moved(
                Position::Relative(n as i64),
                here,
            ),
            Cursor::LinePositionAbsolute(line) => self.cursor_moved(
                here,
                Position::Absolute((line as i64 - 1) as i64),
            ),
            Cursor::LinePositionBackward(n) => self.cursor_moved(
                here,
                Position::Relative((-(n as i64)) as i64),
            ),
            Cursor::LinePositionForward(n) => self.cursor_moved(here, Position::Relative(n as i64)),
            Cursor::NextLine(n) => self.lines_fed(n as nat),
            Cursor::PrecedingLine(n) => self.cursor_moved(
                Position::Absolute(0),
                Position::Relative((-(n as i64)) as i64),
            ),
            Cursor::RequestActivePositionReport => self.with_reply(
                position_report((self.cursor.y + 1) as u32, (self.cursor.x + 1) as u32),
            ),
            Cursor::SaveCursor => self.cursor_saved(),
            Cursor::RestoreCursor => self.cursor_restored(),
            _ => self,
        }
    }

    /// The pen becomes plain.
    #[verifier::opaque]
    pub open spec fn pen_reset(self) -> StateView {
        StateView { pen: CellAttributes::plain(), ..self }
    }

    /// What a device operation makes of the terminal.
    pub open spec fn device_applied(self, op: Device) -> StateView {
        match op {
            Device::SoftReset => self.pen_reset(),
            Device::RequestPrimaryDeviceAttributes => self.with_reply(device_ident()),
            Device::RequestSecondaryDeviceAttributes => self.with_reply(secondary_ident()),
            Device::StatusReport => self.with_reply(status_ok()),
        }
    }

    /// What a key press makes of the terminal, given the bytes it sends: shift with page up
    /// or page down scrolls the viewport by a page, and a key that sends something brings the
    /// viewport back to the newest lines.
    pub open spec fn key_pressed(self, key: KeyCode, mods: KeyModifiers) -> StateView {
        match key_bytes(key, mods, self.modes.application_cursor_keys) {
            None => self,
            Some(bytes) => {
                let pages = key_scroll_pages(key, mods);
                let scrolled = if pages != 0 {
                    self.viewport_scrolled(pages * self.rows())
                } else {
                    self
                };
                if bytes.len() > 0 && scrolled.viewport_offset != 0 {
                    scrolled.viewport_set(0)
                } else {
                    scrolled
                }
            },
        }
    }

    /// What a paste sends to the child process: the text, between the paste marks in
    /// bracketed paste mode.
    pub open spec fn paste_bytes(self, text: Seq<u8>) -> Seq<u8> {
        if self.modes.bracketed_paste {
            paste_start() + text + paste_end()
        } else {
            text
        }
    }

    /// The mouse is at a new cell: the highlighted link is recomputed.
    #[verifier::opaque]
    pub open spec fn mouse_moved_to(self, pos: CursorPosition) -> StateView {
        if pos != self.mouse_position {
            StateView { mouse_position: pos, ..self }.highlight_recomputed()
        } else {
            self
        }
    }

    /// A press of `button` at time `now` is counted into the click streak.
    #[verifier::opaque]
    pub open spec fn click_counted(self, button: MouseButton, now: u64) -> StateView {
        StateView {
            last_mouse_click: Some(
                match self.last_mouse_click {
                    None => LastMouseClick::first(button, now),
                    Some(click) => click.followed_by(button, now),
                },
            ),
            ..self
        }
    }

    /// The button that is held down becomes `button`.
    #[verifier::opaque]
    pub open spec fn button_held(self, button: MouseButton) -> StateView {
        StateView { current_mouse_button: button, ..self }
    }

    /// The selection becomes `range`, which began at `start`.
    #[verifier::opaque]
    pub open spec fn selection_put(
        self,
        start: Option<SelectionCoordinate>,
        range: Option<SelectionRange>,
    ) -> StateView {
        StateView { selection_start: start, selection_range: range, ..self }
    }

    /// The length of the click streak, zero before the first click.
    pub open spec fn streak(self) -> int {
        match self.last_mouse_click {
            Some(click) => click.streak as int,
            None => 0,
        }
    }

    /// The screen row under the mouse event row `y`, counted from the top of the screen as
    /// it is without scrolling back.
    pub open spec fn event_row(self, y: i64) -> i64 {
        (y - self.viewport_offset) as i64
    }

    /// The end of the word that runs on from a wrapped line into the lines from index `idx`
    /// on: each line is scanned from its first column, and the scan stops at the first line
    /// whose word does not reach a wrapped end.
    pub open spec fn word_end(
        self,
        idx: int,
        row: int,
        end: SelectionCoordinate,
    ) -> SelectionCoordinate
        decreases self.active().lines.len() - idx,
    {
        let lines = self.active().lines;
        if idx < 0 || idx >= lines.len() || lines[idx].cells.len() == 0 || row >= MAX_LINES {
            end
        } else {
            match lines[idx].double_click_range(0) {
                DoubleClickRange::Range { start, end: stop } => if stop > start {
                    SelectionCoordinate { x: (stop - 1) as usize, y: row as i64 }
                } else {
                    end
                },
                DoubleClickRange::RangeWithWrap { start, end: stop } => self.word_end(
                    idx + 1,
                    row + 1,
                    SelectionCoordinate {
                        x: if stop > 0 {
                            (stop - 1) as usize
                        } else {
                            0
                        },
                        y: row as i64,
                    },
                ),
            }
        }
    }

    /// The word a double click at column `x` of screen row `y` selects.
    pub open spec fn word_at(self, x: usize, y: i64) -> SelectionRange {
        let s = self.active();
        let idx = s.row_index(y as int);
        let nothing = SelectionRange {
            start: SelectionCoordinate { x, y },
            end: SelectionCoordinate { x, y },
        };
        if idx >= s.lines.len() || x >= s.lines[idx].cells.len() {
            nothing
        } else {
            match s.lines[idx].double_click_range(x as int) {
                DoubleClickRange::Range { start, end } => SelectionRange {
                    start: SelectionCoordinate { x: start, y },
                    end: SelectionCoordinate {
                        x: if end > 0 {
                            (end - 1) as usize
                        } else {
                            0
                        },
                        y,
                    },
                },
                DoubleClickRange::RangeWithWrap { start, end } => SelectionRange {
                    start: SelectionCoordinate { x: start, y },
                    end: self.word_end(
                        idx + 1,
                        y + 1,
                        SelectionCoordinate {
                            x: if end > 0 {
                                (end - 1) as usize
                            } else {
                                0
                            },
                            y,
                        },
                    ),
                },
            }
        }
    }

    /// The clipboard is to hold the text of the selection.
    pub open spec fn selection_copied(self) -> StateView {
        self.with_request(HostRequestView::SetClipboard(Some(self.selection_text())))
    }

    /// A single click at column `x` of screen row `row`: a selection may begin there, and
    /// the clipboard is cleared.
    pub open spec fn single_clicked(self, x: usize, row: i64) -> StateView {
        self.selection_put(Some(SelectionCoordinate { x, y: row }), None).with_request(
            HostRequestView::SetClipboard(None),
        )
    }

    /// A double click at column `x` of screen row `row`: the word there is selected, and
    /// its text goes to the clipboard.
    pub open spec fn double_clicked(self, x: usize, row: i64) -> StateView {
        let word = self.word_at(x, row);
        self.selection_put(Some(word.start), Some(word)).selection_dirtied().selection_copied()
    }

    /// A triple click at column `x` of screen row `row`: the whole row is selected, and its
    /// text goes to the clipboard.
    pub open spec fn triple_clicked(self, x: usize, row: i64) -> StateView {
        self.selection_put(
            Some(SelectionCoordinate { x, y: row }),
            Some(
                SelectionRange {
                    start: SelectionCoordinate { x: 0, y: row },
                    end: SelectionCoordinate { x: usize::MAX, y: row },
                },
            ),
        ).selection_dirtied().selection_copied()
    }

    /// The left button is pressed at column `x` of visible row `y`: the button is held, the
    /// lines of the old selection are marked dirty, and by the length of the click streak a
    /// selection begins, a word is selected, a line is selected, or the selection is dropped.
    #[verifier::opaque]
    pub open spec fn left_pressed(self, x: usize, y: i64) -> StateView {
        let held = self.button_held(MouseButton::Left).selection_dirtied();
        let row = held.event_row(y);
        if held.streak() == 1 {
            held.single_clicked(x, row)
        } else if held.streak() == 2 {
            held.double_clicked(x, row)
        } else if held.streak() == 3 {
            held.triple_clicked(x, row)
        } else {
            held.selection_put(None, None).with_request(HostRequestView::SetClipboard(None))
        }
    }

    /// The left button is released: after a single click the text of the selection goes to
    /// the clipboard, or, where nothing is selected, the highlighted link is opened.
    #[verifier::opaque]
    pub open spec fn left_released(self) -> StateView {
        let free = self.button_held(MouseButton::NoButton);
        if free.streak() == 1 {
            if free.selection_text().len() > 0 {
                free.selection_copied()
            } else {
                match free.current_highlight {
                    Some(id) => if id.index < free.links.len() {
                        free.with_request(HostRequestView::ClickLink(free.links[id.index as int]))
                    } else {
                        free
                    },
                    None => free,
                }
            }
        } else {
            free
        }
    }

    /// The mouse is dragged with the left button held to column `x` of visible row `y`: the
    /// selection reaches to there.
    #[verifier::opaque]
    pub open spec fn left_dragged(self, x: usize, y: i64) -> StateView {
        let marked = self.selection_dirtied();
        let end = SelectionCoordinate { x, y: marked.event_row(y) };
        let start = match marked.selection_range {
            Some(sel) => sel.start,
            None => match marked.selection_start {
                Some(s) => s,
                None => end,
            },
        };
        marked.selection_put(marked.selection_start, Some(SelectionRange { start, end }))
            .selection_dirtied()
    }

    /// The wheel is turned at column `x` of visible row `y`: with mouse reporting the turn is
    /// reported; on the alternate screen it counts as one press of an arrow key; else the
    /// viewport scrolls by the amount.
    #[verifier::opaque]
    pub open spec fn wheel_turned(self, up: bool, amount: usize, x: usize, y: i64) -> StateView {
        if self.modes.sgr_mouse {
            self.with_reply(
                mouse_report(if up { 64 } else { 65 }, (x + 1) as nat, (y + 1) as nat, false),
            )
        } else if self.screen.alt_screen_is_active {
            let key = if up {
                KeyCode::UpArrow
            } else {
                KeyCode::DownArrow
            };
            self.key_pressed(key, KeyModifiers::none()).with_reply(
                key_bytes(key, KeyModifiers::none(), self.modes.application_cursor_keys).unwrap(),
            )
        } else {
            let delta = clamp(amount as int, 0, MAX_LINES as int);
            self.viewport_scrolled(if up { -delta } else { delta })
        }
    }

    /// The number that stands for a button in a mouse report.
    pub open spec fn button_code(button: MouseButton) -> Option<u8> {
        match button {
            MouseButton::Left => Some(0u8),
            MouseButton::Middle => Some(1u8),
            MouseButton::Right => Some(2u8),
            _ => None,
        }
    }

    /// A button other than the wheel is pressed: with mouse reporting the press is reported;
    /// else the middle button pastes the clipboard.
    #[verifier::opaque]
    pub open spec fn button_pressed(self, button: MouseButton, x: usize, y: i64) -> StateView {
        let held = self.button_held(button);
        match StateView::button_code(button) {
            Some(code) => if held.modes.sgr_mouse {
                held.with_reply(mouse_report(code, (x + 1) as nat, (y + 1) as nat, false))
            } else if button == MouseButton::Middle {
                held.with_request(HostRequestView::PasteClipboard)
            } else {
                held
            },
            None => held,
        }
    }

    /// A button is released: if one was held it is let go, and with mouse reporting the
    /// release is reported.
    #[verifier::opaque]
    pub open spec fn button_released(self, x: usize, y: i64) -> StateView {
        if self.current_mouse_button != MouseButton::NoButton {
            let free = self.button_held(MouseButton::NoButton);
            if free.modes.sgr_mouse {
                free.with_reply(mouse_report(3, (x + 1) as nat, (y + 1) as nat, true))
            } else {
                free
            }
        } else {
            self
        }
    }

    /// The mouse moves: with a button held, button event tracking and mouse reporting the
    /// move is reported.
    #[verifier::opaque]
    pub open spec fn mouse_moved(self, x: usize, y: i64) -> StateView {
        match StateView::button_code(self.current_mouse_button) {
            Some(code) => if self.modes.button_event_mouse && self.modes.sgr_mouse {
                self.with_reply(
                    mouse_report((32 + code) as u8, (x + 1) as nat, (y + 1) as nat, false),
                )
            } else {
                self
            },
            None => self,
        }
    }

    /// The column of a mouse event, brought onto the screen.
    pub open spec fn event_x(self, event: MouseEvent) -> usize {
        clamp(event.x as int, 0, self.cols() - 1) as usize
    }

    /// The row of a mouse event, brought onto the screen.
    pub open spec fn event_y(self, event: MouseEvent) -> i64 {
        clamp(event.y as int, 0, self.rows() - 1) as i64
    }

    /// The mouse is followed to the cell of an event, and a press is counted into the click
    /// streak.
    pub open spec fn mouse_tracked(self, event: MouseEvent, now: u64) -> StateView {
        let moved = self.mouse_moved_to(
            CursorPosition { x: self.event_x(event), y: self.event_y(event) },
        );
        if event.kind == MouseEventKind::Press {
            moved.click_counted(event.button, now)
        } else {
            moved
        }
    }

    /// A mouse event at column `x` of visible row `y` is acted on. Unless mouse reporting
    /// takes the event (it does not while shift is held), the left button selects; every
    /// other event is a turn of the wheel, a press, a release or a move.
    #[verifier::opaque]
    pub open spec fn mouse_dispatched(self, event: MouseEvent, x: usize, y: i64) -> StateView {
        let selecting = !(self.modes.sgr_mouse && !event.modifiers.shift);
        if selecting && event.kind == MouseEventKind::Press && event.button == MouseButton::Left {
            self.left_pressed(x, y)
        } else if selecting && event.kind == MouseEventKind::Release && event.button
            == MouseButton::Left {
            self.left_released()
        } else if selecting && event.kind == MouseEventKind::Move && self.current_mouse_button
            == MouseButton::Left {
            self.left_dragged(x, y)
        } else {
            match event.kind {
                MouseEventKind::Press => match event.button {
                    MouseButton::WheelUp(amount) => self.wheel_turned(true, amount, x, y),
                    MouseButton::WheelDown(amount) => self.wheel_turned(false, amount, x, y),
                    _ => self.button_pressed(event.button, x, y),
                },
                MouseEventKind::Release => self.button_released(x, y),
                MouseEventKind::Move => self.mouse_moved(x, y),
            }
        }
    }

    /// What a mouse event at time `now` makes of the terminal. The event's cell is brought
    /// onto the screen, the mouse is followed there and a press is counted; then the event
    /// is acted on.
    pub open spec fn mouse_handled(self, event: MouseEvent, now: u64) -> StateView {
        self.mouse_tracked(event, now).mouse_dispatched(
            event,
            self.event_x(event),
            self.event_y(event),
        )
    }

    /// The sum, modulo 65536, of the low bytes of the first characters of the cells of a
    /// line from column `col` up to `end`.
    pub open spec fn line_checksum(line: LineView, col: int, end: int) -> int
        decreases end - col,
    {
        if col >= end {
            0
        } else {
            (StateView::line_checksum(line, col, end - 1) + if end - 1 < line.cells.len()
                && line.cells[end - 1].text.len() > 0 {
                (line.cells[end - 1].text[0] as u32 % 256) as int
            } else {
                0
            }) % 65536
        }
    }

    /// The checksum of the cells of rows `top` up to `end` between the columns `left` and
    /// `right`.
    pub open spec fn rows_checksum(self, left: int, top: int, right: int, end: int) -> int
        decreases end - top,
    {
        if top >= end {
            0
        } else {
            (self.rows_checksum(left, top, right, end - 1) + StateView::line_checksum(
                self.active().row(end - 1),
                left,
                right,
            )) % 65536
        }
    }

    /// The checksum of a rectangle of cells counted from zero, its corners included and
    /// brought onto the screen.
    pub open spec fn checksum(self, left: u32, top: u32, right: u32, bottom: u32) -> int {
        let last_row = if bottom < self.rows() {
            bottom + 1
        } else {
            self.rows()
        };
        let last_col = if right < MAX_DIMENSION {
            right + 1
        } else {
            MAX_DIMENSION as int
        };
        let first_row = if top < self.rows() {
            top as int
        } else {
            self.rows()
        };
        let first_col = if left < MAX_DIMENSION {
            left as int
        } else {
            MAX_DIMENSION as int
        };
        self.rows_checksum(first_col, first_row, last_col, last_row)
    }

    /// What a window operation makes of the terminal: the two reports it answers.
    pub open spec fn window_applied(self, op: Window) -> StateView {
        match op {
            Window::ReportTextAreaSizeCells => self.with_reply(
                size_report(self.active().physical_rows, self.active().physical_cols),
            ),
            Window::ChecksumRectangularArea { request_id, page_number, top, left, bottom, right } => {
                self.with_reply(
                    checksum_report(
                        request_id,
                        self.checksum(
                            left.zero_based(),
                            top.zero_based(),
                            right.zero_based(),
                            bottom.zero_based(),
                        ) as u16,
                    ),
                )
            },
            _ => self,
        }
    }
}

/// The screen that is shown may be replaced by what a scroll made of it, a well-formed
/// screen of the same size: nothing else changes but the viewport, which stays within the
/// scrollback.
pub proof fn lemma_with_scrolled_wf(s: StateView, a: ScreenView)
    requires
        s.wf(),
        a.wf(),
        a.physical_rows == s.active().physical_rows,
        a.physical_cols == s.active().physical_cols,
        a.scrollback_size == s.active().scrollback_size,
    ensures
        s.with_scrolled(a).wf(),
        s.with_scrolled(a).active() == a,
        s.with_scrolled(a).modes == s.modes,
        s.with_scrolled(a).cursor == s.cursor,
        s.with_scrolled(a).selection_range == s.selection_range,
        s.with_scrolled(a).selection_start == s.selection_start,
        s.with_scrolled(a).scroll_top == s.scroll_top,
        s.with_scrolled(a).scroll_bottom == s.scroll_bottom,
        a.lines.len() >= s.active().lines.len() ==> s.with_scrolled(a) == s.with_active(a),
{
    reveal(StateView::with_scrolled);
    reveal(StateView::with_active);
}

/// A screen of the pair may be replaced by a well-formed screen of the same size and
/// scrollback capacity.
pub proof fn lemma_with_active_wf(s: StateView, a: ScreenView)
    requires
        s.wf(),
        a.wf(),
        a.physical_rows == s.active().physical_rows,
        a.physical_cols == s.active().physical_cols,
        a.scrollback_size == s.active().scrollback_size,
        a.lines.len() >= s.active().lines.len(),
    ensures
        s.with_active(a).wf(),
        s.with_active(a).active() == a,
        s.with_active(a) == (StateView { screen: s.with_active(a).screen, ..s }),
{
    reveal(StateView::with_active);
}

/// Dropping the selection keeps the lines' count and the screen's size.
pub proof fn lemma_selection_cleared(s: StateView)
    requires
        s.wf(),
    ensures
        s.selection_cleared().wf(),
        s.selection_cleared().active().lines.len() == s.active().lines.len(),
        s.selection_cleared().active().physical_rows == s.active().physical_rows,
        s.selection_cleared().active().physical_cols == s.active().physical_cols,
        s.selection_cleared().active().scrollback_size == s.active().scrollback_size,
        s.selection_cleared().viewport_offset == s.viewport_offset,
{
    reveal(StateView::selection_dirtied);
    match s.selection_range {
        Some(sel) => {
            let a = s.active();
            let b = a.with_lines(
                dirtied(a.lines, a.row_index(sel.first_row()), a.row_index(sel.rows_end())),
            );
            lemma_with_active_wf(s, b);
        },
        None => {},
    }
}

/// Where the viewport comes to rest depends only on the position kept within the
/// scrollback.
pub proof fn lemma_viewport_set_clamps(s: StateView, p: int, q: int)
    requires
        s.wf(),
        p == q || (p < 0 && q < 0) || (p >= MAX_LINES && q >= MAX_LINES),
    ensures
        s.viewport_set(p) == s.viewport_set(q),
{
    lemma_selection_cleared(s);
    let base = s.selection_cleared().active().base();
    assert(clamp(p, 0, base) == clamp(q, 0, base));
}

/// Erasing in the cursor's line keeps the cursor and the size of the screen.
pub proof fn lemma_erased_in_line_shape(s: StateView, e: EraseInLine)
    requires
        s.wf(),
    ensures
        s.erased_in_line(e).cursor == s.cursor,
        s.erased_in_line(e).rows() == s.rows(),
        s.erased_in_line(e).cols() == s.cols(),
{
    reveal(StateView::erased_in_line);
    reveal(StateView::cleared_if_intersects);
    let start = s.erase_start(e);
    let end = s.erase_end(e);
    let a0 = s.active();
    lemma_with_cleared_shape(a0, s.cursor.y as int, start, end, s.pen.sgr_only());
    lemma_with_active_wf(s, a0.with_cleared(s.cursor.y as int, start, end, s.pen.sgr_only()));
}

/// Holding a button changes neither the size of the screen, nor the viewport, nor the modes.
pub proof fn lemma_button_held_shape(s: StateView, button: MouseButton)
    requires
        s.wf(),
    ensures
        s.button_held(button).wf(),
        s.button_held(button).rows() == s.rows(),
        s.button_held(button).cols() == s.cols(),
        s.button_held(button).modes == s.modes,
        s.button_held(button).viewport_offset == s.viewport_offset,
{
    reveal(StateView::button_held);
}

/// Marking the selection's lines dirty changes neither the size of the screen, nor the
/// viewport, nor the selection.
pub proof fn lemma_selection_dirtied_shape(s: StateView)
    requires
        s.wf(),
    ensures
        s.selection_dirtied().wf(),
        s.selection_dirtied().rows() == s.rows(),
        s.selection_dirtied().cols() == s.cols(),
        s.selection_dirtied().viewport_offset == s.viewport_offset,
{
    reveal(StateView::selection_dirtied);
    match s.selection_range {
        Some(sel) => {
            let a = s.active();
            let b = a.with_lines(
                dirtied(a.lines, a.row_index(sel.first_row()), a.row_index(sel.rows_end())),
            );
            lemma_with_active_wf(s, b);
        },
        None => {},
    }
}

/// Searching a line for links changes neither the size of the screen nor the modes.
pub proof fn lemma_line_scanned_shape(s: StateView, idx: int)
    requires
        s.wf(),
    ensures
        s.line_scanned(idx).wf(),
        s.line_scanned(idx).rows() == s.rows(),
        s.line_scanned(idx).cols() == s.cols(),
        s.line_scanned(idx).modes == s.modes,
        s.line_scanned(idx).viewport_offset == s.viewport_offset,
        s.line_scanned(idx).mouse_position == s.mouse_position,
        s.line_scanned(idx).active().lines.len() == s.active().lines.len(),
{
    reveal(StateView::line_scanned);
    let a = s.active();
    if !(idx < 0 || idx >= a.lines.len() || a.lines[idx].scanned) {
        let line = a.lines[idx];
        let found = found_links(
            s.rules,
            line.text_from(0, line.cells.len() as int),
            s.rules.len() as int,
        );
        if s.links.len() + found.len() <= usize::MAX {
            let b = a.with_lines(
                a.lines.update(idx, line.with_found_links(found, s.links.len() as int)),
            );
            lemma_with_active_wf(s, b);
        }
    }
}

/// Moving the mouse changes neither the size of the screen nor the modes.
pub proof fn lemma_mouse_moved_to_shape(s: StateView, pos: CursorPosition)
    requires
        s.wf(),
        0 <= pos.x < s.cols(),
        0 <= pos.y < s.rows(),
    ensures
        s.mouse_moved_to(pos).rows() == s.rows(),
        s.mouse_moved_to(pos).cols() == s.cols(),
{
    reveal(StateView::mouse_moved_to);
    if pos != s.mouse_position {
        lemma_highlight_recomputed_shape(StateView { mouse_position: pos, ..s });
    }
}

/// Recomputing the highlighted link changes neither the size of the screen nor the modes.
pub proof fn lemma_highlight_recomputed_shape(s: StateView)
    requires
        s.wf(),
    ensures
        s.highlight_recomputed().wf(),
        s.highlight_recomputed().rows() == s.rows(),
        s.highlight_recomputed().cols() == s.cols(),
        s.highlight_recomputed().modes == s.modes,
        s.highlight_recomputed().viewport_offset == s.viewport_offset,
        s.highlight_recomputed().active().lines.len() == s.active().lines.len(),
{
    reveal(StateView::highlight_recomputed);
    reveal(StateView::hyperlinks_invalidated);
    let row = s.mouse_position.y - s.viewport_offset;
    let idx = s.active().row_index(row);
    lemma_line_scanned_shape(s, idx);
    let scanned = s.line_scanned(idx);
    let lit = StateView {
        current_highlight: scanned.hyperlink_for_cell(s.mouse_position.x as int, row),
        ..scanned
    };
    let a = lit.active();
    lemma_with_active_wf(lit, a.with_lines(links_dirtied(a.lines, a.lines.len() as int)));
}

/// Counting a click changes neither the size of the screen nor the modes.
pub proof fn lemma_click_counted_shape(s: StateView, button: MouseButton, now: u64)
    ensures
        s.click_counted(button, now).rows() == s.rows(),
        s.click_counted(button, now).cols() == s.cols(),
{
    reveal(StateView::click_counted);
}

/// Moving the cursor changes neither the modes nor the size of the screen.
pub proof fn lemma_cursor_moved_frame(s: StateView, x: Position, y: Position)
    requires
        s.wf(),
    ensures
        s.cursor_moved(x, y).wf(),
        s.cursor_moved(x, y).modes == s.modes,
        s.cursor_moved(x, y).rows() == s.rows(),
        s.cursor_moved(x, y).cols() == s.cols(),
        s.cursor_moved(x, y).selection_range == s.selection_range,
        s.cursor_moved(x, y).viewport_offset == s.viewport_offset,
{
    reveal(StateView::cursor_moved);
    let a0 = s.active();
    let a1 = a0.row_dirtied(s.cursor.y as int);
    lemma_row_dirtied_shape(a0, s.cursor.y as int);
    let a2 = a1.row_dirtied(s.target_y(y));
    lemma_row_dirtied_shape(a1, s.target_y(y));
    lemma_with_active_wf(s, a2);
}

} // verus!
