//! The terminal state engine.

use crate::cell::CellAttributes;
use crate::cell::LinkId;
use crate::color::ColorPalette;
use crate::host::HostRequest;
use crate::hyperlink::FoundLink;
use crate::hyperlink::Hyperlink;
use crate::hyperlink::Rule;
use crate::input::LastMouseClick;
use crate::input::MouseButton;
use crate::model::clamp;
use crate::model::CursorPosition;
use crate::model::Modes;
use crate::model::SavedCursor;
use crate::model::ScreenOrAltView;
use crate::model::StateView;
use crate::screen::Screen;
use crate::screen::ScrollbackOrVisibleRowIndex;
use crate::screen::VisibleRowIndex;
use crate::screen::MAX_DIMENSION;
use crate::selection::intersects_range;
use crate::selection::intersects_rows;
use crate::selection::SelectionCoordinate;
use crate::selection::SelectionRange;
use crate::tabstop::TabStop;
use crate::text::chars_of;
use crate::views::views;
use vstd::prelude::*;

pub mod basic;
pub mod csi;
pub mod cursor;
pub mod edit;
pub mod keys;
pub mod mouse;
pub mod osc;
pub mod print;
pub mod render;
pub mod scroll;

verus! {

/// The primary screen, which has scrollback, and the alternate screen, which has none; one
/// of them is shown.
pub struct ScreenOrAlt {
    screen: Screen,
    alt_screen: Screen,
    alt_screen_is_active: bool,
    saved_cursor: Option<SavedCursor>,
    alt_saved_cursor: Option<SavedCursor>,
}

impl View for ScreenOrAlt {
    type V = ScreenOrAltView;

    closed spec fn view(&self) -> ScreenOrAltView {
        ScreenOrAltView {
            screen: self.screen@,
            alt_screen: self.alt_screen@,
            alt_screen_is_active: self.alt_screen_is_active,
            saved_cursor: self.saved_cursor,
            alt_saved_cursor: self.alt_saved_cursor,
        }
    }
}

impl ScreenOrAlt {
    /// The pair of screens is well formed.
    pub open spec fn wf(&self) -> bool {
        self@.wf()
    }

    /// Two blank screens of the given size, the primary one shown.
    pub fn new(physical_rows: usize, physical_cols: usize, scrollback_size: usize) -> (s: ScreenOrAlt)
        requires
            1 <= physical_rows <= MAX_DIMENSION,
            1 <= physical_cols <= MAX_DIMENSION,
            scrollback_size <= MAX_DIMENSION,
        ensures
            s@ == ScreenOrAltView::blank(physical_rows, physical_cols, scrollback_size),
            s.wf(),
    {
        let screen = Screen::new(physical_rows, physical_cols, scrollback_size);
        let alt_screen = Screen::new(physical_rows, physical_cols, 0);
        ScreenOrAlt {
            screen,
            alt_screen,
            alt_screen_is_active: false,
            saved_cursor: None,
            alt_saved_cursor: None,
        }
    }

    /// Resizes both screens.
    pub fn resize(&mut self, physical_rows: usize, physical_cols: usize)
        requires
            old(self).wf(),
            1 <= physical_rows <= MAX_DIMENSION,
            1 <= physical_cols <= MAX_DIMENSION,
        ensures
            final(self)@ == old(self)@.resized(physical_rows, physical_cols),
            final(self).wf(),
    {
        proof {
            crate::screen::lemma_resized_shape(self.screen@, physical_rows, physical_cols);
            crate::screen::lemma_resized_shape(self.alt_screen@, physical_rows, physical_cols);
        }
        self.screen.resize(physical_rows, physical_cols);
        self.alt_screen.resize(physical_rows, physical_cols);
    }

    /// Shows the alternate screen.
    pub fn activate_alt_screen(&mut self)
        ensures
            final(self)@ == (ScreenOrAltView { alt_screen_is_active: true, ..old(self)@ }),
    {
        self.alt_screen_is_active = true;
    }

    /// Shows the primary screen.
    pub fn activate_primary_screen(&mut self)
        ensures
            final(self)@ == (ScreenOrAltView { alt_screen_is_active: false, ..old(self)@ }),
    {
        self.alt_screen_is_active = false;
    }

    /// Whether the alternate screen is shown.
    pub fn is_alt_screen_active(&self) -> (b: bool)
        ensures
            b == self@.alt_screen_is_active,
    {
        self.alt_screen_is_active
    }

    /// The slot that holds the cursor saved for the screen that is shown.
    pub fn saved_cursor(&mut self) -> (slot: &mut Option<SavedCursor>)
        ensures
            *slot == old(self)@.active_saved_cursor(),
            final(self)@ == old(self)@.with_saved_cursor(*final(slot)),
    {
        if self.alt_screen_is_active {
            &mut self.alt_saved_cursor
        } else {
            &mut self.saved_cursor
        }
    }

    /// The screen that is shown.
    pub fn active(&self) -> (s: &Screen)
        ensures
            s@ == self@.active(),
    {
        if self.alt_screen_is_active {
            &self.alt_screen
        } else {
            &self.screen
        }
    }

    /// The screen that is shown, to change it.
    pub fn active_mut(&mut self) -> (s: &mut Screen)
        ensures
            s@ == old(self)@.active(),
            final(self)@ == old(self)@.with_active(final(s)@),
    {
        if self.alt_screen_is_active {
            &mut self.alt_screen
        } else {
            &mut self.screen
        }
    }
}


/// The state of a terminal: its screens, cursor, pen, modes, selection and colours.
pub struct TerminalState {
    screen: ScreenOrAlt,
    pen: CellAttributes,
    cursor: CursorPosition,
    wrap_next: bool,
    modes: Modes,
    scroll_top: VisibleRowIndex,
    scroll_bottom: VisibleRowIndex,
    current_mouse_button: MouseButton,
    mouse_position: CursorPosition,
    current_highlight: Option<LinkId>,
    last_mouse_click: Option<LastMouseClick>,
    viewport_offset: VisibleRowIndex,
    selection_start: Option<SelectionCoordinate>,
    selection_range: Option<SelectionRange>,
    tabs: TabStop,
    hyperlink_rules: Vec<Rule>,
    links: Vec<Hyperlink>,
    title: Vec<char>,
    palette: ColorPalette,
    pixel_width: usize,
    pixel_height: usize,
    requests: Vec<HostRequest>,
}

impl View for TerminalState {
    type V = StateView;

    closed spec fn view(&self) -> StateView {
        StateView {
            screen: self.screen@,
            pen: self.pen,
            cursor: self.cursor,
            wrap_next: self.wrap_next,
            modes: self.modes,
            scroll_top: self.scroll_top,
            scroll_bottom: self.scroll_bottom,
            current_mouse_button: self.current_mouse_button,
            mouse_position: self.mouse_position,
            current_highlight: self.current_highlight,
            last_mouse_click: self.last_mouse_click,
            viewport_offset: self.viewport_offset,
            selection_start: self.selection_start,
            selection_range: self.selection_range,
            tabs: self.tabs@,
            rules: views(self.hyperlink_rules@),
            links: views(self.links@),
            title: self.title@,
            palette: self.palette@,
            pixel_width: self.pixel_width,
            pixel_height: self.pixel_height,
            requests: views(self.requests@),
        }
    }
}

impl TerminalState {
    /// The state is well formed.
    pub open spec fn wf(&self) -> bool {
        self@.wf()
    }

    /// A new terminal of the given size, with room for `scrollback_size` lines of scrollback.
    pub fn new(
        physical_rows: usize,
        physical_cols: usize,
        pixel_width: usize,
        pixel_height: usize,
        scrollback_size: usize,
        hyperlink_rules: Vec<Rule>,
    ) -> (state: TerminalState)
        requires
            1 <= physical_rows <= MAX_DIMENSION,
            1 <= physical_cols <= MAX_DIMENSION,
            scrollback_size <= MAX_DIMENSION,
        ensures
            state@ == StateView::initial(
                physical_rows,
                physical_cols,
                pixel_width,
                pixel_height,
                scrollback_size,
                views(hyperlink_rules@),
            ),
            state.wf(),
    {
        let screen = ScreenOrAlt::new(physical_rows, physical_cols, scrollback_size);
        let title = chars_of("miro");
        proof {
            reveal_strlit("miro");
            assert(title@ =~= seq!['m', 'i', 'r', 'o']);
            crate::views::lemma_views_empty::<Hyperlink>();
            crate::views::lemma_views_empty::<HostRequest>();
        }
        TerminalState {
            screen,
            pen: CellAttributes::new(),
            cursor: CursorPosition { x: 0, y: 0 },
            scroll_top: 0,
            scroll_bottom: physical_rows as VisibleRowIndex,
            wrap_next: false,
            modes: Modes::new(),
            current_mouse_button: MouseButton::NoButton,
            mouse_position: CursorPosition { x: 0, y: 0 },
            current_highlight: None,
            last_mouse_click: None,
            viewport_offset: 0,
            selection_range: None,
            selection_start: None,
            tabs: TabStop::new(physical_cols, 8),
            hyperlink_rules,
            links: Vec::new(),
            title,
            palette: ColorPalette::new(),
            pixel_height,
            pixel_width,
            requests: Vec::new(),
        }
    }

    /// The title of the window.
    pub fn get_title(&self) -> (title: String)
        ensures
            title@ == self@.title,
    {
        crate::text::string_of(&self.title)
    }

    /// The colours of the terminal.
    pub fn palette(&self) -> (p: &ColorPalette)
        ensures
            p@ == self@.palette,
    {
        &self.palette
    }

    /// The screen that is shown.
    pub fn screen(&self) -> (s: &Screen)
        ensures
            s@ == self@.active(),
    {
        self.screen.active()
    }

    /// The screen that is shown, to change it.
    pub fn screen_mut(&mut self) -> (s: &mut Screen)
        ensures
            s@ == old(self)@.active(),
            final(self)@ == old(self)@.with_active(final(s)@),
    {
        proof {
            reveal(StateView::with_active);
        }
        self.screen.active_mut()
    }

    pub(crate) fn dirty_selection_lines(&mut self)
        requires
            old(self).wf(),
        ensures
            final(self)@ == old(self)@.selection_dirtied(),
            final(self).wf(),
    {
        proof {
            reveal(StateView::selection_dirtied);
        }
        match self.selection_range {
            Some(sel) => {
                let rows = sel.rows();
                let screen = self.screen_mut();
                let from = screen.scrollback_or_visible_row(rows.start);
                let to = screen.scrollback_or_visible_row(rows.end);
                screen.dirty_range(from, to);
                let ghost a = screen@;
                proof {
                    crate::model::lemma_with_active_wf(old(self)@, a);
                }
            },
            None => {},
        }
    }

    /// Drops the selection and marks its lines dirty.
    pub fn clear_selection(&mut self)
        requires
            old(self).wf(),
        ensures
            final(self)@ == old(self)@.selection_cleared(),
            final(self).wf(),
    {
        self.dirty_selection_lines();
        self.selection_range = None;
        self.selection_start = None;
    }

    /// Drops the selection if it holds a column from `start` up to `end` of row `row`.
    /// Tells whether no selection is left.
    pub(crate) fn clear_selection_if_intersects(
        &mut self,
        start: usize,
        end: usize,
        row: ScrollbackOrVisibleRowIndex,
    ) -> (gone: bool)
        requires
            old(self).wf(),
        ensures
            final(self)@ == old(self)@.cleared_if_intersects(start as int, end as int, row as int),
            gone == (final(self)@.selection_range is None),
            final(self).wf(),
    {
        proof {
            reveal(StateView::cleared_if_intersects);
        }
        match self.selection_range {
            Some(sel) => {
                let sel_cols = sel.cols_for_row(row);
                if intersects_range(start..end, sel_cols) {
                    self.drop_selection();
                    true
                } else {
                    self.selection_range = Some(sel.normalize());
                    false
                }
            },
            None => true,
        }
    }

    fn drop_selection(&mut self)
        requires
            old(self).wf(),
        ensures
            final(self)@ == (StateView { selection_range: None, selection_start: None, ..old(self)@ }),
            final(self).wf(),
    {
        self.selection_range = None;
        self.selection_start = None;
    }

    /// Drops the selection if it holds a row from `start` up to `end`.
    pub(crate) fn clear_selection_if_intersects_rows(
        &mut self,
        start: ScrollbackOrVisibleRowIndex,
        end: ScrollbackOrVisibleRowIndex,
    ) -> (gone: bool)
        requires
            old(self).wf(),
        ensures
            final(self)@ == old(self)@.cleared_if_intersects_rows(start as int, end as int),
            gone == (final(self)@.selection_range is None),
            final(self).wf(),
    {
        proof {
            reveal(StateView::cleared_if_intersects_rows);
        }
        match self.selection_range {
            Some(sel) => {
                let sel_rows = sel.rows();
                if intersects_rows(start..end, sel_rows) {
                    self.drop_selection();
                    true
                } else {
                    false
                }
            },
            None => true,
        }
    }

    pub(crate) fn hyperlink_for_cell(&self, x: usize, y: ScrollbackOrVisibleRowIndex) -> (link: Option<LinkId>)
        requires
            self.wf(),
        ensures
            link == self@.hyperlink_for_cell(x as int, y as int),
    {
        let screen = self.screen.active();
        let idx = screen.scrollback_or_visible_row(y);
        if idx < screen.lines.len() {
            let line = screen.line(idx);
            if x < line.len() {
                line.cell(x).attrs().hyperlink
            } else {
                None
            }
        } else {
            None
        }
    }

    fn push_links(&mut self, found: &Vec<FoundLink>)
        requires
            old(self).wf(),
        ensures
            final(self)@ == (StateView {
                links: old(self)@.links + crate::model::implicit_links(views(found@)),
                ..old(self)@
            }),
            final(self).wf(),
    {
        let mut i: usize = 0;
        proof {
            assert(self@.links + crate::model::implicit_links(views(found@)).subrange(0, 0)
                =~= self@.links);
        }
        while i < found.len()
            invariant
                i <= found.len(),
                self.wf(),
                self@ == (StateView {
                    links: old(self)@.links + crate::model::implicit_links(
                        views(found@),
                    ).subrange(0, i as int),
                    ..old(self)@
                }),
            decreases found.len() - i,
        {
            assert(views(found@)[i as int] == found@[i as int]@);
            let link = Hyperlink::new_implicit(crate::text::copy_text(&found[i].uri));
            proof {
                crate::views::lemma_views_push(self.links@, link);
                assert((old(self)@.links + crate::model::implicit_links(views(found@)).subrange(
                    0,
                    i as int,
                )).push(link@) =~= old(self)@.links + crate::model::implicit_links(
                    views(found@),
                ).subrange(0, i + 1));
            }
            self.links.push(link);
            i = i + 1;
        }
        proof {
            let all = crate::model::implicit_links(views(found@));
            assert(all.subrange(0, found@.len() as int) =~= all);
        }
    }

    /// Searches the line at index `idx` of the screen that is shown for links, unless it has
    /// been searched since it last changed.
    pub(crate) fn scan_line(&mut self, idx: usize)
        requires
            old(self).wf(),
        ensures
            final(self)@ == old(self)@.line_scanned(idx as int),
            final(self).wf(),
    {
        proof {
            reveal(StateView::line_scanned);
        }
        let screen = self.screen.active();
        if idx >= screen.lines.len() || screen.line(idx).is_scanned() {
            return ;
        }
        let line = screen.line(idx);
        let text = line.columns_text(0, line.len());
        let found = crate::hyperlink::find_links(&self.hyperlink_rules, &text);
        let base = self.links.len();
        if found.len() > usize::MAX - base {
            return ;
        }
        let screen = self.screen_mut();
        screen.link_line(idx, &found, base);
        let ghost a = screen@;
        proof {
            crate::model::lemma_with_active_wf(old(self)@, a);
        }
        self.push_links(&found);
    }

    pub(crate) fn invalidate_hyperlinks(&mut self)
        requires
            old(self).wf(),
        ensures
            final(self)@ == old(self)@.hyperlinks_invalidated(),
            final(self).wf(),
    {
        proof {
            reveal(StateView::hyperlinks_invalidated);
        }
        let screen = self.screen_mut();
        screen.invalidate_hyperlinks();
        let ghost a = screen@;
        proof {
            crate::model::lemma_with_active_wf(old(self)@, a);
        }
    }

    pub(crate) fn recompute_highlight(&mut self)
        requires
            old(self).wf(),
        ensures
            final(self)@ == old(self)@.highlight_recomputed(),
            final(self).wf(),
    {
        proof {
            reveal(StateView::highlight_recomputed);
        }
        let row = self.mouse_position.y - self.viewport_offset;
        let x = self.mouse_position.x;
        let idx = self.screen.active().scrollback_or_visible_row(row);
        self.scan_line(idx);
        proof {
            crate::model::lemma_line_scanned_shape(old(self)@, idx as int);
        }
        self.current_highlight = self.hyperlink_for_cell(x, row);
        self.invalidate_hyperlinks();
    }
}

/// `v` kept within `lo` and `hi`.
pub fn clamp_i64(v: i64, lo: i64, hi: i64) -> (r: i64)
    ensures
        r == clamp(v as int, lo as int, hi as int),
{
    if v < lo {
        lo
    } else if v > hi {
        hi
    } else {
        v
    }
}

} // verus!
