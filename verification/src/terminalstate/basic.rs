//! Saving the cursor, the pen's link, the dirty flags and the size.

use crate::cell::CellAttributes;
use crate::cell::LinkId;
use crate::host::HostRequest;
use crate::hyperlink::Hyperlink;
use crate::model::lemma_with_active_wf;
use crate::model::CursorPosition;
use crate::model::ModeFlag;
use crate::model::Modes;
use crate::model::Position;
use crate::model::SavedCursor;
use crate::model::StateView;
use crate::screen::all_marked;
use crate::screen::VisibleRowIndex;
use crate::screen::MAX_DIMENSION;
use crate::selection::SelectionRange;
use std::ops::Range;
use crate::terminalstate::clamp_i64;
use crate::terminalstate::TerminalState;
use crate::views::lemma_views_push;
use crate::views::views;
use vstd::prelude::*;

verus! {

impl TerminalState {
    pub(crate) fn set_hyperlink(&mut self, link: Option<Hyperlink>)
        requires
            old(self).wf(),
        ensures
            final(self)@ == old(self)@.hyperlink_set(
                match link {
                    Some(l) => Some(l@),
                    None => None,
                },
            ),
            final(self).wf(),
    {
        proof {
            reveal(StateView::hyperlink_set);
        }
        match link {
            Some(l) => {
                proof {
                    lemma_views_push(self.links@, l);
                }
                let id = LinkId { index: self.links.len(), implicit: false };
                self.links.push(l);
                self.pen.set_hyperlink(Some(id));
                assert(self@.links == old(self)@.links.push(l@));
                assert(self@.pen == (CellAttributes { hyperlink: Some(id), ..old(self)@.pen }));
            },
            None => {
                self.pen.set_hyperlink(None);
            },
        }
    }

    pub(crate) fn save_cursor(&mut self)
        requires
            old(self).wf(),
        ensures
            final(self)@ == old(self)@.cursor_saved(),
            final(self).wf(),
    {
        proof {
            reveal(StateView::cursor_saved);
        }
        let saved = SavedCursor {
            position: self.cursor,
            insert: self.modes.insert,
            wrap_next: self.wrap_next,
        };
        *self.screen.saved_cursor() = Some(saved);
    }

    pub(crate) fn restore_cursor(&mut self)
        requires
            old(self).wf(),
        ensures
            final(self)@ == old(self)@.cursor_restored(),
            final(self).wf(),
    {
        proof {
            reveal(StateView::cursor_restored);
        }
        let saved = match *self.screen.saved_cursor() {
            Some(s) => s,
            None => SavedCursor {
                position: CursorPosition { x: 0, y: 0 },
                insert: false,
                wrap_next: false,
            },
        };
        assert(self@ == old(self)@);
        let x = if saved.position.x > MAX_DIMENSION {
            MAX_DIMENSION
        } else {
            saved.position.x
        };
        let y = saved.position.y;
        self.set_cursor_pos(Position::Absolute(x as i64), Position::Absolute(y));
        self.wrap_next = saved.wrap_next;
        self.modes.set(ModeFlag::Insert, saved.insert);
    }

    /// Clears the dirty flag of every line of the screen that is shown.
    pub fn clean_dirty_lines(&mut self)
        requires
            old(self).wf(),
        ensures
            final(self)@ == old(self)@.all_lines_marked(false),
            final(self).wf(),
    {
        self.mark_all_lines(false);
    }

    /// Marks every line of the screen that is shown dirty.
    pub fn make_all_lines_dirty(&mut self)
        requires
            old(self).wf(),
        ensures
            final(self)@ == old(self)@.all_lines_marked(true),
            final(self).wf(),
    {
        self.mark_all_lines(true);
    }

    fn mark_all_lines(&mut self, dirty: bool)
        requires
            old(self).wf(),
        ensures
            final(self)@ == old(self)@.all_lines_marked(dirty),
            final(self).wf(),
    {
        proof {
            reveal(StateView::all_lines_marked);
        }
        self.screen_mut().mark_all(dirty);
        proof {
            let a = old(self)@.active().with_lines(all_marked(old(self)@.active().lines, dirty));
            lemma_with_active_wf(old(self)@, a);
        }
    }

    /// The attributes that newly written cells get.
    pub fn pen(&self) -> (pen: CellAttributes)
        ensures
            pen == self@.pen,
    {
        self.pen
    }

    /// The selection, if there is one.
    pub fn selection_range(&self) -> (range: Option<SelectionRange>)
        ensures
            range == self@.selection_range,
    {
        self.selection_range
    }

    /// The modes that are plain switches.
    pub fn modes(&self) -> (modes: Modes)
        ensures
            modes == self@.modes,
    {
        self.modes
    }

    /// How many lines the viewport is scrolled back.
    pub fn viewport_offset(&self) -> (offset: VisibleRowIndex)
        ensures
            offset == self@.viewport_offset,
    {
        self.viewport_offset
    }

    /// The rows of the scroll region: its first row, and the row after its last.
    pub fn scroll_region(&self) -> (region: Range<VisibleRowIndex>)
        ensures
            region.start == self@.scroll_top,
            region.end == self@.scroll_bottom,
    {
        self.scroll_top..self.scroll_bottom
    }

    /// Whether the alternate screen is shown.
    pub fn is_alt_screen_active(&self) -> (b: bool)
        ensures
            b == self@.screen.alt_screen_is_active,
    {
        self.screen.is_alt_screen_active()
    }

    /// Whether a wrap waits for the next character.
    pub fn wrap_next(&self) -> (b: bool)
        ensures
            b == self@.wrap_next,
    {
        self.wrap_next
    }

    /// The rows and columns of the screen.
    pub fn physical_dimensions(&self) -> (dims: (usize, usize))
        ensures
            dims.0 == self@.rows(),
            dims.1 == self@.cols(),
    {
        let screen = self.screen.active();
        (screen.physical_rows, screen.physical_cols)
    }

    /// The cursor as the viewport shows it.
    pub fn cursor_pos(&self) -> (pos: CursorPosition)
        requires
            self.wf(),
        ensures
            pos == self@.shown_cursor(),
    {
        CursorPosition { x: self.cursor.x, y: self.cursor.y + self.viewport_offset }
    }

    /// The link under the mouse, if there is one.
    pub fn current_highlight(&self) -> (link: Option<Hyperlink>)
        ensures
            link is Some == (self@.current_highlight matches Some(id) && id.index
                < self@.links.len()),
            link matches Some(l) ==> l@ == self@.links[self@.current_highlight.unwrap().index as int],
    {
        match self.current_highlight {
            Some(id) => if id.index < self.links.len() {
                Some(self.links[id.index].duplicate())
            } else {
                None
            },
            None => None,
        }
    }

    /// Takes a new size.
    pub fn resize(
        &mut self,
        physical_rows: usize,
        physical_cols: usize,
        pixel_width: usize,
        pixel_height: usize,
    )
        requires
            old(self).wf(),
            1 <= physical_rows <= MAX_DIMENSION,
            1 <= physical_cols <= MAX_DIMENSION,
        ensures
            final(self)@ == old(self)@.resized(
                physical_rows,
                physical_cols,
                pixel_width,
                pixel_height,
            ),
            final(self).wf(),
    {
        proof {
            reveal(StateView::resized);
        }
        self.take_size(physical_rows, physical_cols, pixel_width, pixel_height);
        self.set_scroll_viewport(0);
        self.set_cursor_pos(Position::Relative(0), Position::Relative(0));
    }

    fn take_size(
        &mut self,
        physical_rows: usize,
        physical_cols: usize,
        pixel_width: usize,
        pixel_height: usize,
    )
        requires
            old(self).wf(),
            1 <= physical_rows <= MAX_DIMENSION,
            1 <= physical_cols <= MAX_DIMENSION,
        ensures
            final(self)@ == old(self)@.sized(physical_rows, physical_cols, pixel_width, pixel_height),
            final(self).wf(),
    {
        self.screen.resize(physical_rows, physical_cols);
        self.scroll_top = 0;
        self.scroll_bottom = physical_rows as i64;
        self.pixel_height = pixel_height;
        self.pixel_width = pixel_width;
        self.tabs.resize(physical_cols);
        self.selection_range = None;
        self.selection_start = None;
        self.viewport_offset = 0;
        self.mouse_position = CursorPosition {
            x: clamp_i64(self.mouse_position.x as i64, 0, physical_cols as i64 - 1) as usize,
            y: clamp_i64(self.mouse_position.y, 0, physical_rows as i64 - 1),
        };
        self.cursor = CursorPosition {
            x: clamp_i64(self.cursor.x as i64, 0, physical_cols as i64 - 1) as usize,
            y: clamp_i64(self.cursor.y, 0, physical_rows as i64 - 1),
        };
        proof {
            crate::screen::lemma_resized_shape(old(self)@.screen.screen, physical_rows, physical_cols);
            crate::screen::lemma_resized_shape(
                old(self)@.screen.alt_screen,
                physical_rows,
                physical_cols,
            );
        }
    }

    /// Hands over what the host is to do, in the order in which it arose, and forgets it.
    pub fn take_requests(&mut self) -> (requests: Vec<HostRequest>)
        requires
            old(self).wf(),
        ensures
            views(requests@) == old(self)@.requests,
            final(self)@ == old(self)@.requests_taken(),
            final(self).wf(),
    {
        proof {
            reveal(StateView::requests_taken);
            crate::views::lemma_views_empty::<HostRequest>();
        }
        let mut requests: Vec<HostRequest> = Vec::new();
        std::mem::swap(&mut requests, &mut self.requests);
        requests
    }
}

} // verus!
