//! Mouse events: selecting by click and drag, the wheel, and mouse reports.

use crate::host::HostRequest;
use crate::host::TermError;
use crate::input::KeyCode;
use crate::input::KeyModifiers;
use crate::input::LastMouseClick;
use crate::input::MouseButton;
use crate::input::MouseEvent;
use crate::input::MouseEventKind;
use crate::line::DoubleClickRange;
use crate::model::CursorPosition;
use crate::model::StateView;
use crate::reply::encode_mouse_report;
use crate::screen::MAX_LINES;
use crate::selection::SelectionCoordinate;
use crate::selection::SelectionRange;
use crate::terminalstate::clamp_i64;
use crate::terminalstate::TerminalState;
use crate::text::chars_of;
use vstd::prelude::*;

verus! {

impl TerminalState {
    fn move_mouse_to(&mut self, pos: CursorPosition)
        requires
            old(self).wf(),
            0 <= pos.x < old(self)@.cols(),
            0 <= pos.y < old(self)@.rows(),
        ensures
            final(self)@ == old(self)@.mouse_moved_to(pos),
            final(self).wf(),
    {
        proof {
            reveal(StateView::mouse_moved_to);
        }
        if pos.x != self.mouse_position.x || pos.y != self.mouse_position.y {
            self.mouse_position = pos;
            self.recompute_highlight();
        }
    }

    fn count_click(&mut self, button: MouseButton, now: u64)
        requires
            old(self).wf(),
        ensures
            final(self)@ == old(self)@.click_counted(button, now),
            final(self).wf(),
    {
        proof {
            reveal(StateView::click_counted);
        }
        let click = match self.last_mouse_click {
            None => LastMouseClick::new(button, now),
            Some(click) => click.add(button, now),
        };
        self.last_mouse_click = Some(click);
    }

    fn hold_button(&mut self, button: MouseButton)
        requires
            old(self).wf(),
        ensures
            final(self)@ == old(self)@.button_held(button),
            final(self).wf(),
    {
        proof {
            reveal(StateView::button_held);
        }
        self.current_mouse_button = button;
    }

    fn put_selection(&mut self, start: Option<SelectionCoordinate>, range: Option<SelectionRange>)
        requires
            old(self).wf(),
            start matches Some(c) ==> crate::model::coordinate_ok(c),
            range matches Some(r) ==> crate::model::coordinate_ok(r.start)
                && crate::model::coordinate_ok(r.end),
        ensures
            final(self)@ == old(self)@.selection_put(start, range),
            final(self).wf(),
    {
        proof {
            reveal(StateView::selection_put);
        }
        self.selection_start = start;
        self.selection_range = range;
    }

    fn streak(&self) -> (n: usize)
        ensures
            n == self@.streak(),
    {
        match self.last_mouse_click {
            Some(click) => click.streak,
            None => 0,
        }
    }

    fn word_end(&self, idx: usize, row: i64, end: SelectionCoordinate) -> (c: SelectionCoordinate)
        requires
            self.wf(),
            crate::model::coordinate_ok(end),
            -(MAX_LINES as int) <= row,
        ensures
            c == self@.word_end(idx as int, row as int, end),
            crate::model::coordinate_ok(c),
    {
        let screen = self.screen.active();
        let mut i = idx;
        let mut r = row;
        let mut e = end;
        let mut done = false;
        while !done
            invariant
                self.wf(),
                screen@ == self@.active(),
                crate::model::coordinate_ok(e),
                -(MAX_LINES as int) <= r,
                done ==> e == self@.word_end(idx as int, row as int, end),
                !done ==> self@.word_end(i as int, r as int, e) == self@.word_end(
                    idx as int,
                    row as int,
                    end,
                ),
            decreases screen.lines.len() - i, if done { 0int } else { 1int },
        {
            if i >= screen.lines.len() || r >= MAX_LINES as i64 {
                done = true;
            } else {
                let line = screen.line(i);
                if line.len() == 0 {
                    done = true;
                } else {
                    match line.compute_double_click_range(0) {
                        DoubleClickRange::Range { start, end: stop } => {
                            if stop > start {
                                e = SelectionCoordinate { x: stop - 1, y: r };
                            }
                            done = true;
                        },
                        DoubleClickRange::RangeWithWrap { start, end: stop } => {
                            e = SelectionCoordinate {
                                x: if stop > 0 {
                                    stop - 1
                                } else {
                                    0
                                },
                                y: r,
                            };
                            i = i + 1;
                            r = r + 1;
                        },
                    }
                }
            }
        }
        e
    }

    fn word_at(&self, x: usize, y: i64) -> (word: SelectionRange)
        requires
            self.wf(),
            -(MAX_LINES as int) <= y < MAX_LINES,
        ensures
            word == self@.word_at(x, y),
            crate::model::coordinate_ok(word.start),
            crate::model::coordinate_ok(word.end),
    {
        let screen = self.screen.active();
        let idx = screen.scrollback_or_visible_row(y);
        let here = SelectionCoordinate { x, y };
        if idx >= screen.lines.len() || x >= screen.line(idx).len() {
            SelectionRange { start: here, end: here }
        } else {
            match screen.line(idx).compute_double_click_range(x) {
                DoubleClickRange::Range { start, end } => SelectionRange {
                    start: SelectionCoordinate { x: start, y },
                    end: SelectionCoordinate {
                        x: if end > 0 {
                            end - 1
                        } else {
                            0
                        },
                        y,
                    },
                },
                DoubleClickRange::RangeWithWrap { start, end } => {
                    let first = SelectionCoordinate {
                        x: if end > 0 {
                            end - 1
                        } else {
                            0
                        },
                        y,
                    };
                    let last = self.word_end(idx + 1, y + 1, first);
                    SelectionRange { start: SelectionCoordinate { x: start, y }, end: last }
                },
            }
        }
    }

    fn copy_selection(&mut self)
        requires
            old(self).wf(),
        ensures
            final(self)@ == old(self)@.selection_copied(),
            final(self).wf(),
    {
        let text = self.get_selection_text();
        self.push_request(HostRequest::SetClipboard(Some(chars_of(text.as_str()))));
    }

    fn event_row(&self, y: i64) -> (row: i64)
        requires
            self.wf(),
            0 <= y < self@.rows(),
        ensures
            row == self@.event_row(y),
            -(MAX_LINES as int) <= row < MAX_LINES,
    {
        y - self.viewport_offset
    }

    fn mouse_single_click_left(&mut self, x: usize, row: i64)
        requires
            old(self).wf(),
            -(MAX_LINES as int) <= row < MAX_LINES,
        ensures
            final(self)@ == old(self)@.single_clicked(x, row),
            final(self).wf(),
    {
        self.put_selection(Some(SelectionCoordinate { x, y: row }), None);
        self.push_request(HostRequest::SetClipboard(None));
    }

    fn mouse_double_click_left(&mut self, x: usize, row: i64)
        requires
            old(self).wf(),
            -(MAX_LINES as int) <= row < MAX_LINES,
        ensures
            final(self)@ == old(self)@.double_clicked(x, row),
            final(self).wf(),
    {
        let word = self.word_at(x, row);
        self.put_selection(Some(word.start), Some(word));
        self.dirty_selection_lines();
        self.copy_selection();
    }

    fn mouse_triple_click_left(&mut self, x: usize, row: i64)
        requires
            old(self).wf(),
            -(MAX_LINES as int) <= row < MAX_LINES,
        ensures
            final(self)@ == old(self)@.triple_clicked(x, row),
            final(self).wf(),
    {
        self.put_selection(
            Some(SelectionCoordinate { x, y: row }),
            Some(
                SelectionRange {
                    start: SelectionCoordinate { x: 0, y: row },
                    end: SelectionCoordinate { x: usize::MAX, y: row },
                },
            ),
        );
        self.dirty_selection_lines();
        self.copy_selection();
    }

    fn mouse_press_left(&mut self, x: usize, y: i64)
        requires
            old(self).wf(),
            0 <= y < old(self)@.rows(),
        ensures
            final(self)@ == old(self)@.left_pressed(x, y),
            final(self).wf(),
    {
        proof {
            reveal(StateView::left_pressed);
        }
        self.hold_button(MouseButton::Left);
        proof {
            crate::model::lemma_button_held_shape(old(self)@, MouseButton::Left);
        }
        self.dirty_selection_lines();
        proof {
            crate::model::lemma_selection_dirtied_shape(old(self)@.button_held(MouseButton::Left));
        }
        let row = self.event_row(y);
        let streak = self.streak();
        if streak == 1 {
            self.mouse_single_click_left(x, row);
        } else if streak == 2 {
            self.mouse_double_click_left(x, row);
        } else if streak == 3 {
            self.mouse_triple_click_left(x, row);
        } else {
            self.put_selection(None, None);
            self.push_request(HostRequest::SetClipboard(None));
        }
    }

    fn mouse_release_left(&mut self)
        requires
            old(self).wf(),
        ensures
            final(self)@ == old(self)@.left_released(),
            final(self).wf(),
    {
        proof {
            reveal(StateView::left_released);
        }
        self.hold_button(MouseButton::NoButton);
        if self.streak() == 1 {
            let text = self.selection_len();
            if text > 0 {
                self.copy_selection();
            } else {
                match self.current_highlight() {
                    Some(link) => {
                        self.push_request(HostRequest::ClickLink(link));
                    },
                    None => {},
                }
            }
        }
    }

    fn selection_len(&self) -> (n: usize)
        requires
            self.wf(),
        ensures
            n == self@.selection_text().len(),
    {
        let text = self.get_selection_text();
        chars_of(text.as_str()).len()
    }

    fn mouse_drag_left(&mut self, x: usize, y: i64)
        requires
            old(self).wf(),
            0 <= y < old(self)@.rows(),
        ensures
            final(self)@ == old(self)@.left_dragged(x, y),
            final(self).wf(),
    {
        proof {
            reveal(StateView::left_dragged);
        }
        self.dirty_selection_lines();
        proof {
            crate::model::lemma_selection_dirtied_shape(old(self)@);
        }
        let end = SelectionCoordinate { x, y: self.event_row(y) };
        let start = match self.selection_range {
            Some(sel) => sel.start,
            None => match self.selection_start {
                Some(s) => s,
                None => end,
            },
        };
        let anchor = self.selection_start;
        self.put_selection(anchor, Some(SelectionRange { start, end }));
        self.dirty_selection_lines();
    }

    fn mouse_wheel(&mut self, up: bool, amount: usize, x: usize, y: i64)
        requires
            old(self).wf(),
            x < old(self)@.cols(),
            0 <= y < old(self)@.rows(),
        ensures
            final(self)@ == old(self)@.wheel_turned(up, amount, x, y),
            final(self).wf(),
    {
        proof {
            reveal(StateView::wheel_turned);
        }
        if self.modes.sgr_mouse {
            let report = encode_mouse_report(if up { 64 } else { 65 }, x + 1, (y + 1) as usize, false);
            self.reply(report);
        } else if self.screen.is_alt_screen_active() {
            let key = if up {
                KeyCode::UpArrow
            } else {
                KeyCode::DownArrow
            };
            let mut bytes: Vec<u8> = Vec::new();
            let sent = self.key_down(key, KeyModifiers::new(), &mut bytes);
            assert(bytes@ =~= crate::input::key_bytes(
                key,
                KeyModifiers::none(),
                old(self)@.modes.application_cursor_keys,
            ).unwrap());
            self.reply(bytes);
        } else {
            let delta = if amount > MAX_LINES {
                MAX_LINES as i64
            } else {
                amount as i64
            };
            self.scroll_viewport(if up { -delta } else { delta });
        }
    }

    fn button_code(button: MouseButton) -> (code: Option<u8>)
        ensures
            code == StateView::button_code(button),
    {
        match button {
            MouseButton::Left => Some(0),
            MouseButton::Middle => Some(1),
            MouseButton::Right => Some(2),
            _ => None,
        }
    }

    fn mouse_button_press(&mut self, button: MouseButton, x: usize, y: i64)
        requires
            old(self).wf(),
            x < old(self)@.cols(),
            0 <= y < old(self)@.rows(),
        ensures
            final(self)@ == old(self)@.button_pressed(button, x, y),
            final(self).wf(),
    {
        proof {
            reveal(StateView::button_pressed);
        }
        self.hold_button(button);
        proof {
            crate::model::lemma_button_held_shape(old(self)@, button);
        }
        match TerminalState::button_code(button) {
            Some(code) => {
                if self.modes.sgr_mouse {
                    self.reply(encode_mouse_report(code, x + 1, (y + 1) as usize, false));
                } else if button == MouseButton::Middle {
                    self.push_request(HostRequest::PasteClipboard);
                }
            },
            None => {},
        }
    }

    pub(crate) fn mouse_button_release(&mut self, x: usize, y: i64)
        requires
            old(self).wf(),
            x < old(self)@.cols(),
            0 <= y < old(self)@.rows(),
        ensures
            final(self)@ == old(self)@.button_released(x, y),
            final(self).wf(),
    {
        proof {
            reveal(StateView::button_released);
        }
        if self.current_mouse_button != MouseButton::NoButton {
            self.hold_button(MouseButton::NoButton);
            proof {
                crate::model::lemma_button_held_shape(old(self)@, MouseButton::NoButton);
            }
            if self.modes.sgr_mouse {
                self.reply(encode_mouse_report(3, x + 1, (y + 1) as usize, true));
            }
        }
    }

    pub(crate) fn mouse_move(&mut self, x: usize, y: i64)
        requires
            old(self).wf(),
            x < old(self)@.cols(),
            0 <= y < old(self)@.rows(),
        ensures
            final(self)@ == old(self)@.mouse_moved(x, y),
            final(self).wf(),
    {
        proof {
            reveal(StateView::mouse_moved);
        }
        match TerminalState::button_code(self.current_mouse_button) {
            Some(code) => {
                if self.modes.button_event_mouse && self.modes.sgr_mouse {
                    self.reply(encode_mouse_report(32 + code, x + 1, (y + 1) as usize, false));
                }
            },
            None => {},
        }
    }

    fn track_mouse(&mut self, event: MouseEvent, now: u64) -> (pos: CursorPosition)
        requires
            old(self).wf(),
        ensures
            final(self)@ == old(self)@.mouse_tracked(event, now),
            final(self).wf(),
            pos.x == old(self)@.event_x(event),
            pos.y == old(self)@.event_y(event),
            pos.x < final(self)@.cols(),
            0 <= pos.y < final(self)@.rows(),
    {
        let rows = self.screen.active().physical_rows;
        let cols = self.screen.active().physical_cols;
        let x = if event.x > cols - 1 {
            cols - 1
        } else {
            event.x
        };
        let y = clamp_i64(event.y, 0, rows as i64 - 1);
        let pos = CursorPosition { x, y };
        self.move_mouse_to(pos);
        proof {
            crate::model::lemma_mouse_moved_to_shape(old(self)@, pos);
        }
        if event.kind == MouseEventKind::Press {
            self.count_click(event.button, now);
            proof {
                crate::model::lemma_click_counted_shape(
                    old(self)@.mouse_moved_to(pos),
                    event.button,
                    now,
                );
            }
        }
        pos
    }

    fn dispatch_mouse(&mut self, event: MouseEvent, x: usize, y: i64)
        requires
            old(self).wf(),
            x < old(self)@.cols(),
            0 <= y < old(self)@.rows(),
        ensures
            final(self)@ == old(self)@.mouse_dispatched(event, x, y),
            final(self).wf(),
    {
        proof {
            reveal(StateView::mouse_dispatched);
        }
        let selecting = !(self.modes.sgr_mouse && !event.modifiers.shift);
        if selecting && event.kind == MouseEventKind::Press && event.button == MouseButton::Left {
            self.mouse_press_left(x, y);
        } else if selecting && event.kind == MouseEventKind::Release && event.button
            == MouseButton::Left {
            self.mouse_release_left();
        } else if selecting && event.kind == MouseEventKind::Move && self.current_mouse_button
            == MouseButton::Left {
            self.mouse_drag_left(x, y);
        } else {
            match event.kind {
                MouseEventKind::Press => match event.button {
                    MouseButton::WheelUp(amount) => self.mouse_wheel(true, amount, x, y),
                    MouseButton::WheelDown(amount) => self.mouse_wheel(false, amount, x, y),
                    _ => self.mouse_button_press(event.button, x, y),
                },
                MouseEventKind::Release => self.mouse_button_release(x, y),
                MouseEventKind::Move => self.mouse_move(x, y),
            }
        }
    }

    /// Handles a mouse event that happened at time `now`, in milliseconds. What the host is
    /// to do about it joins the requests of the terminal.
    pub fn mouse_event(&mut self, event: MouseEvent, now: u64) -> (r: Result<(), TermError>)
        requires
            old(self).wf(),
        ensures
            r is Ok,
            final(self)@ == old(self)@.mouse_handled(event, now),
            final(self).wf(),
    {
        let pos = self.track_mouse(event, now);
        self.dispatch_mouse(event, pos.x, pos.y);
        Ok(())
    }
}

} // verus!
