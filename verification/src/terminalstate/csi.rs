//! Applying control sequences: attributes, modes, cursor moves and reports.

use crate::cell::CellAttributes;
use crate::escape::csi::Cursor;
use crate::escape::csi::DecPrivateMode;
use crate::escape::csi::DecPrivateModeCode;
use crate::escape::csi::Device;
use crate::escape::csi::EraseInDisplay;
use crate::escape::csi::Mode;
use crate::escape::csi::Sgr;
use crate::escape::csi::TerminalMode;
use crate::escape::csi::TerminalModeCode;
use crate::escape::csi::Window;
use crate::escape::OneBased;
use crate::host::HostRequest;
use crate::model::pen_after;
use crate::model::ModeFlag;
use crate::model::Position;
use crate::model::StateView;
use crate::reply::encode_checksum_report;
use crate::reply::encode_device_ident;
use crate::reply::encode_position_report;
use crate::reply::encode_secondary_ident;
use crate::reply::encode_size_report;
use crate::reply::encode_status_ok;
use crate::screen::MAX_DIMENSION;
use crate::terminalstate::clamp_i64;
use crate::terminalstate::TerminalState;
use crate::views::lemma_views_push;
use vstd::prelude::*;

verus! {

/// The pen after it takes one graphic attribute.
pub fn apply_sgr(pen: &CellAttributes, sgr: Sgr) -> (p: CellAttributes)
    ensures
        p == pen_after(*pen, sgr),
{
    proof {
        reveal(pen_after);
    }
    let mut p = *pen;
    match sgr {
        Sgr::Reset => {
            p = CellAttributes::new();
            p.set_hyperlink(pen.hyperlink);
        },
        Sgr::Intensity(v) => p.set_intensity(v),
        Sgr::Underline(v) => p.set_underline(v),
        Sgr::Blink(v) => p.set_blink(v),
        Sgr::Italic(v) => p.set_italic(v),
        Sgr::Inverse(v) => p.set_reverse(v),
        Sgr::Invisible(v) => p.set_invisible(v),
        Sgr::StrikeThrough(v) => p.set_strikethrough(v),
        Sgr::Foreground(c) => p.set_foreground(c),
        Sgr::Background(c) => p.set_background(c),
        Sgr::Font(_) => {},
    }
    p
}

impl TerminalState {
    /// Sets one graphic attribute of the pen.
    pub(crate) fn perform_csi_sgr(&mut self, sgr: Sgr)
        requires
            old(self).wf(),
        ensures
            final(self)@ == old(self)@.sgr_applied(sgr),
            final(self).wf(),
    {
        proof {
            reveal(StateView::sgr_applied);
        }
        self.pen = apply_sgr(&self.pen, sgr);
    }

    /// Sets or resets a mode flag.
    pub(crate) fn set_flag(&mut self, flag: ModeFlag, value: bool)
        requires
            old(self).wf(),
        ensures
            final(self)@ == old(self)@.flag_set(flag, value),
            final(self).wf(),
    {
        proof {
            reveal(StateView::flag_set);
        }
        self.modes.set(flag, value);
    }

    fn switch_screen(&mut self, alt: bool)
        requires
            old(self).wf(),
        ensures
            final(self)@ == old(self)@.screen_switched(alt),
            final(self).wf(),
    {
        proof {
            reveal(StateView::screen_switched);
        }
        if alt {
            self.screen.activate_alt_screen();
        } else {
            self.screen.activate_primary_screen();
        }
        self.viewport_offset = 0;
    }

    fn enter_alt(&mut self)
        requires
            old(self).wf(),
        ensures
            final(self)@ == old(self)@.alt_entered(),
            final(self).wf(),
    {
        if !self.screen.is_alt_screen_active() {
            self.switch_screen(true);
            self.set_scroll_viewport(0);
        }
    }

    fn leave_alt(&mut self)
        requires
            old(self).wf(),
        ensures
            final(self)@ == old(self)@.alt_left(),
            final(self).wf(),
    {
        if self.screen.is_alt_screen_active() {
            self.switch_screen(false);
            self.set_scroll_viewport(0);
        }
    }

    fn enter_alt_clear(&mut self)
        requires
            old(self).wf(),
        ensures
            final(self)@ == old(self)@.alt_entered_clear(),
            final(self).wf(),
    {
        if !self.screen.is_alt_screen_active() {
            self.save_cursor();
            self.switch_screen(true);
            self.set_cursor_pos(Position::Absolute(0), Position::Absolute(0));
            self.erase_in_display(EraseInDisplay::EraseDisplay);
            self.set_scroll_viewport(0);
        }
    }

    fn leave_alt_restore(&mut self)
        requires
            old(self).wf(),
        ensures
            final(self)@ == old(self)@.alt_left_restore(),
            final(self).wf(),
    {
        if self.screen.is_alt_screen_active() {
            self.switch_screen(false);
            self.restore_cursor();
            self.set_scroll_viewport(0);
        }
    }

    fn set_dec_mode(&mut self, code: DecPrivateModeCode)
        requires
            old(self).wf(),
        ensures
            final(self)@ == old(self)@.dec_mode_set(code),
            final(self).wf(),
    {
        match code {
            DecPrivateModeCode::BracketedPaste => self.set_flag(ModeFlag::BracketedPaste, true),
            DecPrivateModeCode::EnableAlternateScreen => self.enter_alt(),
            DecPrivateModeCode::ApplicationCursorKeys => self.set_flag(
                ModeFlag::ApplicationCursorKeys,
                true,
            ),
            DecPrivateModeCode::ShowCursor => self.set_flag(ModeFlag::ShowCursor, true),
            DecPrivateModeCode::ButtonEventMouse => self.set_flag(ModeFlag::ButtonEventMouse, true),
            DecPrivateModeCode::SGRMouse => self.set_flag(ModeFlag::SgrMouse, true),
            DecPrivateModeCode::ClearAndEnableAlternateScreen => self.enter_alt_clear(),
            _ => {},
        }
    }

    fn reset_dec_mode(&mut self, code: DecPrivateModeCode)
        requires
            old(self).wf(),
        ensures
            final(self)@ == old(self)@.dec_mode_reset(code),
            final(self).wf(),
    {
        match code {
            DecPrivateModeCode::BracketedPaste => self.set_flag(ModeFlag::BracketedPaste, false),
            DecPrivateModeCode::EnableAlternateScreen => self.leave_alt(),
            DecPrivateModeCode::ApplicationCursorKeys => self.set_flag(
                ModeFlag::ApplicationCursorKeys,
                false,
            ),
            DecPrivateModeCode::ShowCursor => self.set_flag(ModeFlag::ShowCursor, false),
            DecPrivateModeCode::ButtonEventMouse => self.set_flag(ModeFlag::ButtonEventMouse, false),
            DecPrivateModeCode::SGRMouse => self.set_flag(ModeFlag::SgrMouse, false),
            DecPrivateModeCode::ClearAndEnableAlternateScreen => self.leave_alt_restore(),
            _ => {},
        }
    }

    /// Sets or resets a mode.
    pub(crate) fn perform_csi_mode(&mut self, mode: Mode)
        requires
            old(self).wf(),
        ensures
            final(self)@ == old(self)@.mode_applied(mode),
            final(self).wf(),
    {
        match mode {
            Mode::SetMode(TerminalMode::Code(TerminalModeCode::Insert)) => self.set_flag(
                ModeFlag::Insert,
                true,
            ),
            Mode::ResetMode(TerminalMode::Code(TerminalModeCode::Insert)) => self.set_flag(
                ModeFlag::Insert,
                false,
            ),
            Mode::SetDecPrivateMode(DecPrivateMode::Code(code)) => self.set_dec_mode(code),
            Mode::ResetDecPrivateMode(DecPrivateMode::Code(code)) => self.reset_dec_mode(code),
            _ => {},
        }
    }

    /// Adds a request to those the host is to serve.
    pub(crate) fn push_request(&mut self, request: HostRequest)
        requires
            old(self).wf(),
        ensures
            final(self)@ == old(self)@.with_request(request@),
            final(self).wf(),
    {
        proof {
            reveal(StateView::with_request);
            lemma_views_push(self.requests@, request);
        }
        self.requests.push(request);
    }

    /// Sends bytes to the child process.
    pub(crate) fn reply(&mut self, bytes: Vec<u8>)
        requires
            old(self).wf(),
        ensures
            final(self)@ == old(self)@.with_reply(bytes@),
            final(self).wf(),
    {
        self.push_request(HostRequest::Write(bytes));
    }

    fn set_margins(&mut self, top: OneBased, bottom: OneBased)
        requires
            old(self).wf(),
        ensures
            final(self)@ == old(self)@.margins_set(top, bottom),
            final(self).wf(),
    {
        proof {
            reveal(StateView::margins_set);
        }
        let rows = self.screen.active().physical_rows as i64;
        let t = clamp_i64(top.as_zero_based() as i64, 0, rows - 1);
        let b = clamp_i64(bottom.as_zero_based() as i64, 0, rows - 1);
        if t > b {
            self.scroll_top = b;
            self.scroll_bottom = t + 1;
        } else {
            self.scroll_top = t;
            self.scroll_bottom = b + 1;
        }
    }

    fn tab_forward(&mut self, n: u32)
        requires
            old(self).wf(),
        ensures
            final(self)@ == old(self)@.tabbed(n as nat),
            final(self).wf(),
    {
        let mut i: u32 = 0;
        while i < n
            invariant
                i <= n,
                self.wf(),
                self@ == old(self)@.tabbed(i as nat),
            decreases n - i,
        {
            self.c0_horizontal_tab();
            i = i + 1;
        }
    }

    fn feed_lines(&mut self, n: u32)
        requires
            old(self).wf(),
        ensures
            final(self)@ == old(self)@.lines_fed(n as nat),
            final(self).wf(),
    {
        let mut i: u32 = 0;
        while i < n
            invariant
                i <= n,
                self.wf(),
                self@ == old(self)@.lines_fed(i as nat),
            decreases n - i,
        {
            self.new_line(true);
            i = i + 1;
        }
    }

    fn report_position(&mut self)
        requires
            old(self).wf(),
        ensures
            final(self)@ == old(self)@.with_reply(
                crate::reply::position_report(
                    (old(self)@.cursor.y + 1) as u32,
                    (old(self)@.cursor.x + 1) as u32,
                ),
            ),
            final(self).wf(),
    {
        let line = OneBased::from_zero_based(self.cursor.y as u32);
        let col = OneBased::from_zero_based(self.cursor.x as u32);
        self.reply(encode_position_report(line.as_one_based(), col.as_one_based()));
    }

    /// Applies a cursor operation.
    pub(crate) fn perform_csi_cursor(&mut self, cursor: Cursor)
        requires
            old(self).wf(),
        ensures
            final(self)@ == old(self)@.cursor_applied(cursor),
            final(self).wf(),
    {
        let here = Position::Relative(0);
        match cursor {
            Cursor::SetTopAndBottomMargins { top, bottom } => self.set_margins(top, bottom),
            Cursor::ForwardTabulation(n) => self.tab_forward(n),
            Cursor::Left(n) => self.set_cursor_pos(Position::Relative(-(n as i64)), here),
            Cursor::Right(n) => self.set_cursor_pos(Position::Relative(n as i64), here),
            Cursor::Up(n) => self.set_cursor_pos(here, Position::Relative(-(n as i64))),
            Cursor::Down(n) => self.set_cursor_pos(here, Position::Relative(n as i64)),
            Cursor::CharacterAndLinePosition { line, col } => self.set_cursor_pos(
                Position::Absolute(col.as_zero_based() as i64),
                Position::Absolute(line.as_zero_based() as i64),
            ),
            Cursor::Position { line, col } => self.set_cursor_pos(
                Position::Absolute(col.as_zero_based() as i64),
                Position::Absolute(line.as_zero_based() as i64),
            ),
            Cursor::CharacterAbsolute(col) => self.set_cursor_pos(
                Position::Absolute(col.as_zero_based() as i64),
                here,
            ),
            Cursor::CharacterPositionAbsolute(col) => self.set_cursor_pos(
                Position::Absolute(col.as_zero_based() as i64),
                here,
            ),
            Cursor::CharacterPositionBackward(n) => self.set_cursor_pos(
                Position::Relative(-(n as i64)),
                here,
            ),
            Cursor::CharacterPositionForward(n) => self.set_cursor_pos(
                Position::Relative(n as i64),
                here,
            ),
            Cursor::LinePositionAbsolute(line) => self.set_cursor_pos(
                here,
                Position::Absolute(line as i64 - 1),
            ),
            Cursor::LinePositionBackward(n) => self.set_cursor_pos(
                here,
                Position::Relative(-(n as i64)),
            ),
            Cursor::LinePositionForward(n) => self.set_cursor_pos(here, Position::Relative(n as i64)),
            Cursor::NextLine(n) => self.feed_lines(n),
            Cursor::PrecedingLine(n) => self.set_cursor_pos(
                Position::Absolute(0),
                Position::Relative(-(n as i64)),
            ),
            Cursor::RequestActivePositionReport => self.report_position(),
            Cursor::SaveCursor => self.save_cursor(),
            Cursor::RestoreCursor => self.restore_cursor(),
            _ => {},
        }
    }

    fn reset_pen(&mut self)
        requires
            old(self).wf(),
        ensures
            final(self)@ == old(self)@.pen_reset(),
            final(self).wf(),
    {
        proof {
            reveal(StateView::pen_reset);
        }
        self.pen = CellAttributes::new();
    }

    /// Applies a device operation.
    pub(crate) fn perform_device(&mut self, dev: Device)
        requires
            old(self).wf(),
        ensures
            final(self)@ == old(self)@.device_applied(dev),
            final(self).wf(),
    {
        match dev {
            Device::SoftReset => self.reset_pen(),
            Device::RequestPrimaryDeviceAttributes => self.reply(encode_device_ident()),
            Device::RequestSecondaryDeviceAttributes => self.reply(encode_secondary_ident()),
            Device::StatusReport => self.reply(encode_status_ok()),
        }
    }

    fn line_checksum(&self, y: i64, left: usize, end: usize) -> (sum: u16)
        requires
            self.wf(),
            0 <= y < self@.rows(),
        ensures
            sum == StateView::line_checksum(self@.active().row(y as int), left as int, end as int),
    {
        let screen = self.screen.active();
        let idx = screen.phys_row(y);
        let line = screen.line(idx);
        let mut sum: u16 = 0;
        let mut col = left;
        while col < end
            invariant
                left <= col,
                col <= end || (end < left && col == left),
                line@ == self@.active().row(y as int),
                sum == StateView::line_checksum(line@, left as int, col as int),
            decreases end - col,
        {
            let add: u16 = if col < line.len() && line.cell(col).chars().len() > 0 {
                (line.cell(col).chars()[0] as u32 % 256) as u16
            } else {
                0
            };
            sum = ((sum as u32 + add as u32) % 65536) as u16;
            col = col + 1;
        }
        sum
    }

    /// The checksum of a rectangle of cells counted from zero, its corners included and
    /// brought onto the screen.
    pub(crate) fn checksum_rectangle(&self, left: u32, top: u32, right: u32, bottom: u32) -> (sum: u16)
        requires
            self.wf(),
        ensures
            sum == self@.checksum(left, top, right, bottom),
    {
        let rows = self.screen.active().physical_rows;
        let last_row: usize = if (bottom as u64) < rows as u64 {
            bottom as usize + 1
        } else {
            rows
        };
        let last_col: usize = if (right as u64) < MAX_DIMENSION as u64 {
            right as usize + 1
        } else {
            MAX_DIMENSION
        };
        let first_row: usize = if (top as u64) < rows as u64 {
            top as usize
        } else {
            rows
        };
        let first_col: usize = if (left as u64) < MAX_DIMENSION as u64 {
            left as usize
        } else {
            MAX_DIMENSION
        };
        let mut sum: u16 = 0;
        let mut y: usize = first_row;
        while y < last_row
            invariant
                first_row <= y,
                y <= last_row || (last_row < first_row && y == first_row),
                last_row <= rows,
                rows == self@.rows(),
                self.wf(),
                sum == self@.rows_checksum(
                    first_col as int,
                    first_row as int,
                    last_col as int,
                    y as int,
                ),
            decreases last_row - y,
        {
            let part = self.line_checksum(y as i64, first_col, last_col);
            sum = ((sum as u32 + part as u32) % 65536) as u16;
            y = y + 1;
        }
        sum
    }

    /// Applies a window operation.
    pub(crate) fn perform_csi_window(&mut self, window: Window)
        requires
            old(self).wf(),
        ensures
            final(self)@ == old(self)@.window_applied(window),
            final(self).wf(),
    {
        match window {
            Window::ReportTextAreaSizeCells => {
                let screen = self.screen.active();
                let report = encode_size_report(screen.physical_rows, screen.physical_cols);
                self.reply(report);
            },
            Window::ChecksumRectangularArea { request_id, page_number, top, left, bottom, right } => {
                let checksum = self.checksum_rectangle(
                    left.as_zero_based(),
                    top.as_zero_based(),
                    right.as_zero_based(),
                    bottom.as_zero_based(),
                );
                self.reply(encode_checksum_report(request_id, checksum));
            },
            _ => {},
        }
    }
}

} // verus!
