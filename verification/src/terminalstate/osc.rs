//! Applying operating system commands: the title, the clipboard and the colours.

use crate::cell::RgbColor;
use crate::engine::dynamic_color_of;
use crate::engine::with_dynamic_color;
use crate::escape::osc::ChangeColorPair;
use crate::escape::osc::ColorOrQuery;
use crate::escape::osc::DynamicColorNumber;
use crate::escape::osc::OperatingSystemCommand;
use crate::host::HostRequest;
use crate::model::StateView;
use crate::reply::encode_dynamic_color_report;
use crate::reply::encode_palette_report;
use crate::terminalstate::TerminalState;
use crate::text::copy_text;
use vstd::prelude::*;

verus! {

impl TerminalState {
    fn set_title(&mut self, title: Vec<char>)
        requires
            old(self).wf(),
        ensures
            final(self)@ == old(self)@.title_set(title@),
            final(self).wf(),
    {
        proof {
            reveal(StateView::title_set);
        }
        self.title = copy_text(&title);
        self.push_request(HostRequest::SetTitle(title));
    }

    fn set_palette_color(&mut self, index: u8, color: RgbColor)
        requires
            old(self).wf(),
        ensures
            final(self)@ == old(self)@.with_palette(old(self)@.palette.with_color(index, color)),
            final(self).wf(),
    {
        proof {
            reveal(StateView::with_palette);
        }
        self.palette.colors[index as usize] = color;
    }

    fn change_color(&mut self, pair: ChangeColorPair)
        requires
            old(self).wf(),
        ensures
            final(self)@ == old(self)@.color_changed(pair),
            final(self).wf(),
    {
        match pair.color {
            ColorOrQuery::Query => {
                let current = self.palette.colors[pair.palette_index as usize];
                self.reply(encode_palette_report(pair.palette_index, current));
            },
            ColorOrQuery::Color(c) => {
                self.set_palette_color(pair.palette_index, c);
            },
        }
    }

    fn change_colors(&mut self, pairs: &Vec<ChangeColorPair>)
        requires
            old(self).wf(),
        ensures
            final(self)@ == old(self)@.colors_changed(pairs@, pairs@.len() as int),
            final(self).wf(),
    {
        let mut i: usize = 0;
        while i < pairs.len()
            invariant
                i <= pairs.len(),
                self.wf(),
                self@ == old(self)@.colors_changed(pairs@, i as int),
            decreases pairs.len() - i,
        {
            self.change_color(pairs[i]);
            i = i + 1;
        }
    }

    fn dynamic_color(&self, which: DynamicColorNumber) -> (c: Option<RgbColor>)
        ensures
            c == dynamic_color_of(self@.palette, which),
    {
        match which {
            DynamicColorNumber::TextForegroundColor => Some(self.palette.foreground),
            DynamicColorNumber::TextBackgroundColor => Some(self.palette.background),
            DynamicColorNumber::TextCursorColor => Some(self.palette.cursor_bg),
            DynamicColorNumber::HighlightForegroundColor => Some(self.palette.selection_fg),
            DynamicColorNumber::HighlightBackgroundColor => Some(self.palette.selection_bg),
            _ => None,
        }
    }

    fn set_dynamic_color(&mut self, which: DynamicColorNumber, c: RgbColor)
        requires
            old(self).wf(),
        ensures
            final(self)@ == old(self)@.with_palette(
                with_dynamic_color(old(self)@.palette, which, c),
            ),
            final(self).wf(),
    {
        proof {
            reveal(StateView::with_palette);
        }
        match which {
            DynamicColorNumber::TextForegroundColor => {
                self.palette.foreground = c;
            },
            DynamicColorNumber::TextBackgroundColor => {
                self.palette.background = c;
            },
            DynamicColorNumber::TextCursorColor => {
                self.palette.cursor_bg = c;
            },
            DynamicColorNumber::HighlightForegroundColor => {
                self.palette.selection_fg = c;
            },
            DynamicColorNumber::HighlightBackgroundColor => {
                self.palette.selection_bg = c;
            },
            _ => {},
        }
    }

    fn change_dynamic_color(&mut self, number: usize, color: ColorOrQuery)
        requires
            old(self).wf(),
        ensures
            final(self)@ == old(self)@.dynamic_color_changed(number as int, color),
            final(self).wf(),
    {
        if number > 255 {
            return ;
        }
        match DynamicColorNumber::from_u8(number as u8) {
            Some(which) => match self.dynamic_color(which) {
                Some(current) => match color {
                    ColorOrQuery::Query => {
                        self.reply(encode_dynamic_color_report(which.to_u8(), current));
                    },
                    ColorOrQuery::Color(c) => {
                        self.set_dynamic_color(which, c);
                    },
                },
                None => {},
            },
            None => {},
        }
    }

    fn change_dynamic_colors(&mut self, first: DynamicColorNumber, colors: &Vec<ColorOrQuery>)
        requires
            old(self).wf(),
        ensures
            final(self)@ == old(self)@.dynamic_colors_changed(
                first.number() as int,
                colors@,
                colors@.len() as int,
            ),
            final(self).wf(),
    {
        let base = first.to_u8() as usize;
        let mut i: usize = 0;
        while i < colors.len()
            invariant
                i <= colors.len(),
                base == first.number(),
                self.wf(),
                self@ == old(self)@.dynamic_colors_changed(base as int, colors@, i as int),
            decreases colors.len() - i,
        {
            if i < 256 {
                self.change_dynamic_color(base + i, colors[i]);
            }
            i = i + 1;
        }
    }

    /// Applies an operating system command.
    pub(crate) fn perform_osc(&mut self, osc: OperatingSystemCommand)
        requires
            old(self).wf(),
        ensures
            final(self)@ == old(self)@.osc_applied(osc@),
            final(self).wf(),
    {
        match osc {
            OperatingSystemCommand::SetIconNameAndWindowTitle(title) => self.set_title(title),
            OperatingSystemCommand::SetWindowTitle(title) => self.set_title(title),
            OperatingSystemCommand::SetHyperlink(link) => self.set_hyperlink(link),
            OperatingSystemCommand::ClearSelection(_) => self.push_request(
                HostRequest::SetClipboard(None),
            ),
            OperatingSystemCommand::SetSelection(_, text) => self.push_request(
                HostRequest::SetClipboard(Some(text)),
            ),
            OperatingSystemCommand::ChangeColorNumber(pairs) => {
                self.change_colors(&pairs);
                self.make_all_lines_dirty();
            },
            OperatingSystemCommand::ChangeDynamicColors(first, colors) => {
                self.change_dynamic_colors(first, &colors);
                self.make_all_lines_dirty();
            },
            _ => {},
        }
    }
}

} // verus!
