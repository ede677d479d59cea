//! What performing decoded actions makes of a terminal.

use crate::cell::CellAttributes;
use crate::cell::columns;
use crate::cell::CellView;
use crate::escape::csi::CsiView;
use crate::escape::esc::Esc;
use crate::escape::esc::EscCode;
use crate::escape::osc::ChangeColorPair;
use crate::escape::osc::ColorOrQuery;
use crate::escape::osc::DynamicColorNumber;
use crate::escape::osc::OscView;
use crate::escape::ActionView;
use crate::escape::ControlCode;
use crate::host::HostRequestView;
use crate::model::ModeFlag;
use crate::model::Position;
use crate::model::StateView;
use crate::color::PaletteView;
use crate::model::CursorPosition;
use crate::reply::dynamic_color_report;
use crate::reply::palette_report;
use crate::text::cell_width;
use crate::text::graphemes_of;
use vstd::prelude::*;

verus! {

/// The character of the DEC line drawing set that a letter stands for.
pub open spec fn line_drawing_char(c: char) -> char {
    if c == 'j' {
        '\u{2518}'
    } else if c == 'k' {
        '\u{2510}'
    } else if c == 'l' {
        '\u{250c}'
    } else if c == 'm' {
        '\u{2514}'
    } else if c == 'n' {
        '\u{253c}'
    } else if c == 'q' {
        '\u{2500}'
    } else if c == 't' {
        '\u{251c}'
    } else if c == 'u' {
        '\u{2524}'
    } else if c == 'v' {
        '\u{2534}'
    } else if c == 'w' {
        '\u{252c}'
    } else if c == 'x' {
        '\u{2502}'
    } else {
        c
    }
}

/// The grapheme that is shown for `g`: in line drawing mode a single letter of the line
/// drawing set stands for a box drawing character.
pub open spec fn shown_grapheme(g: Seq<char>, line_drawing: bool) -> Seq<char> {
    if line_drawing && g.len() == 1 {
        seq![line_drawing_char(g[0])]
    } else {
        g
    }
}

/// What a cluster to print is: its characters, and the width it is to have on screen.
pub struct ClusterView {
    pub text: Seq<char>,
    pub width: usize,
}

/// A grapheme cluster to print, with the width it is to have on screen: more than one for a
/// cluster of two columns.
#[derive(Debug)]
pub struct Cluster {
    pub text: Vec<char>,
    pub width: usize,
}

impl View for Cluster {
    type V = ClusterView;

    open spec fn view(&self) -> ClusterView {
        ClusterView { text: self.text@, width: self.width }
    }
}

impl StateView {
    /// The pending wrap is carried out before a cluster is written, unless cells are being
    /// inserted.
    pub open spec fn wrapped_if_due(self) -> StateView {
        if !self.modes.insert && self.wrap_next {
            self.new_line(true)
        } else {
            self
        }
    }

    /// Whether a cluster of `width` columns written at the cursor reaches the right edge.
    pub open spec fn reaches_margin(self, width: int) -> bool {
        self.cursor.x + width >= self.cols()
    }

    /// The cell that a cluster of the given width makes: it has the pen's attributes, and is
    /// marked as wrapped where it reaches the right edge and cells are not being inserted.
    pub open spec fn cluster_cell(self, g: Seq<char>, width: usize) -> CellView {
        CellView::cluster(
            g,
            width,
            if !self.modes.insert && self.reaches_margin(columns(width) as int) {
                CellAttributes { wrapped: true, ..self.pen }
            } else {
                self.pen
            },
        )
    }

    /// The cell of a cluster of the given width is written at the cursor, after room has
    /// been made for it where cells are being inserted: the cells from the cursor on move
    /// right by the width of the cluster. A selection that holds a column of the cluster is
    /// dropped.
    #[verifier::opaque]
    pub open spec fn cluster_written(self, g: Seq<char>, width: usize) -> StateView {
        let w = columns(width) as int;
        let x = self.cursor.x as int;
        let y = self.cursor.y as int;
        let room = if self.modes.insert {
            self.active().with_inserted_cells_at(x, y, w)
        } else {
            self.active()
        };
        self.with_active(room.with_cell(x, y, self.cluster_cell(g, width))).cleared_if_intersects(
            x,
            x + w,
            y,
        )
    }

    /// The cursor after a cluster of `width` columns was written where the cursor of
    /// `before` is: it moves on by the width, unless the cluster reached the right edge,
    /// where the cursor stays and the wrap is put off until the next cluster comes.
    #[verifier::opaque]
    pub open spec fn advanced(self, width: int, before: StateView) -> StateView {
        if !before.reaches_margin(width) {
            StateView {
                cursor: CursorPosition { x: (before.cursor.x + width) as usize, y: self.cursor.y },
                wrap_next: false,
                ..self
            }
        } else {
            StateView { wrap_next: true, ..self }
        }
    }

    /// One grapheme cluster of the given width is printed at the cursor.
    pub open spec fn cluster_printed_as(self, g: Seq<char>, width: usize) -> StateView {
        let shown = shown_grapheme(g, self.modes.dec_line_drawing_mode);
        let ready = self.wrapped_if_due();
        ready.cluster_written(shown, width).advanced(columns(width) as int, ready)
    }

    /// One grapheme cluster is printed at the cursor, as wide as what is shown for it is
    /// measured to be.
    pub open spec fn cluster_printed(self, g: Seq<char>) -> StateView {
        self.cluster_printed_as(
            g,
            cell_width(shown_grapheme(g, self.modes.dec_line_drawing_mode)),
        )
    }

    /// The first `upto` clusters of a list are printed with the widths given for them, one
    /// after the other.
    pub open spec fn clusters_printed_as(self, clusters: Seq<ClusterView>, upto: int) -> StateView
        decreases upto,
    {
        if upto <= 0 {
            self
        } else {
            self.clusters_printed_as(clusters, upto - 1).cluster_printed_as(
                clusters[upto - 1].text,
                clusters[upto - 1].width,
            )
        }
    }

    /// The first `upto` clusters are printed, one after the other.
    pub open spec fn clusters_printed(self, clusters: Seq<Seq<char>>, upto: int) -> StateView
        decreases upto,
    {
        if upto <= 0 {
            self
        } else {
            self.clusters_printed(clusters, upto - 1).cluster_printed(clusters[upto - 1])
        }
    }

    /// A run of text is printed: it is split into grapheme clusters, and each cluster is
    /// written as one cell at the cursor.
    pub open spec fn text_printed(self, text: Seq<char>) -> StateView {
        self.clusters_printed(graphemes_of(text), graphemes_of(text).len() as int)
    }

    /// What a control code makes of the terminal.
    pub open spec fn control_applied(self, code: ControlCode) -> StateView {
        match code {
            ControlCode::LineFeed => self.new_line(false),
            ControlCode::VerticalTab => self.new_line(false),
            ControlCode::FormFeed => self.new_line(false),
            ControlCode::CarriageReturn => self.cursor_moved(
                Position::Absolute(0),
                Position::Relative(0),
            ),
            ControlCode::Backspace => self.cursor_moved(
                Position::Relative(-1i64),
                Position::Relative(0),
            ),
            ControlCode::HorizontalTab => self.horizontal_tab(),
            _ => self,
        }
    }

    /// What a control sequence makes of the terminal. Mouse reports and sequences that stand
    /// for nothing known change nothing.
    pub open spec fn csi_applied(self, csi: CsiView) -> StateView {
        match csi {
            CsiView::Sgr(sgr) => self.sgr_applied(sgr),
            CsiView::Cursor(cursor) => self.cursor_applied(cursor),
            CsiView::Edit(edit) => self.edited(edit),
            CsiView::Mode(mode) => self.mode_applied(mode),
            CsiView::Device(dev) => self.device_applied(dev),
            CsiView::Window(window) => self.window_applied(window),
            _ => self,
        }
    }

    /// What an escape sequence makes of the terminal.
    pub open spec fn esc_applied(self, esc: Esc) -> StateView {
        match esc {
            Esc::Code(EscCode::DecApplicationKeyPad) => self.flag_set(
                ModeFlag::ApplicationKeypad,
                true,
            ),
            Esc::Code(EscCode::DecNormalKeyPad) => self.flag_set(ModeFlag::ApplicationKeypad, false),
            Esc::Code(EscCode::ReverseIndex) => self.reverse_index(),
            Esc::Code(EscCode::Index) => self.index(),
            Esc::Code(EscCode::NextLine) => self.new_line(true),
            Esc::Code(EscCode::HorizontalTabSet) => self.tab_set(),
            Esc::Code(EscCode::DecLineDrawing) => self.flag_set(ModeFlag::LineDrawing, true),
            Esc::Code(EscCode::AsciiCharacterSet) => self.flag_set(ModeFlag::LineDrawing, false),
            Esc::Code(EscCode::DecSaveCursorPosition) => self.cursor_saved(),
            Esc::Code(EscCode::DecRestoreCursorPosition) => self.cursor_restored(),
            _ => self,
        }
    }

    /// The title becomes `title`, and the host is to show it.
    #[verifier::opaque]
    pub open spec fn title_set(self, title: Seq<char>) -> StateView {
        StateView { title, ..self }.with_request(HostRequestView::SetTitle(title))
    }

    /// The palette becomes `palette`.
    #[verifier::opaque]
    pub open spec fn with_palette(self, palette: PaletteView) -> StateView {
        StateView { palette, ..self }
    }

    /// One palette entry is set, or its colour reported.
    pub open spec fn color_changed(self, pair: ChangeColorPair) -> StateView {
        match pair.color {
            ColorOrQuery::Query => self.with_reply(
                palette_report(pair.palette_index, self.palette.colors[pair.palette_index as int]),
            ),
            ColorOrQuery::Color(c) => self.with_palette(
                self.palette.with_color(pair.palette_index, c),
            ),
        }
    }

    /// The first `upto` palette entries of a list are set or reported, in turn.
    pub open spec fn colors_changed(self, pairs: Seq<ChangeColorPair>, upto: int) -> StateView
        decreases upto,
    {
        if upto <= 0 {
            self
        } else {
            self.colors_changed(pairs, upto - 1).color_changed(pairs[upto - 1])
        }
    }

    /// One dynamic colour is set, or reported. The number names the colour; numbers that
    /// name no colour of the terminal change nothing.
    pub open spec fn dynamic_color_changed(self, number: int, color: ColorOrQuery) -> StateView {
        match DynamicColorNumber::of(number) {
            Some(which) => match dynamic_color_of(self.palette, which) {
                Some(current) => match color {
                    ColorOrQuery::Query => self.with_reply(
                        dynamic_color_report(which.number(), current),
                    ),
                    ColorOrQuery::Color(c) => self.with_palette(
                        with_dynamic_color(self.palette, which, c),
                    ),
                },
                None => self,
            },
            None => self,
        }
    }

    /// The first `upto` dynamic colours of a list are set or reported, counting on from
    /// number `first`.
    pub open spec fn dynamic_colors_changed(
        self,
        first: int,
        colors: Seq<ColorOrQuery>,
        upto: int,
    ) -> StateView
        decreases upto,
    {
        if upto <= 0 {
            self
        } else {
            self.dynamic_colors_changed(first, colors, upto - 1).dynamic_color_changed(
                first + upto - 1,
                colors[upto - 1],
            )
        }
    }

    /// What an operating system command makes of the terminal.
    pub open spec fn osc_applied(self, osc: OscView) -> StateView {
        match osc {
            OscView::SetIconNameAndWindowTitle(title) => self.title_set(title),
            OscView::SetWindowTitle(title) => self.title_set(title),
            OscView::SetHyperlink(link) => self.hyperlink_set(link),
            OscView::ClearSelection(_) => self.with_request(HostRequestView::SetClipboard(None)),
            OscView::SetSelection(_, text) => self.with_request(
                HostRequestView::SetClipboard(Some(text)),
            ),
            OscView::ChangeColorNumber(pairs) => self.colors_changed(
                pairs,
                pairs.len() as int,
            ).all_lines_marked(true),
            OscView::ChangeDynamicColors(first, colors) => self.dynamic_colors_changed(
                first.number() as int,
                colors,
                colors.len() as int,
            ).all_lines_marked(true),
            _ => self,
        }
    }
}

impl StateView {
    /// What an action that is neither a character to print nor a step of a device control
    /// string makes of the terminal.
    #[verifier::opaque]
    pub open spec fn action_applied(self, action: ActionView) -> StateView {
        match action {
            ActionView::Control(code) => self.control_applied(code),
            ActionView::OperatingSystemCommand(osc) => self.osc_applied(osc),
            ActionView::CSI(csi) => self.csi_applied(csi),
            ActionView::Esc(esc) => self.esc_applied(esc),
            _ => self,
        }
    }
}

/// The dynamic colour of a palette with the given number, where the terminal has it.
pub open spec fn dynamic_color_of(p: PaletteView, which: DynamicColorNumber) -> Option<
    crate::cell::RgbColor,
> {
    match which {
        DynamicColorNumber::TextForegroundColor => Some(p.foreground),
        DynamicColorNumber::TextBackgroundColor => Some(p.background),
        DynamicColorNumber::TextCursorColor => Some(p.cursor_bg),
        DynamicColorNumber::HighlightForegroundColor => Some(p.selection_fg),
        DynamicColorNumber::HighlightBackgroundColor => Some(p.selection_bg),
        _ => None,
    }
}

/// The palette with one of its dynamic colours set.
pub open spec fn with_dynamic_color(
    p: PaletteView,
    which: DynamicColorNumber,
    c: crate::cell::RgbColor,
) -> PaletteView {
    match which {
        DynamicColorNumber::TextForegroundColor => PaletteView { foreground: c, ..p },
        DynamicColorNumber::TextBackgroundColor => PaletteView { background: c, ..p },
        DynamicColorNumber::TextCursorColor => PaletteView { cursor_bg: c, ..p },
        DynamicColorNumber::HighlightForegroundColor => PaletteView { selection_fg: c, ..p },
        DynamicColorNumber::HighlightBackgroundColor => PaletteView { selection_bg: c, ..p },
        _ => p,
    }
}

/// A terminal at work: its state, and the run of text that waits to be printed.
pub struct EngineView {
    pub state: StateView,
    pub print: Option<Seq<char>>,
}

impl EngineView {
    /// The text that waits is printed.
    pub open spec fn flushed(self) -> EngineView {
        match self.print {
            Some(text) => EngineView { state: self.state.text_printed(text), print: None },
            None => self,
        }
    }

    /// One action is performed. A character to print joins the text that waits; a step of a
    /// device control string changes nothing; any other action first prints the text that
    /// waits and is then applied to the state.
    #[verifier::opaque]
    pub open spec fn performed(self, action: ActionView) -> EngineView {
        match action {
            ActionView::Print(c) => EngineView {
                print: Some(
                    match self.print {
                        Some(text) => text.push(c),
                        None => seq![c],
                    },
                ),
                ..self
            },
            ActionView::DeviceControl(_) => self,
            _ => EngineView { state: self.flushed().state.action_applied(action), print: None },
        }
    }

    /// The first `upto` actions of a list are performed, in turn.
    pub open spec fn performed_all(self, actions: Seq<ActionView>, upto: int) -> EngineView
        decreases upto,
    {
        if upto <= 0 {
            self
        } else {
            self.performed_all(actions, upto - 1).performed(actions[upto - 1])
        }
    }
}

} // verus!
