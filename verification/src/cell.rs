//! Cells and their graphic attributes.

use crate::text::cell_width;
use crate::text::copy_text;
use crate::text::display_width;
use crate::text::string_of;
use vstd::prelude::*;

verus! {

/// A colour given by its red, green and blue parts.
#[derive(Clone, Copy, Debug, PartialEq, Eq, Structural)]
pub struct RgbColor {
    pub red: u8,
    pub green: u8,
    pub blue: u8,
}

/// A colour as an escape sequence names it.
#[derive(Clone, Copy, Debug, PartialEq, Eq, Structural)]
pub enum ColorSpec {
    Default,
    PaletteIndex(u8),
    TrueColor(RgbColor),
}

/// A colour as a cell stores it.
#[derive(Clone, Copy, Debug, PartialEq, Eq, Structural)]
pub enum ColorAttribute {
    TrueColorWithDefaultFallback(RgbColor),
    PaletteIndex(u8),
    Default,
}

impl ColorAttribute {
    /// The cell colour that stands for a colour named in an escape sequence.
    pub open spec fn of(spec: ColorSpec) -> ColorAttribute {
        match spec {
            ColorSpec::Default => ColorAttribute::Default,
            ColorSpec::PaletteIndex(i) => ColorAttribute::PaletteIndex(i),
            ColorSpec::TrueColor(c) => ColorAttribute::TrueColorWithDefaultFallback(c),
        }
    }

    /// The cell colour that stands for a colour named in an escape sequence.
    pub fn from_spec(spec: ColorSpec) -> (c: ColorAttribute)
        ensures
            c == ColorAttribute::of(spec),
    {
        match spec {
            ColorSpec::Default => ColorAttribute::Default,
            ColorSpec::PaletteIndex(i) => ColorAttribute::PaletteIndex(i),
            ColorSpec::TrueColor(c) => ColorAttribute::TrueColorWithDefaultFallback(c),
        }
    }
}

/// How strongly text is drawn.
#[derive(Clone, Copy, Debug, PartialEq, Eq, Structural)]
pub enum Intensity {
    Normal,
    Bold,
    Half,
}

/// How text is underlined.
#[derive(Clone, Copy, Debug, PartialEq, Eq, Structural)]
pub enum Underline {
    Off,
    Single,
    Double,
}

/// How text blinks.
#[derive(Clone, Copy, Debug, PartialEq, Eq, Structural)]
pub enum Blink {
    Off,
    Slow,
    Rapid,
}

/// A handle to a hyperlink record held by the terminal: the index of the record, and whether
/// a rule made the link from plain text.
#[derive(Clone, Copy, Debug, PartialEq, Eq, Structural)]
pub struct LinkId {
    pub index: usize,
    pub implicit: bool,
}

/// The graphic attributes of a cell, and of the pen that writes cells.
#[derive(Clone, Copy, Debug, PartialEq, Eq, Structural)]
pub struct CellAttributes {
    pub intensity: Intensity,
    pub underline: Underline,
    pub blink: Blink,
    pub italic: bool,
    pub reverse: bool,
    pub strikethrough: bool,
    pub invisible: bool,
    pub wrapped: bool,
    pub foreground: ColorAttribute,
    pub background: ColorAttribute,
    pub hyperlink: Option<LinkId>,
}

impl CellAttributes {
    /// The attributes of unstyled text.
    pub open spec fn plain() -> CellAttributes {
        CellAttributes {
            intensity: Intensity::Normal,
            underline: Underline::Off,
            blink: Blink::Off,
            italic: false,
            reverse: false,
            strikethrough: false,
            invisible: false,
            wrapped: false,
            foreground: ColorAttribute::Default,
            background: ColorAttribute::Default,
            hyperlink: None,
        }
    }

    /// The same attributes without the hyperlink.
    #[verifier::opaque]
    pub open spec fn sgr_only(self) -> CellAttributes {
        CellAttributes { hyperlink: None, ..self }
    }

    /// The attributes of unstyled text.
    pub fn new() -> (a: CellAttributes)
        ensures
            a == CellAttributes::plain(),
    {
        CellAttributes {
            intensity: Intensity::Normal,
            underline: Underline::Off,
            blink: Blink::Off,
            italic: false,
            reverse: false,
            strikethrough: false,
            invisible: false,
            wrapped: false,
            foreground: ColorAttribute::Default,
            background: ColorAttribute::Default,
            hyperlink: None,
        }
    }

    /// Sets how strongly text is drawn.
    pub fn set_intensity(&mut self, value: Intensity)
        ensures
            *final(self) == (CellAttributes { intensity: value, ..*old(self) }),
    {
        self.intensity = value;
    }

    /// Sets how text is underlined.
    pub fn set_underline(&mut self, value: Underline)
        ensures
            *final(self) == (CellAttributes { underline: value, ..*old(self) }),
    {
        self.underline = value;
    }

    /// Sets how text blinks.
    pub fn set_blink(&mut self, value: Blink)
        ensures
            *final(self) == (CellAttributes { blink: value, ..*old(self) }),
    {
        self.blink = value;
    }

    /// Sets whether text is italic.
    pub fn set_italic(&mut self, value: bool)
        ensures
            *final(self) == (CellAttributes { italic: value, ..*old(self) }),
    {
        self.italic = value;
    }

    /// Sets whether foreground and background change places.
    pub fn set_reverse(&mut self, value: bool)
        ensures
            *final(self) == (CellAttributes { reverse: value, ..*old(self) }),
    {
        self.reverse = value;
    }

    /// Sets whether text is struck through.
    pub fn set_strikethrough(&mut self, value: bool)
        ensures
            *final(self) == (CellAttributes { strikethrough: value, ..*old(self) }),
    {
        self.strikethrough = value;
    }

    /// Sets whether text is hidden.
    pub fn set_invisible(&mut self, value: bool)
        ensures
            *final(self) == (CellAttributes { invisible: value, ..*old(self) }),
    {
        self.invisible = value;
    }

    /// Sets whether the cell ends a row that runs on into the next.
    pub fn set_wrapped(&mut self, value: bool)
        ensures
            *final(self) == (CellAttributes { wrapped: value, ..*old(self) }),
    {
        self.wrapped = value;
    }

    /// Sets the colour of the text.
    pub fn set_foreground(&mut self, value: ColorSpec)
        ensures
            *final(self) == (CellAttributes { foreground: ColorAttribute::of(value), ..*old(self) }),
    {
        self.foreground = ColorAttribute::from_spec(value);
    }

    /// Sets the colour behind the text.
    pub fn set_background(&mut self, value: ColorSpec)
        ensures
            *final(self) == (CellAttributes { background: ColorAttribute::of(value), ..*old(self) }),
    {
        self.background = ColorAttribute::from_spec(value);
    }

    /// Sets the link, or clears it.
    pub fn set_hyperlink(&mut self, link: Option<LinkId>)
        ensures
            *final(self) == (CellAttributes { hyperlink: link, ..*old(self) }),
    {
        self.hyperlink = link;
    }

    /// Whether the cell ends a row that runs on into the next.
    pub fn wrapped(&self) -> (b: bool)
        ensures
            b == self.wrapped,
    {
        self.wrapped
    }

    /// The same attributes without the hyperlink.
    pub fn clone_sgr_only(&self) -> (a: CellAttributes)
        ensures
            a == self.sgr_only(),
    {
        proof {
            reveal(CellAttributes::sgr_only);
        }
        CellAttributes {
            intensity: self.intensity,
            underline: self.underline,
            blink: self.blink,
            italic: self.italic,
            reverse: self.reverse,
            strikethrough: self.strikethrough,
            invisible: self.invisible,
            wrapped: self.wrapped,
            foreground: self.foreground,
            background: self.background,
            hyperlink: None,
        }
    }
}

/// The columns that a cluster of the given width occupies: one, or two for a wide cluster.
pub open spec fn columns(width: usize) -> usize {
    if width > 1 {
        2
    } else {
        1
    }
}

/// What a cell is: the characters of its grapheme, its width and its attributes.
pub struct CellView {
    pub text: Seq<char>,
    /// The width the cell was made with: more than one for a cell of two columns.
    pub width: usize,
    pub attrs: CellAttributes,
}

impl CellView {
    /// A single space with the given attributes.
    pub open spec fn blank(attrs: CellAttributes) -> CellView {
        CellView { text: seq![' '], width: 1, attrs }
    }

    /// The text a cell keeps for `c`: control characters are stored as a space.
    pub open spec fn stored_char(c: char) -> char {
        if (c as u32) < 0x20 || c as u32 == 0x7f {
            ' '
        } else {
            c
        }
    }

    /// The text a cell keeps for a grapheme: a lone control character, an empty text and a
    /// carriage return with line feed are stored as a space.
    pub open spec fn stored_text(text: Seq<char>) -> Seq<char> {
        if text.len() == 0 {
            seq![' ']
        } else if text.len() == 1 {
            seq![CellView::stored_char(text[0])]
        } else if text.len() == 2 && text[0] == '\r' && text[1] == '\n' {
            seq![' ']
        } else {
            text
        }
    }

    /// The cell that shows a grapheme of the given width with the given attributes.
    pub open spec fn cluster(text: Seq<char>, width: usize, attrs: CellAttributes) -> CellView {
        CellView { text: CellView::stored_text(text), width, attrs }
    }

    /// The cell that shows a grapheme with the given attributes, as wide as the grapheme is
    /// measured to be.
    pub open spec fn grapheme(text: Seq<char>, attrs: CellAttributes) -> CellView {
        CellView::cluster(text, cell_width(text), attrs)
    }

    /// The columns the cell occupies: one or two.
    pub open spec fn width(self) -> usize {
        columns(self.width)
    }

    /// The cell with its link replaced.
    pub open spec fn with_link(self, link: Option<LinkId>) -> CellView {
        CellView { attrs: CellAttributes { hyperlink: link, ..self.attrs }, ..self }
    }

    /// Whether the cell has a link that a rule made.
    pub open spec fn has_implicit_link(self) -> bool {
        self.attrs.hyperlink matches Some(l) && l.implicit
    }
}

/// One position of the grid: a grapheme and its attributes.
#[derive(Debug)]
pub struct Cell {
    text: Vec<char>,
    width: usize,
    attrs: CellAttributes,
}

impl View for Cell {
    type V = CellView;

    closed spec fn view(&self) -> CellView {
        CellView { text: self.text@, width: self.width, attrs: self.attrs }
    }
}

impl Cell {
    /// A cell that shows the single character `c`.
    pub fn new(c: char, attrs: CellAttributes) -> (cell: Cell)
        ensures
            cell@ == CellView::grapheme(seq![c], attrs),
    {
        let mut text: Vec<char> = Vec::new();
        text.push(c);
        assert(text@ =~= seq![c]);
        Cell::new_grapheme(&text, attrs)
    }

    /// A cell that shows a blank.
    pub fn blank(attrs: CellAttributes) -> (cell: Cell)
        ensures
            cell@ == CellView::blank(attrs),
    {
        let mut text: Vec<char> = Vec::new();
        text.push(' ');
        assert(text@ =~= seq![' ']);
        Cell { text, width: 1, attrs }
    }

    /// A cell that shows a whole grapheme cluster, as wide as the cluster is measured to be.
    pub fn new_grapheme(grapheme: &Vec<char>, attrs: CellAttributes) -> (cell: Cell)
        ensures
            cell@ == CellView::grapheme(grapheme@, attrs),
    {
        Cell::with_width(grapheme, display_width(grapheme), attrs)
    }

    /// A cell that shows a whole grapheme cluster of the given width. A lone control
    /// character, an empty text and a carriage return with line feed are stored as a space.
    pub fn with_width(grapheme: &Vec<char>, width: usize, attrs: CellAttributes) -> (cell: Cell)
        ensures
            cell@ == CellView::cluster(grapheme@, width, attrs),
    {
        let mut text: Vec<char> = Vec::new();
        if grapheme.len() == 0 {
            text.push(' ');
            assert(text@ =~= seq![' ']);
        } else if grapheme.len() == 1 {
            let c = grapheme[0];
            let shown = if (c as u32) < 0x20 || c as u32 == 0x7f {
                ' '
            } else {
                c
            };
            text.push(shown);
            assert(text@ =~= seq![shown]);
        } else if grapheme.len() == 2 && grapheme[0] == '\r' && grapheme[1] == '\n' {
            text.push(' ');
            assert(text@ =~= seq![' ']);
        } else {
            text = copy_text(grapheme);
        }
        Cell { text, width, attrs }
    }

    /// A copy of this cell.
    pub fn duplicate(&self) -> (cell: Cell)
        ensures
            cell@ == self@,
    {
        Cell { text: copy_text(&self.text), width: self.width, attrs: self.attrs }
    }

    /// The characters of the cell's grapheme.
    pub fn chars(&self) -> (text: &Vec<char>)
        ensures
            text@ == self@.text,
    {
        &self.text
    }

    /// The cell's grapheme as a string.
    pub fn str(&self) -> (s: String)
        ensures
            s@ == self@.text,
    {
        string_of(&self.text)
    }

    /// The columns the cell occupies.
    pub fn width(&self) -> (w: usize)
        ensures
            w == self@.width(),
            1 <= w <= 2,
    {
        if self.width > 1 {
            2
        } else {
            1
        }
    }

    /// The attributes of the cell.
    pub fn attrs(&self) -> (a: &CellAttributes)
        ensures
            *a == self@.attrs,
    {
        &self.attrs
    }

    /// Replaces the link of the cell.
    pub fn set_link(&mut self, link: Option<LinkId>)
        ensures
            final(self)@ == old(self)@.with_link(link),
    {
        self.attrs.set_hyperlink(link);
    }

    /// Whether the cell shows exactly one space.
    pub fn is_space(&self) -> (b: bool)
        ensures
            b == (self@.text == seq![' ']),
    {
        let b = self.text.len() == 1 && self.text[0] == ' ';
        proof {
            if b {
                assert(self@.text =~= seq![' ']);
            }
        }
        b
    }
}

} // verus!
