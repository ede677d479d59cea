//! The colour palette.

use crate::cell::RgbColor;
use vstd::prelude::*;

verus! {

/// What a palette is: the 256 indexed colours and the dynamic colours.
pub struct PaletteView {
    pub colors: Seq<RgbColor>,
    pub foreground: RgbColor,
    pub background: RgbColor,
    pub cursor_fg: RgbColor,
    pub cursor_bg: RgbColor,
    pub selection_fg: RgbColor,
    pub selection_bg: RgbColor,
}

/// One step of the six-step ramp of the colour cube.
pub open spec fn ramp6(i: int) -> u8 {
    if i == 0 {
        0x00
    } else if i == 1 {
        0x5f
    } else if i == 2 {
        0x87
    } else if i == 3 {
        0xaf
    } else if i == 4 {
        0xd7
    } else {
        0xff
    }
}

/// The sixteen ANSI colours.
pub open spec fn ansi_color(i: int) -> RgbColor {
    if i == 0 {
        RgbColor { red: 0x00, green: 0x00, blue: 0x00 }
    } else if i == 1 {
        RgbColor { red: 0xcc, green: 0x55, blue: 0x55 }
    } else if i == 2 {
        RgbColor { red: 0x55, green: 0xcc, blue: 0x55 }
    } else if i == 3 {
        RgbColor { red: 0xcd, green: 0xcd, blue: 0x55 }
    } else if i == 4 {
        RgbColor { red: 0x54, green: 0x55, blue: 0xcb }
    } else if i == 5 {
        RgbColor { red: 0xcc, green: 0x55, blue: 0xcc }
    } else if i == 6 {
        RgbColor { red: 0x7a, green: 0xca, blue: 0xca }
    } else if i == 7 {
        RgbColor { red: 0xcc, green: 0xcc, blue: 0xcc }
    } else if i == 8 {
        RgbColor { red: 0x55, green: 0x55, blue: 0x55 }
    } else if i == 9 {
        RgbColor { red: 0xff, green: 0x55, blue: 0x55 }
    } else if i == 10 {
        RgbColor { red: 0x55, green: 0xff, blue: 0x55 }
    } else if i == 11 {
        RgbColor { red: 0xff, green: 0xff, blue: 0x55 }
    } else if i == 12 {
        RgbColor { red: 0x55, green: 0x55, blue: 0xff }
    } else if i == 13 {
        RgbColor { red: 0xff, green: 0x55, blue: 0xff }
    } else if i == 14 {
        RgbColor { red: 0x55, green: 0xff, blue: 0xff }
    } else {
        RgbColor { red: 0xff, green: 0xff, blue: 0xff }
    }
}

/// The default colour of each palette index: the ANSI colours, a 6 by 6 by 6 colour cube,
/// and a ramp of 24 greys.
pub open spec fn default_color(i: int) -> RgbColor {
    if i < 16 {
        ansi_color(i)
    } else if i < 232 {
        let c = i - 16;
        RgbColor { red: ramp6(c / 36 % 6), green: ramp6(c / 6 % 6), blue: ramp6(c % 6) }
    } else {
        let v = (8 + 10 * (i - 232)) as u8;
        RgbColor { red: v, green: v, blue: v }
    }
}

impl PaletteView {
    /// The palette has its 256 indexed colours.
    pub open spec fn wf(self) -> bool {
        self.colors.len() == 256
    }

    /// The default palette.
    pub open spec fn standard() -> PaletteView {
        PaletteView {
            colors: Seq::new(256, |i: int| default_color(i)),
            foreground: ansi_color(7),
            background: ansi_color(0),
            cursor_fg: ansi_color(0),
            cursor_bg: RgbColor { red: 0x52, green: 0xad, blue: 0x70 },
            selection_fg: ansi_color(0),
            selection_bg: RgbColor { red: 0xff, green: 0xfa, blue: 0xcd },
        }
    }

    /// The palette with one indexed colour set.
    pub open spec fn with_color(self, index: u8, color: RgbColor) -> PaletteView {
        PaletteView { colors: self.colors.update(index as int, color), ..self }
    }
}

/// The colours of a terminal.
#[derive(Debug)]
pub struct ColorPalette {
    pub colors: Vec<RgbColor>,
    pub foreground: RgbColor,
    pub background: RgbColor,
    pub cursor_fg: RgbColor,
    pub cursor_bg: RgbColor,
    pub selection_fg: RgbColor,
    pub selection_bg: RgbColor,
}

impl View for ColorPalette {
    type V = PaletteView;

    open spec fn view(&self) -> PaletteView {
        PaletteView {
            colors: self.colors@,
            foreground: self.foreground,
            background: self.background,
            cursor_fg: self.cursor_fg,
            cursor_bg: self.cursor_bg,
            selection_fg: self.selection_fg,
            selection_bg: self.selection_bg,
        }
    }
}

fn ramp(i: usize) -> (v: u8)
    ensures
        v == ramp6(i as int),
{
    match i {
        0 => 0x00,
        1 => 0x5f,
        2 => 0x87,
        3 => 0xaf,
        4 => 0xd7,
        _ => 0xff,
    }
}

fn ansi(i: usize) -> (c: RgbColor)
    ensures
        c == ansi_color(i as int),
{
    match i {
        0 => RgbColor { red: 0x00, green: 0x00, blue: 0x00 },
        1 => RgbColor { red: 0xcc, green: 0x55, blue: 0x55 },
        2 => RgbColor { red: 0x55, green: 0xcc, blue: 0x55 },
        3 => RgbColor { red: 0xcd, green: 0xcd, blue: 0x55 },
        4 => RgbColor { red: 0x54, green: 0x55, blue: 0xcb },
        5 => RgbColor { red: 0xcc, green: 0x55, blue: 0xcc },
        6 => RgbColor { red: 0x7a, green: 0xca, blue: 0xca },
        7 => RgbColor { red: 0xcc, green: 0xcc, blue: 0xcc },
        8 => RgbColor { red: 0x55, green: 0x55, blue: 0x55 },
        9 => RgbColor { red: 0xff, green: 0x55, blue: 0x55 },
        10 => RgbColor { red: 0x55, green: 0xff, blue: 0x55 },
        11 => RgbColor { red: 0xff, green: 0xff, blue: 0x55 },
        12 => RgbColor { red: 0x55, green: 0x55, blue: 0xff },
        13 => RgbColor { red: 0xff, green: 0x55, blue: 0xff },
        14 => RgbColor { red: 0x55, green: 0xff, blue: 0xff },
        _ => RgbColor { red: 0xff, green: 0xff, blue: 0xff },
    }
}

fn default_entry(i: usize) -> (c: RgbColor)
    requires
        i < 256,
    ensures
        c == default_color(i as int),
{
    if i < 16 {
        ansi(i)
    } else if i < 232 {
        let c = i - 16;
        RgbColor { red: ramp(c / 36 % 6), green: ramp(c / 6 % 6), blue: ramp(c % 6) }
    } else {
        let v = (8 + 10 * (i - 232)) as u8;
        RgbColor { red: v, green: v, blue: v }
    }
}

impl ColorPalette {
    /// The palette has its 256 indexed colours.
    pub open spec fn wf(&self) -> bool {
        self@.wf()
    }

    /// The default palette.
    pub fn new() -> (p: ColorPalette)
        ensures
            p@ == PaletteView::standard(),
            p.wf(),
    {
        let mut colors: Vec<RgbColor> = Vec::new();
        let mut i: usize = 0;
        while i < 256
            invariant
                i <= 256,
                colors@ == Seq::new(i as nat, |k: int| default_color(k)),
            decreases 256 - i,
        {
            colors.push(default_entry(i));
            assert(colors@ =~= Seq::new((i + 1) as nat, |k: int| default_color(k)));
            i = i + 1;
        }
        ColorPalette {
            colors,
            foreground: ansi(7),
            background: ansi(0),
            cursor_fg: ansi(0),
            cursor_bg: RgbColor { red: 0x52, green: 0xad, blue: 0x70 },
            selection_fg: ansi(0),
            selection_bg: RgbColor { red: 0xff, green: 0xfa, blue: 0xcd },
        }
    }
}

} // verus!
