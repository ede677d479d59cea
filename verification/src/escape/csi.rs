//! Control sequences: numeric parameters, intermediate bytes and a final byte.

use crate::cell::Blink;
use crate::cell::ColorSpec;
use crate::cell::Intensity;
use crate::cell::RgbColor;
use crate::cell::Underline;
use crate::escape::OneBased;
use crate::views::lemma_views_push;
use crate::views::views;
use vstd::prelude::*;

verus! {

/// Which tab stops to clear.
#[derive(Clone, Copy, Debug, PartialEq, Eq, Structural)]
pub enum TabulationClear {
    ClearCharacterTabStopAtActivePosition,
    ClearLineTabStopAtActiveLine,
    ClearCharacterTabStopsAtActiveLine,
    ClearAllCharacterTabStops,
    ClearAllLineTabStops,
    ClearAllTabStops,
}

/// How to change the tab stops.
#[derive(Clone, Copy, Debug, PartialEq, Eq, Structural)]
pub enum CursorTabulationControl {
    SetCharacterTabStopAtActivePosition,
    SetLineTabStopAtActiveLine,
    ClearCharacterTabStopAtActivePosition,
    ClearLineTabstopAtActiveLine,
    ClearAllCharacterTabStopsAtActiveLine,
    ClearAllCharacterTabStops,
    ClearAllLineTabStops,
}

/// The shape of the cursor.
#[derive(Clone, Copy, Debug, PartialEq, Eq, Structural)]
pub enum CursorStyle {
    Default,
    BlinkingBlock,
    SteadyBlock,
    BlinkingUnderline,
    SteadyUnderline,
    BlinkingBar,
    SteadyBar,
}

/// Cursor movement and cursor reports.
#[derive(Clone, Copy, Debug, PartialEq, Eq, Structural)]
pub enum Cursor {
    BackwardTabulation(u32),
    TabulationClear(TabulationClear),
    CharacterAbsolute(OneBased),
    CharacterPositionAbsolute(OneBased),
    CharacterPositionBackward(u32),
    CharacterPositionForward(u32),
    CharacterAndLinePosition { line: OneBased, col: OneBased },
    LinePositionAbsolute(u32),
    LinePositionBackward(u32),
    LinePositionForward(u32),
    ForwardTabulation(u32),
    NextLine(u32),
    PrecedingLine(u32),
    ActivePositionReport { line: OneBased, col: OneBased },
    RequestActivePositionReport,
    SaveCursor,
    RestoreCursor,
    TabulationControl(CursorTabulationControl),
    Left(u32),
    Down(u32),
    Right(u32),
    Position { line: OneBased, col: OneBased },
    Up(u32),
    LineTabulation(u32),
    SetTopAndBottomMargins { top: OneBased, bottom: OneBased },
    CursorStyle(CursorStyle),
}

/// Which part of the cursor's line to erase.
#[derive(Clone, Copy, Debug, PartialEq, Eq, Structural)]
pub enum EraseInLine {
    EraseToEndOfLine,
    EraseToStartOfLine,
    EraseLine,
}

/// Which part of the screen to erase.
#[derive(Clone, Copy, Debug, PartialEq, Eq, Structural)]
pub enum EraseInDisplay {
    EraseToEndOfDisplay,
    EraseToStartOfDisplay,
    EraseDisplay,
    EraseScrollback,
}

/// Editing operations.
#[derive(Clone, Copy, Debug, PartialEq, Eq, Structural)]
pub enum Edit {
    DeleteCharacter(u32),
    DeleteLine(u32),
    EraseCharacter(u32),
    EraseInLine(EraseInLine),
    InsertCharacter(u32),
    InsertLine(u32),
    ScrollDown(u32),
    ScrollUp(u32),
    EraseInDisplay(EraseInDisplay),
    Repeat(u32),
}

/// The DEC private modes with a name.
#[derive(Clone, Copy, Debug, PartialEq, Eq, Structural)]
pub enum DecPrivateModeCode {
    ApplicationCursorKeys,
    StartBlinkingCursor,
    ShowCursor,
    EnableAlternateScreen,
    MouseTracking,
    HighlightMouseTracking,
    ButtonEventMouse,
    AnyEventMouse,
    SGRMouse,
    ClearAndEnableAlternateScreen,
    BracketedPaste,
}

/// A DEC private mode: one with a name, or the number of one without.
#[derive(Clone, Copy, Debug, PartialEq, Eq, Structural)]
pub enum DecPrivateMode {
    Code(DecPrivateModeCode),
    Unspecified(u16),
}

/// The terminal modes with a name.
#[derive(Clone, Copy, Debug, PartialEq, Eq, Structural)]
pub enum TerminalModeCode {
    KeyboardAction,
    Insert,
    SendReceive,
    AutomaticNewline,
}

/// A terminal mode: one with a name, or the number of one without.
#[derive(Clone, Copy, Debug, PartialEq, Eq, Structural)]
pub enum TerminalMode {
    Code(TerminalModeCode),
    Unspecified(u16),
}

/// Setting and resetting modes.
#[derive(Clone, Copy, Debug, PartialEq, Eq, Structural)]
pub enum Mode {
    SetDecPrivateMode(DecPrivateMode),
    ResetDecPrivateMode(DecPrivateMode),
    SaveDecPrivateMode(DecPrivateMode),
    RestoreDecPrivateMode(DecPrivateMode),
    SetMode(TerminalMode),
    ResetMode(TerminalMode),
}

/// The font an SGR sequence selects.
#[derive(Clone, Copy, Debug, PartialEq, Eq, Structural)]
pub enum Font {
    Default,
    Alternate(u8),
}

/// One graphic attribute to set on the pen.
#[derive(Clone, Copy, Debug, PartialEq, Eq, Structural)]
pub enum Sgr {
    Reset,
    Intensity(Intensity),
    Underline(Underline),
    Blink(Blink),
    Italic(bool),
    Inverse(bool),
    Invisible(bool),
    StrikeThrough(bool),
    Font(Font),
    Foreground(ColorSpec),
    Background(ColorSpec),
}

/// Device queries and resets.
#[derive(Clone, Copy, Debug, PartialEq, Eq, Structural)]
pub enum Device {
    SoftReset,
    RequestPrimaryDeviceAttributes,
    RequestSecondaryDeviceAttributes,
    StatusReport,
}

/// Window operations and reports.
#[derive(Clone, Copy, Debug, PartialEq, Eq, Structural)]
pub enum Window {
    DeIconify,
    Iconify,
    MoveWindow { x: i64, y: i64 },
    ResizeWindowPixels { width: Option<i64>, height: Option<i64> },
    RaiseWindow,
    LowerWindow,
    RefreshWindow,
    ResizeWindowCells { width: Option<i64>, height: Option<i64> },
    RestoreMaximizedWindow,
    MaximizeWindow,
    MaximizeWindowVertically,
    MaximizeWindowHorizontally,
    UndoFullScreenMode,
    ChangeToFullScreenMode,
    ToggleFullScreen,
    ReportWindowState,
    ReportWindowPosition,
    ReportTextAreaPosition,
    ReportTextAreaSizePixels,
    ReportWindowSizePixels,
    ReportScreenSizePixels,
    ReportCellSizePixels,
    ReportTextAreaSizeCells,
    ReportScreenSizeCells,
    ReportIconLabel,
    ReportWindowTitle,
    PushIconAndWindowTitle,
    PushIconTitle,
    PushWindowTitle,
    PopIconAndWindowTitle,
    PopIconTitle,
    PopWindowTitle,
    ChecksumRectangularArea {
        request_id: i64,
        page_number: i64,
        top: OneBased,
        left: OneBased,
        bottom: OneBased,
        right: OneBased,
    },
}

/// A mouse report in the SGR form: the button number with its modifier bits, the one-based
/// column and row, and whether the button was released.
#[derive(Clone, Copy, Debug, PartialEq, Eq, Structural)]
pub struct MouseReport {
    pub button: i64,
    pub x: i64,
    pub y: i64,
    pub released: bool,
}

/// What a control sequence that stands for nothing known is made of.
pub struct UnspecifiedView {
    pub params: Seq<i64>,
    pub intermediates: Seq<u8>,
    pub ignored_extra_intermediates: bool,
    pub control: u8,
}

/// A control sequence that stands for nothing known, kept as it came.
#[derive(Debug)]
pub struct Unspecified {
    pub params: Vec<i64>,
    pub intermediates: Vec<u8>,
    pub ignored_extra_intermediates: bool,
    pub control: u8,
}

impl View for Unspecified {
    type V = UnspecifiedView;

    open spec fn view(&self) -> UnspecifiedView {
        UnspecifiedView {
            params: self.params@,
            intermediates: self.intermediates@,
            ignored_extra_intermediates: self.ignored_extra_intermediates,
            control: self.control,
        }
    }
}

/// What a control sequence is.
pub enum CsiView {
    Sgr(Sgr),
    Cursor(Cursor),
    Edit(Edit),
    Mode(Mode),
    Device(Device),
    Mouse(MouseReport),
    Window(Window),
    Unspecified(UnspecifiedView),
}

/// A decoded control sequence.
#[derive(Debug)]
pub enum CSI {
    /// Set a graphic attribute of the pen.
    Sgr(Sgr),
    Cursor(Cursor),
    Edit(Edit),
    Mode(Mode),
    Device(Device),
    Mouse(MouseReport),
    Window(Window),
    /// A sequence that stands for nothing known.
    Unspecified(Unspecified),
}

impl View for CSI {
    type V = CsiView;

    open spec fn view(&self) -> CsiView {
        match *self {
            CSI::Sgr(s) => CsiView::Sgr(s),
            CSI::Cursor(c) => CsiView::Cursor(c),
            CSI::Edit(e) => CsiView::Edit(e),
            CSI::Mode(m) => CsiView::Mode(m),
            CSI::Device(d) => CsiView::Device(d),
            CSI::Mouse(m) => CsiView::Mouse(m),
            CSI::Window(w) => CsiView::Window(w),
            CSI::Unspecified(u) => CsiView::Unspecified(u@),
        }
    }
}

/// A count parameter: zero, which stands for an omitted one, counts as one; a parameter out
/// of range has no count.
pub open spec fn count_of(v: i64) -> Option<u32> {
    if v == 0 {
        Some(1)
    } else if 0 < v <= u32::MAX {
        Some(v as u32)
    } else {
        None
    }
}

/// The one count of a sequence that takes at most one parameter.
pub open spec fn single_count(params: Seq<i64>) -> Option<u32> {
    if params.len() == 0 {
        Some(1)
    } else if params.len() == 1 {
        count_of(params[0])
    } else {
        None
    }
}

/// The one position of a sequence that takes at most one parameter.
pub open spec fn single_position(params: Seq<i64>) -> Option<OneBased> {
    if params.len() == 0 {
        Some(OneBased { value: 1 })
    } else if params.len() == 1 {
        OneBased::of_param(params[0])
    } else {
        None
    }
}

/// The line and column of a sequence that takes at most two parameters.
pub open spec fn line_and_col(params: Seq<i64>) -> Option<(OneBased, OneBased)> {
    if params.len() == 0 {
        Some((OneBased { value: 1 }, OneBased { value: 1 }))
    } else if params.len() == 1 {
        match OneBased::of_param(params[0]) {
            Some(line) => Some((line, OneBased { value: 1 })),
            None => None,
        }
    } else if params.len() == 2 {
        match (OneBased::of_param(params[0]), OneBased::of_param(params[1])) {
            (Some(line), Some(col)) => Some((line, col)),
            _ => None,
        }
    } else {
        None
    }
}

/// The selector of a sequence that takes at most one parameter, zero when omitted.
pub open spec fn single_selector(params: Seq<i64>) -> Option<i64> {
    if params.len() == 0 {
        Some(0)
    } else if params.len() == 1 {
        Some(params[0])
    } else {
        None
    }
}

/// The part of the line that a selector names.
pub open spec fn erase_in_line_of(v: i64) -> Option<EraseInLine> {
    if v == 0 {
        Some(EraseInLine::EraseToEndOfLine)
    } else if v == 1 {
        Some(EraseInLine::EraseToStartOfLine)
    } else if v == 2 {
        Some(EraseInLine::EraseLine)
    } else {
        None
    }
}

/// The part of the screen that a selector names.
pub open spec fn erase_in_display_of(v: i64) -> Option<EraseInDisplay> {
    if v == 0 {
        Some(EraseInDisplay::EraseToEndOfDisplay)
    } else if v == 1 {
        Some(EraseInDisplay::EraseToStartOfDisplay)
    } else if v == 2 {
        Some(EraseInDisplay::EraseDisplay)
    } else if v == 3 {
        Some(EraseInDisplay::EraseScrollback)
    } else {
        None
    }
}

/// The tab stops to clear that a selector names.
pub open spec fn tabulation_clear_of(v: i64) -> Option<TabulationClear> {
    if v == 0 {
        Some(TabulationClear::ClearCharacterTabStopAtActivePosition)
    } else if v == 1 {
        Some(TabulationClear::ClearLineTabStopAtActiveLine)
    } else if v == 2 {
        Some(TabulationClear::ClearCharacterTabStopsAtActiveLine)
    } else if v == 3 {
        Some(TabulationClear::ClearAllCharacterTabStops)
    } else if v == 4 {
        Some(TabulationClear::ClearAllLineTabStops)
    } else if v == 5 {
        Some(TabulationClear::ClearAllTabStops)
    } else {
        None
    }
}

/// The change to the tab stops that a selector names.
pub open spec fn tabulation_control_of(v: i64) -> Option<CursorTabulationControl> {
    if v == 0 {
        Some(CursorTabulationControl::SetCharacterTabStopAtActivePosition)
    } else if v == 1 {
        Some(CursorTabulationControl::SetLineTabStopAtActiveLine)
    } else if v == 2 {
        Some(CursorTabulationControl::ClearCharacterTabStopAtActivePosition)
    } else if v == 3 {
        Some(CursorTabulationControl::ClearLineTabstopAtActiveLine)
    } else if v == 4 {
        Some(CursorTabulationControl::ClearAllCharacterTabStopsAtActiveLine)
    } else if v == 5 {
        Some(CursorTabulationControl::ClearAllCharacterTabStops)
    } else if v == 6 {
        Some(CursorTabulationControl::ClearAllLineTabStops)
    } else {
        None
    }
}

/// The shape of the cursor that a selector names.
pub open spec fn cursor_style_of(v: i64) -> Option<CursorStyle> {
    if v == 0 {
        Some(CursorStyle::Default)
    } else if v == 1 {
        Some(CursorStyle::BlinkingBlock)
    } else if v == 2 {
        Some(CursorStyle::SteadyBlock)
    } else if v == 3 {
        Some(CursorStyle::BlinkingUnderline)
    } else if v == 4 {
        Some(CursorStyle::SteadyUnderline)
    } else if v == 5 {
        Some(CursorStyle::BlinkingBar)
    } else if v == 6 {
        Some(CursorStyle::SteadyBar)
    } else {
        None
    }
}

/// The DEC private mode that a parameter names.
pub open spec fn dec_mode_of(v: i64) -> DecPrivateMode {
    if v == 1 {
        DecPrivateMode::Code(DecPrivateModeCode::ApplicationCursorKeys)
    } else if v == 12 {
        DecPrivateMode::Code(DecPrivateModeCode::StartBlinkingCursor)
    } else if v == 25 {
        DecPrivateMode::Code(DecPrivateModeCode::ShowCursor)
    } else if v == 47 {
        DecPrivateMode::Code(DecPrivateModeCode::EnableAlternateScreen)
    } else if v == 1000 {
        DecPrivateMode::Code(DecPrivateModeCode::MouseTracking)
    } else if v == 1001 {
        DecPrivateMode::Code(DecPrivateModeCode::HighlightMouseTracking)
    } else if v == 1002 {
        DecPrivateMode::Code(DecPrivateModeCode::ButtonEventMouse)
    } else if v == 1003 {
        DecPrivateMode::Code(DecPrivateModeCode::AnyEventMouse)
    } else if v == 1006 {
        DecPrivateMode::Code(DecPrivateModeCode::SGRMouse)
    } else if v == 1049 {
        DecPrivateMode::Code(DecPrivateModeCode::ClearAndEnableAlternateScreen)
    } else if v == 2004 {
        DecPrivateMode::Code(DecPrivateModeCode::BracketedPaste)
    } else {
        DecPrivateMode::Unspecified(raw_mode(v))
    }
}

/// The number kept for a mode without a name: the parameter, or the largest number where
/// the parameter is out of range.
pub open spec fn raw_mode(v: i64) -> u16 {
    if 0 <= v <= u16::MAX {
        v as u16
    } else {
        u16::MAX
    }
}

/// The terminal mode that a parameter names.
pub open spec fn terminal_mode_of(v: i64) -> TerminalMode {
    if v == 2 {
        TerminalMode::Code(TerminalModeCode::KeyboardAction)
    } else if v == 4 {
        TerminalMode::Code(TerminalModeCode::Insert)
    } else if v == 12 {
        TerminalMode::Code(TerminalModeCode::SendReceive)
    } else if v == 20 {
        TerminalMode::Code(TerminalModeCode::AutomaticNewline)
    } else {
        TerminalMode::Unspecified(raw_mode(v))
    }
}

/// Which kind of mode sequence a final byte and its intermediates stand for.
#[derive(Clone, Copy, Debug, PartialEq, Eq, Structural)]
pub enum ModeKind {
    SetAnsi,
    ResetAnsi,
    SetDec,
    ResetDec,
    SaveDec,
    RestoreDec,
}

/// The mode operation of the given kind on the mode that a parameter names.
pub open spec fn mode_of(kind: ModeKind, v: i64) -> Mode {
    match kind {
        ModeKind::SetAnsi => Mode::SetMode(terminal_mode_of(v)),
        ModeKind::ResetAnsi => Mode::ResetMode(terminal_mode_of(v)),
        ModeKind::SetDec => Mode::SetDecPrivateMode(dec_mode_of(v)),
        ModeKind::ResetDec => Mode::ResetDecPrivateMode(dec_mode_of(v)),
        ModeKind::SaveDec => Mode::SaveDecPrivateMode(dec_mode_of(v)),
        ModeKind::RestoreDec => Mode::RestoreDecPrivateMode(dec_mode_of(v)),
    }
}

/// The kind of mode sequence that the intermediates and the final byte stand for.
pub open spec fn mode_kind_of(intermediates: Seq<u8>, control: u8) -> Option<ModeKind> {
    if intermediates.len() == 0 && control == 0x68 {
        Some(ModeKind::SetAnsi)
    } else if intermediates.len() == 0 && control == 0x6c {
        Some(ModeKind::ResetAnsi)
    } else if intermediates.len() == 1 && intermediates[0] == 0x3f {
        if control == 0x68 {
            Some(ModeKind::SetDec)
        } else if control == 0x6c {
            Some(ModeKind::ResetDec)
        } else if control == 0x73 {
            Some(ModeKind::SaveDec)
        } else if control == 0x72 {
            Some(ModeKind::RestoreDec)
        } else {
            None
        }
    } else {
        None
    }
}

/// The colour byte of a parameter, if it is one.
pub open spec fn color_byte(v: i64) -> Option<u8> {
    if 0 <= v <= 255 {
        Some(v as u8)
    } else {
        None
    }
}

/// The colour that the parameters after 38 or 48 name, and how many parameters (38 or 48
/// included) it takes: `5; index` names a palette colour, `2; red; green; blue` a true one.
pub open spec fn extended_color(params: Seq<i64>) -> Option<(ColorSpec, int)> {
    if params.len() >= 3 && params[1] == 5 {
        match color_byte(params[2]) {
            Some(i) => Some((ColorSpec::PaletteIndex(i), 3)),
            None => None,
        }
    } else if params.len() >= 5 && params[1] == 2 {
        match (color_byte(params[2]), color_byte(params[3]), color_byte(params[4])) {
            (Some(red), Some(green), Some(blue)) => Some(
                (ColorSpec::TrueColor(RgbColor { red, green, blue }), 5),
            ),
            _ => None,
        }
    } else {
        None
    }
}

/// The attribute that the first parameters of an SGR sequence set, and how many parameters
/// it takes.
pub open spec fn sgr_first(params: Seq<i64>) -> Option<(Sgr, int)>
    recommends
        params.len() > 0,
{
    let v = params[0];
    if v == 0 {
        Some((Sgr::Reset, 1))
    } else if v == 1 {
        Some((Sgr::Intensity(Intensity::Bold), 1))
    } else if v == 2 {
        Some((Sgr::Intensity(Intensity::Half), 1))
    } else if v == 3 {
        Some((Sgr::Italic(true), 1))
    } else if v == 4 {
        Some((Sgr::Underline(Underline::Single), 1))
    } else if v == 5 {
        Some((Sgr::Blink(Blink::Slow), 1))
    } else if v == 6 {
        Some((Sgr::Blink(Blink::Rapid), 1))
    } else if v == 7 {
        Some((Sgr::Inverse(true), 1))
    } else if v == 8 {
        Some((Sgr::Invisible(true), 1))
    } else if v == 9 {
        Some((Sgr::StrikeThrough(true), 1))
    } else if v == 10 {
        Some((Sgr::Font(Font::Default), 1))
    } else if 11 <= v <= 19 {
        Some((Sgr::Font(Font::Alternate((v - 10) as u8)), 1))
    } else if v == 21 {
        Some((Sgr::Underline(Underline::Double), 1))
    } else if v == 22 {
        Some((Sgr::Intensity(Intensity::Normal), 1))
    } else if v == 23 {
        Some((Sgr::Italic(false), 1))
    } else if v == 24 {
        Some((Sgr::Underline(Underline::Off), 1))
    } else if v == 25 {
        Some((Sgr::Blink(Blink::Off), 1))
    } else if v == 27 {
        Some((Sgr::Inverse(false), 1))
    } else if v == 28 {
        Some((Sgr::Invisible(false), 1))
    } else if v == 29 {
        Some((Sgr::StrikeThrough(false), 1))
    } else if 30 <= v <= 37 {
        Some((Sgr::Foreground(ColorSpec::PaletteIndex((v - 30) as u8)), 1))
    } else if v == 38 {
        match extended_color(params) {
            Some((color, used)) => Some((Sgr::Foreground(color), used)),
            None => None,
        }
    } else if v == 39 {
        Some((Sgr::Foreground(ColorSpec::Default), 1))
    } else if 40 <= v <= 47 {
        Some((Sgr::Background(ColorSpec::PaletteIndex((v - 40) as u8)), 1))
    } else if v == 48 {
        match extended_color(params) {
            Some((color, used)) => Some((Sgr::Background(color), used)),
            None => None,
        }
    } else if v == 49 {
        Some((Sgr::Background(ColorSpec::Default), 1))
    } else if 90 <= v <= 97 {
        Some((Sgr::Foreground(ColorSpec::PaletteIndex((v - 90 + 8) as u8)), 1))
    } else if 100 <= v <= 107 {
        Some((Sgr::Background(ColorSpec::PaletteIndex((v - 100 + 8) as u8)), 1))
    } else {
        None
    }
}

/// The sequence as it came, for one that stands for nothing known.
pub open spec fn unspecified(
    params: Seq<i64>,
    intermediates: Seq<u8>,
    ignored: bool,
    control: u8,
) -> CsiView {
    CsiView::Unspecified(
        UnspecifiedView { params, intermediates, ignored_extra_intermediates: ignored, control },
    )
}

/// The attributes that the parameters of an SGR sequence set, one after the other; where a
/// parameter is not understood, the parameters from there on are kept as they came.
pub open spec fn sgr_list(params: Seq<i64>, ignored: bool) -> Seq<CsiView>
    decreases params.len(),
{
    if params.len() == 0 {
        Seq::empty()
    } else {
        match sgr_first(params) {
            Some((sgr, used)) => if 0 < used <= params.len() {
                seq![CsiView::Sgr(sgr)] + sgr_list(params.skip(used), ignored)
            } else {
                Seq::empty()
            },
            None => seq![unspecified(params, Seq::empty(), ignored, 0x6d)],
        }
    }
}

/// The modes that the parameters of a mode sequence name, one after the other.
pub open spec fn mode_list(kind: ModeKind, params: Seq<i64>) -> Seq<CsiView>
    decreases params.len(),
{
    if params.len() == 0 {
        Seq::empty()
    } else {
        seq![CsiView::Mode(mode_of(kind, params[0]))] + mode_list(kind, params.skip(1))
    }
}

/// An optional parameter.
pub open spec fn param_at(params: Seq<i64>, i: int) -> Option<i64> {
    if 0 <= i < params.len() {
        Some(params[i])
    } else {
        None
    }
}

/// The window operation that the parameters of a `t` sequence name.
pub open spec fn window_of(params: Seq<i64>) -> Option<Window> {
    if params.len() == 0 {
        None
    } else {
        let op = params[0];
        let arg1 = param_at(params, 1);
        let arg2 = param_at(params, 2);
        if op == 1 {
            Some(Window::DeIconify)
        } else if op == 2 {
            Some(Window::Iconify)
        } else if op == 3 {
            Some(
                Window::MoveWindow {
                    x: if arg1 is Some { arg1.unwrap() } else { 0 },
                    y: if arg2 is Some { arg2.unwrap() } else { 0 },
                },
            )
        } else if op == 4 {
            Some(Window::ResizeWindowPixels { height: arg1, width: arg2 })
        } else if op == 5 {
            Some(Window::RaiseWindow)
        } else if op == 6 {
            Some(Window::LowerWindow)
        } else if op == 7 {
            Some(Window::RefreshWindow)
        } else if op == 8 {
            Some(Window::ResizeWindowCells { height: arg1, width: arg2 })
        } else if op == 9 {
            if arg1 == Some(0i64) {
                Some(Window::RestoreMaximizedWindow)
            } else if arg1 == Some(1i64) {
                Some(Window::MaximizeWindow)
            } else if arg1 == Some(2i64) {
                Some(Window::MaximizeWindowVertically)
            } else if arg1 == Some(3i64) {
                Some(Window::MaximizeWindowHorizontally)
            } else {
                None
            }
        } else if op == 10 {
            if arg1 == Some(0i64) {
                Some(Window::UndoFullScreenMode)
            } else if arg1 == Some(1i64) {
                Some(Window::ChangeToFullScreenMode)
            } else if arg1 == Some(2i64) {
                Some(Window::ToggleFullScreen)
            } else {
                None
            }
        } else if op == 11 {
            Some(Window::ReportWindowState)
        } else if op == 13 {
            if arg1 is None {
                Some(Window::ReportWindowPosition)
            } else if arg1 == Some(2i64) {
                Some(Window::ReportTextAreaPosition)
            } else {
                None
            }
        } else if op == 14 {
            if arg1 is None {
                Some(Window::ReportTextAreaSizePixels)
            } else if arg1 == Some(2i64) {
                Some(Window::ReportWindowSizePixels)
            } else {
                None
            }
        } else if op == 15 {
            Some(Window::ReportScreenSizePixels)
        } else if op == 16 {
            Some(Window::ReportCellSizePixels)
        } else if op == 18 {
            Some(Window::ReportTextAreaSizeCells)
        } else if op == 19 {
            Some(Window::ReportScreenSizeCells)
        } else if op == 20 {
            Some(Window::ReportIconLabel)
        } else if op == 21 {
            Some(Window::ReportWindowTitle)
        } else if op == 22 {
            if arg1 == Some(0i64) {
                Some(Window::PushIconAndWindowTitle)
            } else if arg1 == Some(1i64) {
                Some(Window::PushIconTitle)
            } else if arg1 == Some(2i64) {
                Some(Window::PushWindowTitle)
            } else {
                None
            }
        } else if op == 23 {
            if arg1 == Some(0i64) {
                Some(Window::PopIconAndWindowTitle)
            } else if arg1 == Some(1i64) {
                Some(Window::PopIconTitle)
            } else if arg1 == Some(2i64) {
                Some(Window::PopWindowTitle)
            } else {
                None
            }
        } else {
            None
        }
    }
}

/// The rectangle checksum request that six parameters name.
pub open spec fn checksum_of(params: Seq<i64>) -> Option<Window> {
    if params.len() == 6 {
        match (
            OneBased::of_param(params[2]),
            OneBased::of_param(params[3]),
            OneBased::of_param(params[4]),
            OneBased::of_param(params[5]),
        ) {
            (Some(top), Some(left), Some(bottom), Some(right)) => Some(
                Window::ChecksumRectangularArea {
                    request_id: params[0],
                    page_number: params[1],
                    top,
                    left,
                    bottom,
                    right,
                },
            ),
            _ => None,
        }
    } else {
        None
    }
}

/// The scroll margins that the parameters name: the top defaults to the first row, the
/// bottom to the last.
pub open spec fn margins_of(params: Seq<i64>) -> Option<Cursor> {
    let last = OneBased { value: u32::MAX };
    if params.len() == 0 {
        Some(Cursor::SetTopAndBottomMargins { top: OneBased { value: 1 }, bottom: last })
    } else if params.len() == 1 {
        match OneBased::of_param(params[0]) {
            Some(top) => Some(Cursor::SetTopAndBottomMargins { top, bottom: last }),
            None => None,
        }
    } else if params.len() == 2 {
        match (OneBased::of_param(params[0]), OneBased::of_param(params[1])) {
            (Some(top), Some(bottom)) => Some(
                Cursor::SetTopAndBottomMargins {
                    top,
                    bottom: if params[1] == 0 {
                        last
                    } else {
                        bottom
                    },
                },
            ),
            _ => None,
        }
    } else {
        None
    }
}

/// The mouse report that three parameters name.
pub open spec fn mouse_of(params: Seq<i64>, control: u8) -> Option<MouseReport> {
    if params.len() == 3 {
        Some(MouseReport { button: params[0], x: params[1], y: params[2], released: control == 0x6d })
    } else {
        None
    }
}

/// The cursor operation that a final byte without intermediates stands for.
pub open spec fn cursor_of(params: Seq<i64>, control: u8) -> Option<Cursor> {
    if control == 0x60 {
        match single_position(params) {
            Some(p) => Some(Cursor::CharacterPositionAbsolute(p)),
            None => None,
        }
    } else if control == 0x47 {
        match single_position(params) {
            Some(p) => Some(Cursor::CharacterAbsolute(p)),
            None => None,
        }
    } else if control == 0x48 {
        match line_and_col(params) {
            Some((line, col)) => Some(Cursor::Position { line, col }),
            None => None,
        }
    } else if control == 0x66 {
        match line_and_col(params) {
            Some((line, col)) => Some(Cursor::CharacterAndLinePosition { line, col }),
            None => None,
        }
    } else if control == 0x52 {
        match line_and_col(params) {
            Some((line, col)) => Some(Cursor::ActivePositionReport { line, col }),
            None => None,
        }
    } else if control == 0x67 {
        match single_selector(params) {
            Some(v) => match tabulation_clear_of(v) {
                Some(t) => Some(Cursor::TabulationClear(t)),
                None => None,
            },
            None => None,
        }
    } else if control == 0x57 {
        match single_selector(params) {
            Some(v) => match tabulation_control_of(v) {
                Some(t) => Some(Cursor::TabulationControl(t)),
                None => None,
            },
            None => None,
        }
    } else if control == 0x72 {
        margins_of(params)
    } else if control == 0x73 {
        if params.len() == 0 {
            Some(Cursor::SaveCursor)
        } else {
            None
        }
    } else if control == 0x75 {
        if params.len() == 0 {
            Some(Cursor::RestoreCursor)
        } else {
            None
        }
    } else {
        match single_count(params) {
            Some(n) => if control == 0x41 {
                Some(Cursor::Up(n))
            } else if control == 0x42 {
                Some(Cursor::Down(n))
            } else if control == 0x43 {
                Some(Cursor::Right(n))
            } else if control == 0x44 {
                Some(Cursor::Left(n))
            } else if control == 0x45 {
                Some(Cursor::NextLine(n))
            } else if control == 0x46 {
                Some(Cursor::PrecedingLine(n))
            } else if control == 0x49 {
                Some(Cursor::ForwardTabulation(n))
            } else if control == 0x59 {
                Some(Cursor::LineTabulation(n))
            } else if control == 0x5a {
                Some(Cursor::BackwardTabulation(n))
            } else if control == 0x61 {
                Some(Cursor::CharacterPositionForward(n))
            } else if control == 0x64 {
                Some(Cursor::LinePositionAbsolute(n))
            } else if control == 0x65 {
                Some(Cursor::LinePositionForward(n))
            } else if control == 0x6a {
                Some(Cursor::CharacterPositionBackward(n))
            } else if control == 0x6b {
                Some(Cursor::LinePositionBackward(n))
            } else {
                None
            },
            None => None,
        }
    }
}

/// The editing operation that a final byte without intermediates stands for.
pub open spec fn edit_of(params: Seq<i64>, control: u8) -> Option<Edit> {
    if control == 0x4a {
        match single_selector(params) {
            Some(v) => match erase_in_display_of(v) {
                Some(e) => Some(Edit::EraseInDisplay(e)),
                None => None,
            },
            None => None,
        }
    } else if control == 0x4b {
        match single_selector(params) {
            Some(v) => match erase_in_line_of(v) {
                Some(e) => Some(Edit::EraseInLine(e)),
                None => None,
            },
            None => None,
        }
    } else {
        match single_count(params) {
            Some(n) => if control == 0x40 {
                Some(Edit::InsertCharacter(n))
            } else if control == 0x4c {
                Some(Edit::InsertLine(n))
            } else if control == 0x4d {
                Some(Edit::DeleteLine(n))
            } else if control == 0x50 {
                Some(Edit::DeleteCharacter(n))
            } else if control == 0x53 {
                Some(Edit::ScrollUp(n))
            } else if control == 0x54 {
                Some(Edit::ScrollDown(n))
            } else if control == 0x58 {
                Some(Edit::EraseCharacter(n))
            } else if control == 0x62 {
                Some(Edit::Repeat(n))
            } else {
                None
            },
            None => None,
        }
    }
}

/// The one operation that a sequence other than SGR and the mode sequences stands for.
pub open spec fn single_of(params: Seq<i64>, intermediates: Seq<u8>, control: u8) -> Option<CsiView> {
    if intermediates.len() == 0 {
        if control == 0x6e {
            if params.len() == 1 && params[0] == 5 {
                Some(CsiView::Device(Device::StatusReport))
            } else if params.len() == 1 && params[0] == 6 {
                Some(CsiView::Cursor(Cursor::RequestActivePositionReport))
            } else {
                None
            }
        } else if control == 0x63 {
            if params.len() == 0 || (params.len() == 1 && params[0] == 0) {
                Some(CsiView::Device(Device::RequestPrimaryDeviceAttributes))
            } else {
                None
            }
        } else if control == 0x74 {
            match window_of(params) {
                Some(w) => Some(CsiView::Window(w)),
                None => None,
            }
        } else {
            match cursor_of(params, control) {
                Some(c) => Some(CsiView::Cursor(c)),
                None => match edit_of(params, control) {
                    Some(e) => Some(CsiView::Edit(e)),
                    None => None,
                },
            }
        }
    } else if intermediates.len() == 1 {
        let i = intermediates[0];
        if i == 0x20 && control == 0x71 {
            match single_selector(params) {
                Some(v) => match cursor_style_of(v) {
                    Some(s) => Some(CsiView::Cursor(Cursor::CursorStyle(s))),
                    None => None,
                },
                None => None,
            }
        } else if i == 0x2a && control == 0x79 {
            match checksum_of(params) {
                Some(w) => Some(CsiView::Window(w)),
                None => None,
            }
        } else if i == 0x21 && control == 0x70 {
            Some(CsiView::Device(Device::SoftReset))
        } else if i == 0x3e && control == 0x63 {
            Some(CsiView::Device(Device::RequestSecondaryDeviceAttributes))
        } else if i == 0x3c && (control == 0x4d || control == 0x6d) {
            match mouse_of(params, control) {
                Some(m) => Some(CsiView::Mouse(m)),
                None => None,
            }
        } else {
            None
        }
    } else {
        None
    }
}

/// The operations that a control sequence stands for. An SGR sequence gives one operation
/// for each attribute it sets, a mode sequence one for each mode it names, any other
/// sequence one operation; what is not understood is kept as it came.
pub open spec fn csi_decoded(
    params: Seq<i64>,
    intermediates: Seq<u8>,
    ignored: bool,
    control: u8,
) -> Seq<CsiView> {
    if intermediates.len() == 0 && control == 0x6d {
        if params.len() == 0 {
            seq![CsiView::Sgr(Sgr::Reset)]
        } else {
            sgr_list(params, ignored)
        }
    } else {
        match mode_kind_of(intermediates, control) {
            Some(kind) => if params.len() == 0 {
                seq![unspecified(params, intermediates, ignored, control)]
            } else {
                mode_list(kind, params)
            },
            None => match single_of(params, intermediates, control) {
                Some(op) => seq![op],
                None => seq![unspecified(params, intermediates, ignored, control)],
            },
        }
    }
}

fn count_from(v: i64) -> (n: Option<u32>)
    ensures
        n == count_of(v),
{
    if v == 0 {
        Some(1)
    } else if 0 < v && v <= u32::MAX as i64 {
        Some(v as u32)
    } else {
        None
    }
}

fn parse_count(params: &[i64]) -> (n: Option<u32>)
    ensures
        n == single_count(params@),
{
    if params.len() == 0 {
        Some(1)
    } else if params.len() == 1 {
        count_from(params[0])
    } else {
        None
    }
}

fn parse_position(params: &[i64]) -> (p: Option<OneBased>)
    ensures
        p == single_position(params@),
{
    if params.len() == 0 {
        Some(OneBased::new(1))
    } else if params.len() == 1 {
        OneBased::from_esc_param(params[0])
    } else {
        None
    }
}

fn parse_line_and_col(params: &[i64]) -> (p: Option<(OneBased, OneBased)>)
    ensures
        p == line_and_col(params@),
{
    if params.len() == 0 {
        Some((OneBased::new(1), OneBased::new(1)))
    } else if params.len() == 1 {
        match OneBased::from_esc_param(params[0]) {
            Some(line) => Some((line, OneBased::new(1))),
            None => None,
        }
    } else if params.len() == 2 {
        match (OneBased::from_esc_param(params[0]), OneBased::from_esc_param(params[1])) {
            (Some(line), Some(col)) => Some((line, col)),
            _ => None,
        }
    } else {
        None
    }
}

fn parse_selector(params: &[i64]) -> (v: Option<i64>)
    ensures
        v == single_selector(params@),
{
    if params.len() == 0 {
        Some(0)
    } else if params.len() == 1 {
        Some(params[0])
    } else {
        None
    }
}

fn erase_in_line_from(v: i64) -> (e: Option<EraseInLine>)
    ensures
        e == erase_in_line_of(v),
{
    match v {
        0 => Some(EraseInLine::EraseToEndOfLine),
        1 => Some(EraseInLine::EraseToStartOfLine),
        2 => Some(EraseInLine::EraseLine),
        _ => None,
    }
}

fn erase_in_display_from(v: i64) -> (e: Option<EraseInDisplay>)
    ensures
        e == erase_in_display_of(v),
{
    match v {
        0 => Some(EraseInDisplay::EraseToEndOfDisplay),
        1 => Some(EraseInDisplay::EraseToStartOfDisplay),
        2 => Some(EraseInDisplay::EraseDisplay),
        3 => Some(EraseInDisplay::EraseScrollback),
        _ => None,
    }
}

fn tabulation_clear_from(v: i64) -> (t: Option<TabulationClear>)
    ensures
        t == tabulation_clear_of(v),
{
    match v {
        0 => Some(TabulationClear::ClearCharacterTabStopAtActivePosition),
        1 => Some(TabulationClear::ClearLineTabStopAtActiveLine),
        2 => Some(TabulationClear::ClearCharacterTabStopsAtActiveLine),
        3 => Some(TabulationClear::ClearAllCharacterTabStops),
        4 => Some(TabulationClear::ClearAllLineTabStops),
        5 => Some(TabulationClear::ClearAllTabStops),
        _ => None,
    }
}

fn tabulation_control_from(v: i64) -> (t: Option<CursorTabulationControl>)
    ensures
        t == tabulation_control_of(v),
{
    match v {
        0 => Some(CursorTabulationControl::SetCharacterTabStopAtActivePosition),
        1 => Some(CursorTabulationControl::SetLineTabStopAtActiveLine),
        2 => Some(CursorTabulationControl::ClearCharacterTabStopAtActivePosition),
        3 => Some(CursorTabulationControl::ClearLineTabstopAtActiveLine),
        4 => Some(CursorTabulationControl::ClearAllCharacterTabStopsAtActiveLine),
        5 => Some(CursorTabulationControl::ClearAllCharacterTabStops),
        6 => Some(CursorTabulationControl::ClearAllLineTabStops),
        _ => None,
    }
}

fn cursor_style_from(v: i64) -> (t: Option<CursorStyle>)
    ensures
        t == cursor_style_of(v),
{
    match v {
        0 => Some(CursorStyle::Default),
        1 => Some(CursorStyle::BlinkingBlock),
        2 => Some(CursorStyle::SteadyBlock),
        3 => Some(CursorStyle::BlinkingUnderline),
        4 => Some(CursorStyle::SteadyUnderline),
        5 => Some(CursorStyle::BlinkingBar),
        6 => Some(CursorStyle::SteadyBar),
        _ => None,
    }
}

fn raw_mode_from(v: i64) -> (m: u16)
    ensures
        m == raw_mode(v),
{
    if 0 <= v && v <= u16::MAX as i64 {
        v as u16
    } else {
        u16::MAX
    }
}

fn dec_mode_from(v: i64) -> (m: DecPrivateMode)
    ensures
        m == dec_mode_of(v),
{
    match v {
        1 => DecPrivateMode::Code(DecPrivateModeCode::ApplicationCursorKeys),
        12 => DecPrivateMode::Code(DecPrivateModeCode::StartBlinkingCursor),
        25 => DecPrivateMode::Code(DecPrivateModeCode::ShowCursor),
        47 => DecPrivateMode::Code(DecPrivateModeCode::EnableAlternateScreen),
        1000 => DecPrivateMode::Code(DecPrivateModeCode::MouseTracking),
        1001 => DecPrivateMode::Code(DecPrivateModeCode::HighlightMouseTracking),
        1002 => DecPrivateMode::Code(DecPrivateModeCode::ButtonEventMouse),
        1003 => DecPrivateMode::Code(DecPrivateModeCode::AnyEventMouse),
        1006 => DecPrivateMode::Code(DecPrivateModeCode::SGRMouse),
        1049 => DecPrivateMode::Code(DecPrivateModeCode::ClearAndEnableAlternateScreen),
        2004 => DecPrivateMode::Code(DecPrivateModeCode::BracketedPaste),
        _ => DecPrivateMode::Unspecified(raw_mode_from(v)),
    }
}

fn terminal_mode_from(v: i64) -> (m: TerminalMode)
    ensures
        m == terminal_mode_of(v),
{
    match v {
        2 => TerminalMode::Code(TerminalModeCode::KeyboardAction),
        4 => TerminalMode::Code(TerminalModeCode::Insert),
        12 => TerminalMode::Code(TerminalModeCode::SendReceive),
        20 => TerminalMode::Code(TerminalModeCode::AutomaticNewline),
        _ => TerminalMode::Unspecified(raw_mode_from(v)),
    }
}

fn mode_from(kind: ModeKind, v: i64) -> (m: Mode)
    ensures
        m == mode_of(kind, v),
{
    match kind {
        ModeKind::SetAnsi => Mode::SetMode(terminal_mode_from(v)),
        ModeKind::ResetAnsi => Mode::ResetMode(terminal_mode_from(v)),
        ModeKind::SetDec => Mode::SetDecPrivateMode(dec_mode_from(v)),
        ModeKind::ResetDec => Mode::ResetDecPrivateMode(dec_mode_from(v)),
        ModeKind::SaveDec => Mode::SaveDecPrivateMode(dec_mode_from(v)),
        ModeKind::RestoreDec => Mode::RestoreDecPrivateMode(dec_mode_from(v)),
    }
}

fn mode_kind_from(intermediates: &[u8], control: u8) -> (k: Option<ModeKind>)
    ensures
        k == mode_kind_of(intermediates@, control),
{
    if intermediates.len() == 0 && control == 0x68 {
        Some(ModeKind::SetAnsi)
    } else if intermediates.len() == 0 && control == 0x6c {
        Some(ModeKind::ResetAnsi)
    } else if intermediates.len() == 1 && intermediates[0] == 0x3f {
        match control {
            0x68 => Some(ModeKind::SetDec),
            0x6c => Some(ModeKind::ResetDec),
            0x73 => Some(ModeKind::SaveDec),
            0x72 => Some(ModeKind::RestoreDec),
            _ => None,
        }
    } else {
        None
    }
}

fn color_byte_from(v: i64) -> (b: Option<u8>)
    ensures
        b == color_byte(v),
{
    if 0 <= v && v <= 255 {
        Some(v as u8)
    } else {
        None
    }
}

fn parse_extended_color(params: &[i64], pos: usize) -> (r: Option<(ColorSpec, usize)>)
    requires
        pos < params@.len(),
    ensures
        r is Some == extended_color(params@.skip(pos as int)) is Some,
        r matches Some((color, used)) ==> extended_color(params@.skip(pos as int)) == Some(
            (color, used as int),
        ),
{
    let len = params.len() - pos;
    if len >= 3 && params[pos + 1] == 5 {
        match color_byte_from(params[pos + 2]) {
            Some(i) => Some((ColorSpec::PaletteIndex(i), 3)),
            None => None,
        }
    } else if len >= 5 && params[pos + 1] == 2 {
        match (
            color_byte_from(params[pos + 2]),
            color_byte_from(params[pos + 3]),
            color_byte_from(params[pos + 4]),
        ) {
            (Some(red), Some(green), Some(blue)) => Some(
                (ColorSpec::TrueColor(RgbColor { red, green, blue }), 5),
            ),
            _ => None,
        }
    } else {
        None
    }
}

fn parse_sgr_first(params: &[i64], pos: usize) -> (r: Option<(Sgr, usize)>)
    requires
        pos < params@.len(),
    ensures
        r is Some == sgr_first(params@.skip(pos as int)) is Some,
        r matches Some((sgr, used)) ==> sgr_first(params@.skip(pos as int)) == Some(
            (sgr, used as int),
        ) && 0 < used && pos + used <= params@.len(),
{
    let v = params[pos];
    match v {
        0 => Some((Sgr::Reset, 1)),
        1 => Some((Sgr::Intensity(Intensity::Bold), 1)),
        2 => Some((Sgr::Intensity(Intensity::Half), 1)),
        3 => Some((Sgr::Italic(true), 1)),
        4 => Some((Sgr::Underline(Underline::Single), 1)),
        5 => Some((Sgr::Blink(Blink::Slow), 1)),
        6 => Some((Sgr::Blink(Blink::Rapid), 1)),
        7 => Some((Sgr::Inverse(true), 1)),
        8 => Some((Sgr::Invisible(true), 1)),
        9 => Some((Sgr::StrikeThrough(true), 1)),
        10 => Some((Sgr::Font(Font::Default), 1)),
        21 => Some((Sgr::Underline(Underline::Double), 1)),
        22 => Some((Sgr::Intensity(Intensity::Normal), 1)),
        23 => Some((Sgr::Italic(false), 1)),
        24 => Some((Sgr::Underline(Underline::Off), 1)),
        25 => Some((Sgr::Blink(Blink::Off), 1)),
        27 => Some((Sgr::Inverse(false), 1)),
        28 => Some((Sgr::Invisible(false), 1)),
        29 => Some((Sgr::StrikeThrough(false), 1)),
        38 => match parse_extended_color(params, pos) {
            Some((color, used)) => Some((Sgr::Foreground(color), used)),
            None => None,
        },
        39 => Some((Sgr::Foreground(ColorSpec::Default), 1)),
        48 => match parse_extended_color(params, pos) {
            Some((color, used)) => Some((Sgr::Background(color), used)),
            None => None,
        },
        49 => Some((Sgr::Background(ColorSpec::Default), 1)),
        _ => if 11 <= v && v <= 19 {
            Some((Sgr::Font(Font::Alternate((v - 10) as u8)), 1))
        } else if 30 <= v && v <= 37 {
            Some((Sgr::Foreground(ColorSpec::PaletteIndex((v - 30) as u8)), 1))
        } else if 40 <= v && v <= 47 {
            Some((Sgr::Background(ColorSpec::PaletteIndex((v - 40) as u8)), 1))
        } else if 90 <= v && v <= 97 {
            Some((Sgr::Foreground(ColorSpec::PaletteIndex((v - 90 + 8) as u8)), 1))
        } else if 100 <= v && v <= 107 {
            Some((Sgr::Background(ColorSpec::PaletteIndex((v - 100 + 8) as u8)), 1))
        } else {
            None
        },
    }
}

fn arg_at(params: &[i64], i: usize) -> (a: Option<i64>)
    ensures
        a == param_at(params@, i as int),
{
    if i < params.len() {
        Some(params[i])
    } else {
        None
    }
}

fn pick3(arg: Option<i64>, a: Window, b: Window, c: Window) -> (w: Option<Window>)
    ensures
        w == if arg == Some(0i64) {
            Some(a)
        } else if arg == Some(1i64) {
            Some(b)
        } else if arg == Some(2i64) {
            Some(c)
        } else {
            None
        },
{
    match arg {
        Some(0) => Some(a),
        Some(1) => Some(b),
        Some(2) => Some(c),
        _ => None,
    }
}

fn parse_window(params: &[i64]) -> (w: Option<Window>)
    ensures
        w == window_of(params@),
{
    if params.len() == 0 {
        return None;
    }
    let arg1 = arg_at(params, 1);
    let arg2 = arg_at(params, 2);
    match params[0] {
        1 => Some(Window::DeIconify),
        2 => Some(Window::Iconify),
        3 => Some(
            Window::MoveWindow {
                x: match arg1 {
                    Some(v) => v,
                    None => 0,
                },
                y: match arg2 {
                    Some(v) => v,
                    None => 0,
                },
            },
        ),
        4 => Some(Window::ResizeWindowPixels { height: arg1, width: arg2 }),
        5 => Some(Window::RaiseWindow),
        6 => Some(Window::LowerWindow),
        7 => Some(Window::RefreshWindow),
        8 => Some(Window::ResizeWindowCells { height: arg1, width: arg2 }),
        9 => match arg1 {
            Some(0) => Some(Window::RestoreMaximizedWindow),
            Some(1) => Some(Window::MaximizeWindow),
            Some(2) => Some(Window::MaximizeWindowVertically),
            Some(3) => Some(Window::MaximizeWindowHorizontally),
            _ => None,
        },
        10 => pick3(
            arg1,
            Window::UndoFullScreenMode,
            Window::ChangeToFullScreenMode,
            Window::ToggleFullScreen,
        ),
        11 => Some(Window::ReportWindowState),
        13 => match arg1 {
            None => Some(Window::ReportWindowPosition),
            Some(2) => Some(Window::ReportTextAreaPosition),
            _ => None,
        },
        14 => match arg1 {
            None => Some(Window::ReportTextAreaSizePixels),
            Some(2) => Some(Window::ReportWindowSizePixels),
            _ => None,
        },
        15 => Some(Window::ReportScreenSizePixels),
        16 => Some(Window::ReportCellSizePixels),
        18 => Some(Window::ReportTextAreaSizeCells),
        19 => Some(Window::ReportScreenSizeCells),
        20 => Some(Window::ReportIconLabel),
        21 => Some(Window::ReportWindowTitle),
        22 => pick3(
            arg1,
            Window::PushIconAndWindowTitle,
            Window::PushIconTitle,
            Window::PushWindowTitle,
        ),
        23 => pick3(
            arg1,
            Window::PopIconAndWindowTitle,
            Window::PopIconTitle,
            Window::PopWindowTitle,
        ),
        _ => None,
    }
}

fn parse_checksum(params: &[i64]) -> (w: Option<Window>)
    ensures
        w == checksum_of(params@),
{
    if params.len() == 6 {
        match (
            OneBased::from_esc_param(params[2]),
            OneBased::from_esc_param(params[3]),
            OneBased::from_esc_param(params[4]),
            OneBased::from_esc_param(params[5]),
        ) {
            (Some(top), Some(left), Some(bottom), Some(right)) => Some(
                Window::ChecksumRectangularArea {
                    request_id: params[0],
                    page_number: params[1],
                    top,
                    left,
                    bottom,
                    right,
                },
            ),
            _ => None,
        }
    } else {
        None
    }
}

fn parse_margins(params: &[i64]) -> (c: Option<Cursor>)
    ensures
        c == margins_of(params@),
{
    let last = OneBased::new(u32::MAX);
    if params.len() == 0 {
        Some(Cursor::SetTopAndBottomMargins { top: OneBased::new(1), bottom: last })
    } else if params.len() == 1 {
        match OneBased::from_esc_param(params[0]) {
            Some(top) => Some(Cursor::SetTopAndBottomMargins { top, bottom: last }),
            None => None,
        }
    } else if params.len() == 2 {
        match (OneBased::from_esc_param(params[0]), OneBased::from_esc_param(params[1])) {
            (Some(top), Some(bottom)) => Some(
                Cursor::SetTopAndBottomMargins {
                    top,
                    bottom: if params[1] == 0 {
                        last
                    } else {
                        bottom
                    },
                },
            ),
            _ => None,
        }
    } else {
        None
    }
}

fn parse_cursor(params: &[i64], control: u8) -> (c: Option<Cursor>)
    ensures
        c == cursor_of(params@, control),
{
    match control {
        0x60 => match parse_position(params) {
            Some(p) => Some(Cursor::CharacterPositionAbsolute(p)),
            None => None,
        },
        0x47 => match parse_position(params) {
            Some(p) => Some(Cursor::CharacterAbsolute(p)),
            None => None,
        },
        0x48 => match parse_line_and_col(params) {
            Some((line, col)) => Some(Cursor::Position { line, col }),
            None => None,
        },
        0x66 => match parse_line_and_col(params) {
            Some((line, col)) => Some(Cursor::CharacterAndLinePosition { line, col }),
            None => None,
        },
        0x52 => match parse_line_and_col(params) {
            Some((line, col)) => Some(Cursor::ActivePositionReport { line, col }),
            None => None,
        },
        0x67 => match parse_selector(params) {
            Some(v) => match tabulation_clear_from(v) {
                Some(t) => Some(Cursor::TabulationClear(t)),
                None => None,
            },
            None => None,
        },
        0x57 => match parse_selector(params) {
            Some(v) => match tabulation_control_from(v) {
                Some(t) => Some(Cursor::TabulationControl(t)),
                None => None,
            },
            None => None,
        },
        0x72 => parse_margins(params),
        0x73 => if params.len() == 0 {
            Some(Cursor::SaveCursor)
        } else {
            None
        },
        0x75 => if params.len() == 0 {
            Some(Cursor::RestoreCursor)
        } else {
            None
        },
        _ => match parse_count(params) {
            Some(n) => match control {
                0x41 => Some(Cursor::Up(n)),
                0x42 => Some(Cursor::Down(n)),
                0x43 => Some(Cursor::Right(n)),
                0x44 => Some(Cursor::Left(n)),
                0x45 => Some(Cursor::NextLine(n)),
                0x46 => Some(Cursor::PrecedingLine(n)),
                0x49 => Some(Cursor::ForwardTabulation(n)),
                0x59 => Some(Cursor::LineTabulation(n)),
                0x5a => Some(Cursor::BackwardTabulation(n)),
                0x61 => Some(Cursor::CharacterPositionForward(n)),
                0x64 => Some(Cursor::LinePositionAbsolute(n)),
                0x65 => Some(Cursor::LinePositionForward(n)),
                0x6a => Some(Cursor::CharacterPositionBackward(n)),
                0x6b => Some(Cursor::LinePositionBackward(n)),
                _ => None,
            },
            None => None,
        },
    }
}

fn parse_edit(params: &[i64], control: u8) -> (e: Option<Edit>)
    ensures
        e == edit_of(params@, control),
{
    match control {
        0x4a => match parse_selector(params) {
            Some(v) => match erase_in_display_from(v) {
                Some(e) => Some(Edit::EraseInDisplay(e)),
                None => None,
            },
            None => None,
        },
        0x4b => match parse_selector(params) {
            Some(v) => match erase_in_line_from(v) {
                Some(e) => Some(Edit::EraseInLine(e)),
                None => None,
            },
            None => None,
        },
        _ => match parse_count(params) {
            Some(n) => match control {
                0x40 => Some(Edit::InsertCharacter(n)),
                0x4c => Some(Edit::InsertLine(n)),
                0x4d => Some(Edit::DeleteLine(n)),
                0x50 => Some(Edit::DeleteCharacter(n)),
                0x53 => Some(Edit::ScrollUp(n)),
                0x54 => Some(Edit::ScrollDown(n)),
                0x58 => Some(Edit::EraseCharacter(n)),
                0x62 => Some(Edit::Repeat(n)),
                _ => None,
            },
            None => None,
        },
    }
}

fn parse_single(params: &[i64], intermediates: &[u8], control: u8) -> (r: Option<CSI>)
    ensures
        r is Some == single_of(params@, intermediates@, control) is Some,
        r matches Some(c) ==> c@ == single_of(params@, intermediates@, control).unwrap(),
{
    if intermediates.len() == 0 {
        if control == 0x6e {
            if params.len() == 1 && params[0] == 5 {
                Some(CSI::Device(Device::StatusReport))
            } else if params.len() == 1 && params[0] == 6 {
                Some(CSI::Cursor(Cursor::RequestActivePositionReport))
            } else {
                None
            }
        } else if control == 0x63 {
            if params.len() == 0 || (params.len() == 1 && params[0] == 0) {
                Some(CSI::Device(Device::RequestPrimaryDeviceAttributes))
            } else {
                None
            }
        } else if control == 0x74 {
            match parse_window(params) {
                Some(w) => Some(CSI::Window(w)),
                None => None,
            }
        } else {
            match parse_cursor(params, control) {
                Some(c) => Some(CSI::Cursor(c)),
                None => match parse_edit(params, control) {
                    Some(e) => Some(CSI::Edit(e)),
                    None => None,
                },
            }
        }
    } else if intermediates.len() == 1 {
        let i = intermediates[0];
        if i == 0x20 && control == 0x71 {
            match parse_selector(params) {
                Some(v) => match cursor_style_from(v) {
                    Some(s) => Some(CSI::Cursor(Cursor::CursorStyle(s))),
                    None => None,
                },
                None => None,
            }
        } else if i == 0x2a && control == 0x79 {
            match parse_checksum(params) {
                Some(w) => Some(CSI::Window(w)),
                None => None,
            }
        } else if i == 0x21 && control == 0x70 {
            Some(CSI::Device(Device::SoftReset))
        } else if i == 0x3e && control == 0x63 {
            Some(CSI::Device(Device::RequestSecondaryDeviceAttributes))
        } else if i == 0x3c && (control == 0x4d || control == 0x6d) {
            if params.len() == 3 {
                Some(
                    CSI::Mouse(
                        MouseReport {
                            button: params[0],
                            x: params[1],
                            y: params[2],
                            released: control == 0x6d,
                        },
                    ),
                )
            } else {
                None
            }
        } else {
            None
        }
    } else {
        None
    }
}

/// A copy of the numbers from index `from` on.
pub fn copy_numbers(v: &[i64], from: usize) -> (copy: Vec<i64>)
    requires
        from <= v@.len(),
    ensures
        copy@ == v@.skip(from as int),
{
    let mut copy: Vec<i64> = Vec::new();
    let mut i: usize = from;
    while i < v.len()
        invariant
            from <= i <= v.len(),
            copy@ == v@.subrange(from as int, i as int),
        decreases v.len() - i,
    {
        copy.push(v[i]);
        assert(copy@ =~= v@.subrange(from as int, i + 1));
        i = i + 1;
    }
    assert(v@.subrange(from as int, v.len() as int) =~= v@.skip(from as int));
    copy
}

/// A copy of the bytes.
pub fn copy_bytes(v: &[u8]) -> (copy: Vec<u8>)
    ensures
        copy@ == v@,
{
    let mut copy: Vec<u8> = Vec::new();
    let mut i: usize = 0;
    while i < v.len()
        invariant
            i <= v.len(),
            copy@ == v@.subrange(0, i as int),
        decreases v.len() - i,
    {
        copy.push(v[i]);
        assert(copy@ =~= v@.subrange(0, i + 1));
        i = i + 1;
    }
    assert(v@.subrange(0, v.len() as int) =~= v@);
    copy
}

fn keep_as_it_came(params: &[i64], from: usize, intermediates: &[u8], ignored: bool, control: u8) -> (c: CSI)
    requires
        from <= params@.len(),
    ensures
        c@ == unspecified(params@.skip(from as int), intermediates@, ignored, control),
{
    CSI::Unspecified(
        Unspecified {
            params: copy_numbers(params, from),
            intermediates: copy_bytes(intermediates),
            ignored_extra_intermediates: ignored,
            control,
        },
    )
}

fn parse_sgr_list(params: &[i64], ignored: bool) -> (list: Vec<CSI>)
    ensures
        views(list@) == sgr_list(params@, ignored),
{
    let mut list: Vec<CSI> = Vec::new();
    let mut pos: usize = 0;
    let empty: Vec<u8> = Vec::new();
    assert(views(list@) =~= Seq::<CsiView>::empty());
    assert(params@.skip(0) =~= params@);
    while pos < params.len()
        invariant
            pos <= params.len(),
            empty@ == Seq::<u8>::empty(),
            views(list@) + sgr_list(params@.skip(pos as int), ignored) == sgr_list(params@, ignored),
        decreases params.len() - pos,
    {
        let ghost rest = params@.skip(pos as int);
        let ghost before = views(list@);
        match parse_sgr_first(params, pos) {
            Some((sgr, used)) => {
                let item = CSI::Sgr(sgr);
                proof {
                    lemma_views_push(list@, item);
                    assert(rest.skip(used as int) =~= params@.skip(pos + used));
                    assert(before.push(item@) + sgr_list(rest.skip(used as int), ignored) =~= before
                        + (seq![item@] + sgr_list(rest.skip(used as int), ignored)));
                }
                list.push(item);
                pos = pos + used;
            },
            None => {
                let item = keep_as_it_came(params, pos, empty.as_slice(), ignored, 0x6d);
                proof {
                    lemma_views_push(list@, item);
                    assert(before.push(item@) =~= before + seq![item@]);
                    assert(params@.skip(params.len() as int) =~= Seq::<i64>::empty());
                    assert(before.push(item@) + sgr_list(params@.skip(params.len() as int), ignored)
                        =~= before.push(item@));
                }
                list.push(item);
                pos = params.len();
            },
        }
    }
    proof {
        assert(params@.skip(pos as int) =~= Seq::<i64>::empty());
        assert(views(list@) + Seq::<CsiView>::empty() =~= views(list@));
    }
    list
}

fn parse_mode_list(kind: ModeKind, params: &[i64]) -> (list: Vec<CSI>)
    ensures
        views(list@) == mode_list(kind, params@),
{
    let mut list: Vec<CSI> = Vec::new();
    let mut pos: usize = 0;
    assert(views(list@) =~= Seq::<CsiView>::empty());
    assert(params@.skip(0) =~= params@);
    while pos < params.len()
        invariant
            pos <= params.len(),
            views(list@) + mode_list(kind, params@.skip(pos as int)) == mode_list(kind, params@),
        decreases params.len() - pos,
    {
        let ghost rest = params@.skip(pos as int);
        let ghost before = views(list@);
        let item = CSI::Mode(mode_from(kind, params[pos]));
        proof {
            lemma_views_push(list@, item);
            assert(rest.skip(1) =~= params@.skip(pos + 1));
            assert(before.push(item@) + mode_list(kind, rest.skip(1)) =~= before + (seq![item@]
                + mode_list(kind, rest.skip(1))));
        }
        list.push(item);
        pos = pos + 1;
    }
    proof {
        assert(params@.skip(pos as int) =~= Seq::<i64>::empty());
        assert(views(list@) + Seq::<CsiView>::empty() =~= views(list@));
    }
    list
}

fn only(item: CSI) -> (list: Vec<CSI>)
    ensures
        views(list@) == seq![item@],
{
    let mut list: Vec<CSI> = Vec::new();
    list.push(item);
    assert(views(list@) =~= seq![item@]);
    list
}

impl CSI {
    /// Decodes a control sequence from its numeric parameters, its intermediate bytes and
    /// its final byte, into the operations it stands for.
    pub fn parse(
        params: &[i64],
        intermediates: &[u8],
        ignored_extra_intermediates: bool,
        control: u8,
    ) -> (list: Vec<CSI>)
        ensures
            views(list@) == csi_decoded(
                params@,
                intermediates@,
                ignored_extra_intermediates,
                control,
            ),
    {
        if intermediates.len() == 0 && control == 0x6d {
            if params.len() == 0 {
                only(CSI::Sgr(Sgr::Reset))
            } else {
                parse_sgr_list(params, ignored_extra_intermediates)
            }
        } else {
            match mode_kind_from(intermediates, control) {
                Some(kind) => if params.len() == 0 {
                    proof {
                        assert(params@.skip(0) =~= params@);
                    }
                    only(keep_as_it_came(params, 0, intermediates, ignored_extra_intermediates, control))
                } else {
                    parse_mode_list(kind, params)
                },
                None => match parse_single(params, intermediates, control) {
                    Some(op) => only(op),
                    None => {
                        proof {
                            assert(params@.skip(0) =~= params@);
                        }
                        only(
                            keep_as_it_came(
                                params,
                                0,
                                intermediates,
                                ignored_extra_intermediates,
                                control,
                            ),
                        )
                    },
                },
            }
        }
    }
}


} // verus!
