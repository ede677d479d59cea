//! Keys, mouse events, and the bytes a key press sends to the child process.

use crate::screen::VisibleRowIndex;
use vstd::prelude::*;
use vstd::utf8::encode_scalar;

verus! {

/// A key of the keyboard.
#[derive(Clone, Copy, Debug, PartialEq, Eq, Structural)]
pub enum KeyCode {
    /// The key that types this character.
    Char(char),
    Hyper,
    Super,
    Meta,
    Cancel,
    Backspace,
    Tab,
    Clear,
    Enter,
    Shift,
    Escape,
    LeftShift,
    RightShift,
    Control,
    LeftControl,
    RightControl,
    Alt,
    LeftAlt,
    RightAlt,
    Menu,
    LeftMenu,
    RightMenu,
    Pause,
    CapsLock,
    PageUp,
    PageDown,
    End,
    Home,
    LeftArrow,
    RightArrow,
    UpArrow,
    DownArrow,
    Select,
    Print,
    Execute,
    PrintScreen,
    Insert,
    Delete,
    Help,
    LeftWindows,
    RightWindows,
    Applications,
    Sleep,
    Numpad0,
    Numpad1,
    Numpad2,
    Numpad3,
    Numpad4,
    Numpad5,
    Numpad6,
    Numpad7,
    Numpad8,
    Numpad9,
    Multiply,
    Add,
    Separator,
    Subtract,
    Decimal,
    Divide,
    /// A function key, F1 being `Function(1)`.
    Function(u8),
    NumLock,
    ScrollLock,
    BrowserBack,
    BrowserForward,
    BrowserRefresh,
    BrowserStop,
    BrowserSearch,
    BrowserFavorites,
    BrowserHome,
    VolumeMute,
    VolumeDown,
    VolumeUp,
    MediaNextTrack,
    MediaPrevTrack,
    MediaStop,
    MediaPlayPause,
    ApplicationLeftArrow,
    ApplicationRightArrow,
    ApplicationUpArrow,
    ApplicationDownArrow,
    InternalPasteStart,
    InternalPasteEnd,
}

/// The modifier keys held down with a key or a mouse button.
#[derive(Clone, Copy, Debug, PartialEq, Eq, Structural)]
pub struct KeyModifiers {
    pub shift: bool,
    pub alt: bool,
    pub ctrl: bool,
    pub super_key: bool,
}

impl KeyModifiers {
    /// No modifier held.
    pub open spec fn none() -> KeyModifiers {
        KeyModifiers { shift: false, alt: false, ctrl: false, super_key: false }
    }

    /// No modifier held.
    pub fn new() -> (m: KeyModifiers)
        ensures
            m == KeyModifiers::none(),
    {
        KeyModifiers { shift: false, alt: false, ctrl: false, super_key: false }
    }

    /// The number that stands for the modifiers in a function key sequence: 1 for none, plus
    /// 1 for shift, 2 for alt and 4 for ctrl.
    pub open spec fn number(self) -> int {
        1 + (if self.shift { 1int } else { 0 }) + (if self.alt { 2int } else { 0 }) + (if self.ctrl {
            4int
        } else {
            0
        })
    }
}

/// A button of the mouse, or a turn of its wheel by some amount.
#[derive(Clone, Copy, Debug, PartialEq, Eq, Structural)]
pub enum MouseButton {
    Left,
    Middle,
    Right,
    WheelUp(usize),
    WheelDown(usize),
    NoButton,
}

/// What happened to the mouse.
#[derive(Clone, Copy, Debug, PartialEq, Eq, Structural)]
pub enum MouseEventKind {
    Press,
    Release,
    Move,
}

/// A mouse event at a cell of the visible screen.
#[derive(Clone, Copy, Debug, PartialEq, Eq, Structural)]
pub struct MouseEvent {
    pub kind: MouseEventKind,
    pub x: usize,
    pub y: VisibleRowIndex,
    pub button: MouseButton,
    pub modifiers: KeyModifiers,
}

/// Clicks of one button that follow each other within this many milliseconds form a streak.
pub const CLICK_INTERVAL: u64 = 500;

/// The last press of a mouse button: when it happened, and how many presses of the same
/// button led up to it in quick succession.
#[derive(Clone, Copy, Debug, PartialEq, Eq, Structural)]
pub struct LastMouseClick {
    pub button: MouseButton,
    pub time: u64,
    pub streak: usize,
}

impl LastMouseClick {
    /// The record of a first click at time `now`.
    pub open spec fn first(button: MouseButton, now: u64) -> LastMouseClick {
        LastMouseClick { button, time: now, streak: 1 }
    }

    /// The click record after a press of `button` at time `now`: the streak grows if the
    /// button is the same and the press came within the click interval, else starts again.
    pub open spec fn followed_by(self, button: MouseButton, now: u64) -> LastMouseClick {
        let in_time = now >= self.time && now - self.time <= CLICK_INTERVAL;
        let streak = if button == self.button && in_time && self.streak < usize::MAX {
            (self.streak + 1) as usize
        } else {
            1
        };
        LastMouseClick { button, time: now, streak }
    }

    /// The record of a first click at time `now`, in milliseconds.
    pub fn new(button: MouseButton, now: u64) -> (click: LastMouseClick)
        ensures
            click == LastMouseClick::first(button, now),
    {
        LastMouseClick { button, time: now, streak: 1 }
    }

    /// The record after a further press of `button` at time `now`, in milliseconds.
    pub fn add(&self, button: MouseButton, now: u64) -> (click: LastMouseClick)
        ensures
            click == self.followed_by(button, now),
    {
        let in_time = now >= self.time && now - self.time <= CLICK_INTERVAL;
        let streak = if button == self.button && in_time && self.streak < usize::MAX {
            self.streak + 1
        } else {
            1
        };
        LastMouseClick { button, time: now, streak }
    }
}

/// The two decimal digits that name function key `n` in its escape sequence.
pub open spec fn function_key_number(n: u8) -> int {
    if n <= 5 {
        10 + n
    } else if n <= 10 {
        11 + n
    } else {
        12 + n
    }
}

/// The escape sequence of function key `n`, from 1 to 12, under the given modifiers.
pub open spec fn function_key_bytes(n: u8, mods: KeyModifiers) -> Seq<u8> {
    if mods.number() == 1 && n < 5 {
        seq![0x1bu8, 0x4f, (0x4f + n) as u8]
    } else {
        let code = function_key_number(n);
        let intro = seq![0x1bu8, 0x5b, (0x30 + code / 10) as u8, (0x30 + code % 10) as u8];
        if mods.number() == 1 {
            intro.push(0x7e)
        } else {
            intro.push(0x3b).push((0x30 + mods.number()) as u8).push(0x7e)
        }
    }
}

/// ESC followed by `[` or, in application cursor mode, `O`, and the final byte.
pub open spec fn cursor_key_bytes(last: u8, application: bool) -> Seq<u8> {
    seq![0x1bu8, if application { 0x4fu8 } else { 0x5bu8 }, last]
}

/// Whether a character is an ASCII letter, digit or punctuation mark.
pub open spec fn is_ascii_graphic(c: char) -> bool {
    0x21 <= c as u32 <= 0x7e
}

/// What a key press sends to the child process, or `None` for a function key that has no
/// escape sequence. `application` is the application cursor keys mode.
pub open spec fn key_bytes(key: KeyCode, mods: KeyModifiers, application: bool) -> Option<Seq<u8>> {
    match key {
        KeyCode::Char(c) => Some(
            if mods.alt && is_ascii_graphic(c) {
                seq![0x1bu8, c as u8]
            } else if c == '\x7f' {
                seq![0x7fu8]
            } else if mods.ctrl && mods.shift && 0x40 < c as u32 <= 0xff {
                encode_scalar((c as u32 - 0x40) as u32)
            } else if mods.ctrl && 0x60 < c as u32 <= 0xff {
                encode_scalar((c as u32 - 0x60) as u32)
            } else {
                encode_scalar(c as u32)
            },
        ),
        KeyCode::Backspace => Some(
            if mods.alt {
                seq![0x1bu8, 0x08]
            } else {
                seq![0x08u8]
            },
        ),
        KeyCode::UpArrow => Some(
            if mods.alt {
                seq![0x1bu8, 0x1b, 0x5b, 0x41]
            } else {
                cursor_key_bytes(0x41, application)
            },
        ),
        KeyCode::DownArrow => Some(
            if mods.alt {
                seq![0x1bu8, 0x1b, 0x5b, 0x42]
            } else {
                cursor_key_bytes(0x42, application)
            },
        ),
        KeyCode::RightArrow => Some(
            if mods.alt {
                seq![0x1bu8, 0x1b, 0x5b, 0x43]
            } else {
                cursor_key_bytes(0x43, application)
            },
        ),
        KeyCode::LeftArrow => Some(
            if mods.alt {
                seq![0x1bu8, 0x1b, 0x5b, 0x44]
            } else {
                cursor_key_bytes(0x44, application)
            },
        ),
        KeyCode::Tab => Some(seq![0x09u8]),
        KeyCode::Enter => Some(seq![0x0du8]),
        KeyCode::Escape => Some(seq![0x1bu8]),
        KeyCode::Delete => Some(seq![0x7fu8]),
        KeyCode::Home => Some(cursor_key_bytes(0x48, application)),
        KeyCode::End => Some(cursor_key_bytes(0x46, application)),
        KeyCode::ApplicationUpArrow => Some(cursor_key_bytes(0x41, true)),
        KeyCode::ApplicationDownArrow => Some(cursor_key_bytes(0x42, true)),
        KeyCode::ApplicationRightArrow => Some(cursor_key_bytes(0x43, true)),
        KeyCode::ApplicationLeftArrow => Some(cursor_key_bytes(0x44, true)),
        KeyCode::PageUp => Some(
            if mods.shift {
                Seq::<u8>::empty()
            } else {
                seq![0x1bu8, 0x5b, 0x35, 0x7e]
            },
        ),
        KeyCode::PageDown => Some(
            if mods.shift {
                Seq::<u8>::empty()
            } else {
                seq![0x1bu8, 0x5b, 0x36, 0x7e]
            },
        ),
        KeyCode::Insert => Some(seq![0x1bu8, 0x5b, 0x32, 0x7e]),
        KeyCode::Function(n) => if 1 <= n <= 12 {
            Some(function_key_bytes(n, mods))
        } else {
            None
        },
        _ => Some(Seq::<u8>::empty()),
    }
}

/// The pages a key press scrolls the viewport by: one page back for shift with page up, one
/// page forward for shift with page down.
pub open spec fn key_scroll_pages(key: KeyCode, mods: KeyModifiers) -> int {
    match key {
        KeyCode::PageUp => if mods.shift {
            -1
        } else {
            0
        },
        KeyCode::PageDown => if mods.shift {
            1
        } else {
            0
        },
        _ => 0,
    }
}

/// `char::encode_utf8`: the bytes of the UTF-8 encoding of one character.
#[verifier::external_body]
pub(crate) fn utf8_bytes(c: char) -> (bytes: Vec<u8>)
    ensures
        bytes@ == encode_scalar(c as u32),
{
    let mut buf = [0u8; 4];
    c.encode_utf8(&mut buf).as_bytes().to_vec()
}

fn bytes2(a: u8, b: u8) -> (v: Vec<u8>)
    ensures
        v@ == seq![a, b],
{
    let mut v: Vec<u8> = Vec::new();
    v.push(a);
    v.push(b);
    assert(v@ =~= seq![a, b]);
    v
}

fn bytes3(a: u8, b: u8, c: u8) -> (v: Vec<u8>)
    ensures
        v@ == seq![a, b, c],
{
    let mut v: Vec<u8> = Vec::new();
    v.push(a);
    v.push(b);
    v.push(c);
    assert(v@ =~= seq![a, b, c]);
    v
}

fn bytes4(a: u8, b: u8, c: u8, d: u8) -> (v: Vec<u8>)
    ensures
        v@ == seq![a, b, c, d],
{
    let mut v: Vec<u8> = Vec::new();
    v.push(a);
    v.push(b);
    v.push(c);
    v.push(d);
    assert(v@ =~= seq![a, b, c, d]);
    v
}

fn bytes1(a: u8) -> (v: Vec<u8>)
    ensures
        v@ == seq![a],
{
    let mut v: Vec<u8> = Vec::new();
    v.push(a);
    assert(v@ =~= seq![a]);
    v
}

fn cursor_key(last: u8, application: bool) -> (v: Vec<u8>)
    ensures
        v@ == cursor_key_bytes(last, application),
{
    bytes3(0x1b, if application { 0x4f } else { 0x5b }, last)
}

fn modifier_number(mods: KeyModifiers) -> (n: u8)
    ensures
        n == mods.number(),
        1 <= n <= 8,
{
    let mut n: u8 = 1;
    if mods.shift {
        n = n + 1;
    }
    if mods.alt {
        n = n + 2;
    }
    if mods.ctrl {
        n = n + 4;
    }
    n
}

fn function_key(n: u8, mods: KeyModifiers) -> (v: Vec<u8>)
    requires
        1 <= n <= 12,
    ensures
        v@ == function_key_bytes(n, mods),
{
    let number = modifier_number(mods);
    if number == 1 && n < 5 {
        bytes3(0x1b, 0x4f, 0x4f + n)
    } else {
        let code: u8 = if n <= 5 {
            10 + n
        } else if n <= 10 {
            11 + n
        } else {
            12 + n
        };
        let mut v = bytes4(0x1b, 0x5b, 0x30 + code / 10, 0x30 + code % 10);
        if number != 1 {
            v.push(0x3b);
            v.push(0x30 + number);
        }
        v.push(0x7e);
        v
    }
}

/// What a key press sends to the child process, or `None` for a function key that has no
/// escape sequence.
pub fn encode_key(key: KeyCode, mods: KeyModifiers, application: bool) -> (bytes: Option<Vec<u8>>)
    ensures
        bytes is Some == key_bytes(key, mods, application) is Some,
        bytes matches Some(b) ==> b@ == key_bytes(key, mods, application).unwrap(),
{
    match key {
        KeyCode::Char(c) => {
            let v = c as u32;
            if mods.alt && 0x21 <= v && v <= 0x7e {
                Some(bytes2(0x1b, c as u8))
            } else if v == 0x7f {
                Some(bytes1(0x7f))
            } else if mods.ctrl && mods.shift && 0x40 < v && v <= 0xff {
                let shifted = char_of((v - 0x40) as u8);
                Some(utf8_bytes(shifted))
            } else if mods.ctrl && 0x60 < v && v <= 0xff {
                let shifted = char_of((v - 0x60) as u8);
                Some(utf8_bytes(shifted))
            } else {
                Some(utf8_bytes(c))
            }
        },
        KeyCode::Backspace => if mods.alt {
            Some(bytes2(0x1b, 0x08))
        } else {
            Some(bytes1(0x08))
        },
        KeyCode::UpArrow => if mods.alt {
            Some(bytes4(0x1b, 0x1b, 0x5b, 0x41))
        } else {
            Some(cursor_key(0x41, application))
        },
        KeyCode::DownArrow => if mods.alt {
            Some(bytes4(0x1b, 0x1b, 0x5b, 0x42))
        } else {
            Some(cursor_key(0x42, application))
        },
        KeyCode::RightArrow => if mods.alt {
            Some(bytes4(0x1b, 0x1b, 0x5b, 0x43))
        } else {
            Some(cursor_key(0x43, application))
        },
        KeyCode::LeftArrow => if mods.alt {
            Some(bytes4(0x1b, 0x1b, 0x5b, 0x44))
        } else {
            Some(cursor_key(0x44, application))
        },
        KeyCode::Tab => Some(bytes1(0x09)),
        KeyCode::Enter => Some(bytes1(0x0d)),
        KeyCode::Escape => Some(bytes1(0x1b)),
        KeyCode::Delete => Some(bytes1(0x7f)),
        KeyCode::Home => Some(cursor_key(0x48, application)),
        KeyCode::End => Some(cursor_key(0x46, application)),
        KeyCode::ApplicationUpArrow => Some(cursor_key(0x41, true)),
        KeyCode::ApplicationDownArrow => Some(cursor_key(0x42, true)),
        KeyCode::ApplicationRightArrow => Some(cursor_key(0x43, true)),
        KeyCode::ApplicationLeftArrow => Some(cursor_key(0x44, true)),
        KeyCode::PageUp => if mods.shift {
            Some(Vec::new())
        } else {
            Some(bytes4(0x1b, 0x5b, 0x35, 0x7e))
        },
        KeyCode::PageDown => if mods.shift {
            Some(Vec::new())
        } else {
            Some(bytes4(0x1b, 0x5b, 0x36, 0x7e))
        },
        KeyCode::Insert => Some(bytes4(0x1b, 0x5b, 0x32, 0x7e)),
        KeyCode::Function(n) => if 1 <= n && n <= 12 {
            Some(function_key(n, mods))
        } else {
            None
        },
        _ => Some(Vec::new()),
    }
}

/// The character whose code is `b`.
pub fn char_of(b: u8) -> (c: char)
    ensures
        c as u32 == b as u32,
{
    b as char
}

} // verus!
