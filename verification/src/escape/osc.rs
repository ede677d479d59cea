//! Operating system commands: a list of byte strings, the first of which is a number.

use crate::cell::RgbColor;
use crate::escape::csi::copy_bytes;
use crate::hyperlink::Hyperlink;
use crate::hyperlink::HyperlinkView;
use crate::text::chars_of;
use crate::views::lemma_views_push;
use crate::views::views;
use base64::engine::general_purpose::STANDARD;
use base64::Engine;
use vstd::prelude::*;
use vstd::utf8::decode_utf8;
use vstd::utf8::valid_utf8;

verus! {

/// The bytes that a base64 text stands for, where it is well formed.
pub uninterp spec fn base64_decoded(data: Seq<u8>) -> Option<Seq<u8>>;

/// `Engine::decode` of the standard base64 engine: the bytes the text stands for, or nothing
/// where the text is not well formed. Decoding depends on the text alone.
#[verifier::external_body]
pub(crate) fn decode_base64(data: &[u8]) -> (bytes: Option<Vec<u8>>)
    ensures
        bytes is Some == base64_decoded(data@) is Some,
        bytes matches Some(b) ==> b@ == base64_decoded(data@).unwrap(),
{
    STANDARD.decode(data).ok()
}

/// `String::from_utf8`: the string that the bytes encode, or nothing where they are not
/// valid UTF-8.
#[verifier::external_body]
pub(crate) fn utf8_string(bytes: &[u8]) -> (s: Option<String>)
    ensures
        s is Some == valid_utf8(bytes@),
        s matches Some(t) ==> t@ == decode_utf8(bytes@),
{
    String::from_utf8(bytes.to_vec()).ok()
}

/// The text that the bytes encode, where they are valid UTF-8.
pub open spec fn text_of(bytes: Seq<u8>) -> Option<Seq<char>> {
    if valid_utf8(bytes) {
        Some(decode_utf8(bytes))
    } else {
        None
    }
}

/// The text that the bytes encode, where they are valid UTF-8.
pub fn decode_text(bytes: &[u8]) -> (text: Option<Vec<char>>)
    ensures
        text is Some == text_of(bytes@) is Some,
        text matches Some(t) ==> t@ == text_of(bytes@).unwrap(),
{
    match utf8_string(bytes) {
        Some(s) => Some(chars_of(s.as_str())),
        None => None,
    }
}

/// The selections an OSC 52 command speaks of, as a set of bits.
#[derive(Clone, Copy, Debug, PartialEq, Eq, Structural)]
pub struct Selection {
    pub bits: u16,
}

/// The bit of the selection that a letter or digit names.
pub open spec fn selection_bit(b: u8) -> Option<u16> {
    if b == 0x63 {
        Some(2)
    } else if b == 0x70 {
        Some(4)
    } else if b == 0x73 {
        Some(8)
    } else if 0x30 <= b <= 0x37 {
        Some((16u16 << ((b - 0x30) as u16)) as u16)
    } else {
        None
    }
}

/// The bits of the selections that the first `n` letters name.
pub open spec fn selection_bits(s: Seq<u8>, n: int) -> Option<u16>
    decreases n,
{
    if n <= 0 {
        Some(0)
    } else {
        match (selection_bits(s, n - 1), selection_bit(s[n - 1])) {
            (Some(acc), Some(bit)) => Some(acc | bit),
            _ => None,
        }
    }
}

/// The selections that a parameter names: the select and first cut buffer where it is empty.
pub open spec fn selection_of(s: Seq<u8>) -> Option<Selection> {
    if s.len() == 0 {
        Some(Selection { bits: 24 })
    } else {
        match selection_bits(s, s.len() as int) {
            Some(bits) => Some(Selection { bits }),
            None => None,
        }
    }
}

fn selection_bit_from(b: u8) -> (bit: Option<u16>)
    ensures
        bit == selection_bit(b),
{
    if b == 0x63 {
        Some(2)
    } else if b == 0x70 {
        Some(4)
    } else if b == 0x73 {
        Some(8)
    } else if 0x30 <= b && b <= 0x37 {
        Some(16u16 << ((b - 0x30) as u16))
    } else {
        None
    }
}

impl Selection {
    /// The selections that a parameter names.
    pub fn try_parse(s: &[u8]) -> (sel: Option<Selection>)
        ensures
            sel == selection_of(s@),
    {
        if s.len() == 0 {
            return Some(Selection { bits: 24 });
        }
        let mut bits: u16 = 0;
        let mut i: usize = 0;
        while i < s.len()
            invariant
                i <= s.len(),
                selection_bits(s@, i as int) == Some(bits),
            decreases s.len() - i,
        {
            match selection_bit_from(s[i]) {
                Some(bit) => {
                    bits = bits | bit;
                },
                None => {
                    proof {
                        lemma_selection_bits_fail(s@, i as int, s.len() as int);
                    }
                    return None;
                },
            }
            i = i + 1;
        }
        Some(Selection { bits })
    }
}

proof fn lemma_selection_bits_fail(s: Seq<u8>, i: int, n: int)
    requires
        0 <= i < n <= s.len(),
        selection_bit(s[i]) is None,
    ensures
        selection_bits(s, n) is None,
    decreases n,
{
    if n - 1 > i {
        lemma_selection_bits_fail(s, i, n - 1);
    }
}

/// A colour, or the request to be told the current one.
#[derive(Clone, Copy, Debug, PartialEq, Eq, Structural)]
pub enum ColorOrQuery {
    Color(RgbColor),
    Query,
}

/// A palette entry and what to do with it.
#[derive(Clone, Copy, Debug, PartialEq, Eq, Structural)]
pub struct ChangeColorPair {
    pub palette_index: u8,
    pub color: ColorOrQuery,
}

/// The colours that are not part of the palette.
#[derive(Clone, Copy, Debug, PartialEq, Eq, Structural)]
pub enum DynamicColorNumber {
    TextForegroundColor,
    TextBackgroundColor,
    TextCursorColor,
    MouseForegroundColor,
    MouseBackgroundColor,
    TektronixForegroundColor,
    TektronixBackgroundColor,
    HighlightBackgroundColor,
    TektronixCursorColor,
    HighlightForegroundColor,
}

impl DynamicColorNumber {
    /// The dynamic colour with the given command number, from 10 to 19.
    pub open spec fn of(code: int) -> Option<DynamicColorNumber> {
        if code == 10 {
            Some(DynamicColorNumber::TextForegroundColor)
        } else if code == 11 {
            Some(DynamicColorNumber::TextBackgroundColor)
        } else if code == 12 {
            Some(DynamicColorNumber::TextCursorColor)
        } else if code == 13 {
            Some(DynamicColorNumber::MouseForegroundColor)
        } else if code == 14 {
            Some(DynamicColorNumber::MouseBackgroundColor)
        } else if code == 15 {
            Some(DynamicColorNumber::TektronixForegroundColor)
        } else if code == 16 {
            Some(DynamicColorNumber::TektronixBackgroundColor)
        } else if code == 17 {
            Some(DynamicColorNumber::HighlightBackgroundColor)
        } else if code == 18 {
            Some(DynamicColorNumber::TektronixCursorColor)
        } else if code == 19 {
            Some(DynamicColorNumber::HighlightForegroundColor)
        } else {
            None
        }
    }

    /// The command number of the colour.
    pub open spec fn number(self) -> u8 {
        match self {
            DynamicColorNumber::TextForegroundColor => 10,
            DynamicColorNumber::TextBackgroundColor => 11,
            DynamicColorNumber::TextCursorColor => 12,
            DynamicColorNumber::MouseForegroundColor => 13,
            DynamicColorNumber::MouseBackgroundColor => 14,
            DynamicColorNumber::TektronixForegroundColor => 15,
            DynamicColorNumber::TektronixBackgroundColor => 16,
            DynamicColorNumber::HighlightBackgroundColor => 17,
            DynamicColorNumber::TektronixCursorColor => 18,
            DynamicColorNumber::HighlightForegroundColor => 19,
        }
    }

    /// The dynamic colour with the given command number, where there is one.
    pub fn from_u8(code: u8) -> (c: Option<DynamicColorNumber>)
        ensures
            c == DynamicColorNumber::of(code as int),
    {
        match code {
            10 => Some(DynamicColorNumber::TextForegroundColor),
            11 => Some(DynamicColorNumber::TextBackgroundColor),
            12 => Some(DynamicColorNumber::TextCursorColor),
            13 => Some(DynamicColorNumber::MouseForegroundColor),
            14 => Some(DynamicColorNumber::MouseBackgroundColor),
            15 => Some(DynamicColorNumber::TektronixForegroundColor),
            16 => Some(DynamicColorNumber::TektronixBackgroundColor),
            17 => Some(DynamicColorNumber::HighlightBackgroundColor),
            18 => Some(DynamicColorNumber::TektronixCursorColor),
            19 => Some(DynamicColorNumber::HighlightForegroundColor),
            _ => None,
        }
    }

    /// The command number of the colour.
    pub fn to_u8(self) -> (code: u8)
        ensures
            code == self.number(),
    {
        match self {
            DynamicColorNumber::TextForegroundColor => 10,
            DynamicColorNumber::TextBackgroundColor => 11,
            DynamicColorNumber::TextCursorColor => 12,
            DynamicColorNumber::MouseForegroundColor => 13,
            DynamicColorNumber::MouseBackgroundColor => 14,
            DynamicColorNumber::TektronixForegroundColor => 15,
            DynamicColorNumber::TektronixBackgroundColor => 16,
            DynamicColorNumber::HighlightBackgroundColor => 17,
            DynamicColorNumber::TektronixCursorColor => 18,
            DynamicColorNumber::HighlightForegroundColor => 19,
        }
    }
}

/// The number that the first `n` decimal digits of `s` write, where they all are digits.
pub open spec fn digits_value(s: Seq<u8>, n: int) -> Option<int>
    decreases n,
{
    if n <= 0 {
        Some(0)
    } else {
        match digits_value(s, n - 1) {
            Some(v) => if 0x30 <= s[n - 1] <= 0x39 {
                Some(v * 10 + (s[n - 1] - 0x30))
            } else {
                None
            },
            None => None,
        }
    }
}

/// The number that a parameter of one to nine decimal digits writes.
pub open spec fn number_of(s: Seq<u8>) -> Option<int> {
    if 1 <= s.len() <= 9 {
        digits_value(s, s.len() as int)
    } else {
        None
    }
}

proof fn lemma_digits_fail(s: Seq<u8>, i: int, n: int)
    requires
        0 <= i < n <= s.len(),
        !(0x30 <= s[i] <= 0x39),
    ensures
        digits_value(s, n) is None,
    decreases n,
{
    if n - 1 > i {
        lemma_digits_fail(s, i, n - 1);
    }
}

proof fn lemma_digits_bound(s: Seq<u8>, n: int)
    requires
        0 <= n <= s.len(),
        digits_value(s, n) is Some,
    ensures
        0 <= digits_value(s, n).unwrap() < pow10(n),
    decreases n,
{
    if n > 0 {
        lemma_digits_bound(s, n - 1);
    }
}

/// Ten to the power of `n`.
pub open spec fn pow10(n: int) -> int
    decreases n,
{
    if n <= 0 {
        1
    } else {
        10 * pow10(n - 1)
    }
}

/// The number that a parameter of one to nine decimal digits writes.
pub fn parse_number(s: &[u8]) -> (v: Option<u32>)
    ensures
        v is Some == number_of(s@) is Some,
        v matches Some(n) ==> n == number_of(s@).unwrap(),
{
    if s.len() < 1 || s.len() > 9 {
        return None;
    }
    let mut acc: u32 = 0;
    let mut i: usize = 0;
    while i < s.len()
        invariant
            i <= s.len() <= 9,
            digits_value(s@, i as int) == Some(acc as int),
            acc < pow10(i as int),
        decreases s.len() - i,
    {
        let b = s[i];
        if 0x30 <= b && b <= 0x39 {
            proof {
                reveal_with_fuel(pow10, 10);
                assert(pow10(i as int) <= 100_000_000) by {
                    reveal_with_fuel(pow10, 10);
                    if i == 0 {
                    } else if i == 1 {
                    } else if i == 2 {
                    } else if i == 3 {
                    } else if i == 4 {
                    } else if i == 5 {
                    } else if i == 6 {
                    } else if i == 7 {
                    } else {
                        assert(i == 8);
                    }
                }
            }
            acc = acc * 10 + (b - 0x30) as u32;
        } else {
            proof {
                lemma_digits_fail(s@, i as int, s.len() as int);
            }
            return None;
        }
        i = i + 1;
    }
    Some(acc)
}

/// The value of a hexadecimal digit.
pub open spec fn hex_value(b: u8) -> Option<u8> {
    if 0x30 <= b <= 0x39 {
        Some((b - 0x30) as u8)
    } else if 0x61 <= b <= 0x66 {
        Some((b - 0x61 + 10) as u8)
    } else if 0x41 <= b <= 0x46 {
        Some((b - 0x41 + 10) as u8)
    } else {
        None
    }
}

/// The byte that two hexadecimal digits write.
pub open spec fn hex_byte(hi: u8, lo: u8) -> Option<u8> {
    match (hex_value(hi), hex_value(lo)) {
        (Some(h), Some(l)) => Some((h * 16 + l) as u8),
        _ => None,
    }
}

/// The colour that a parameter names: `#rrggbb`, `rgb:rr/gg/bb`, or `rgb:rrrr/gggg/bbbb`,
/// of which the leading two digits of each part count.
pub open spec fn color_of(s: Seq<u8>) -> Option<RgbColor> {
    let parts = if s.len() == 7 && s[0] == 0x23 {
        Some((hex_byte(s[1], s[2]), hex_byte(s[3], s[4]), hex_byte(s[5], s[6])))
    } else if s.len() == 12 && s.subrange(0, 4) == seq![0x72u8, 0x67, 0x62, 0x3a] && s[6] == 0x2f
        && s[9] == 0x2f {
        Some((hex_byte(s[4], s[5]), hex_byte(s[7], s[8]), hex_byte(s[10], s[11])))
    } else if s.len() == 18 && s.subrange(0, 4) == seq![0x72u8, 0x67, 0x62, 0x3a] && s[8] == 0x2f
        && s[13] == 0x2f && hex_byte(s[6], s[7]) is Some && hex_byte(s[11], s[12]) is Some
        && hex_byte(s[16], s[17]) is Some {
        Some((hex_byte(s[4], s[5]), hex_byte(s[9], s[10]), hex_byte(s[14], s[15])))
    } else {
        None
    };
    match parts {
        Some((Some(red), Some(green), Some(blue))) => Some(RgbColor { red, green, blue }),
        _ => None,
    }
}

/// A colour, or a query where the parameter is a question mark.
pub open spec fn color_or_query_of(s: Seq<u8>) -> Option<ColorOrQuery> {
    if s == seq![0x3fu8] {
        Some(ColorOrQuery::Query)
    } else {
        match color_of(s) {
            Some(c) => Some(ColorOrQuery::Color(c)),
            None => None,
        }
    }
}

fn hex_value_from(b: u8) -> (v: Option<u8>)
    ensures
        v == hex_value(b),
{
    if 0x30 <= b && b <= 0x39 {
        Some(b - 0x30)
    } else if 0x61 <= b && b <= 0x66 {
        Some(b - 0x61 + 10)
    } else if 0x41 <= b && b <= 0x46 {
        Some(b - 0x41 + 10)
    } else {
        None
    }
}

fn hex_byte_from(hi: u8, lo: u8) -> (v: Option<u8>)
    ensures
        v == hex_byte(hi, lo),
{
    match (hex_value_from(hi), hex_value_from(lo)) {
        (Some(h), Some(l)) => Some(h * 16 + l),
        _ => None,
    }
}

fn has_rgb_prefix(s: &[u8]) -> (b: bool)
    requires
        s@.len() >= 4,
    ensures
        b == (s@.subrange(0, 4) == seq![0x72u8, 0x67, 0x62, 0x3a]),
{
    let b = s[0] == 0x72 && s[1] == 0x67 && s[2] == 0x62 && s[3] == 0x3a;
    proof {
        let p = s@.subrange(0, 4);
        let q = seq![0x72u8, 0x67, 0x62, 0x3a];
        if b {
            assert(p =~= q);
        } else {
            assert(p[0] == s@[0] && p[1] == s@[1] && p[2] == s@[2] && p[3] == s@[3]);
            assert(q[0] == 0x72 && q[1] == 0x67 && q[2] == 0x62 && q[3] == 0x3a);
        }
    }
    b
}

fn rgb_from(red: Option<u8>, green: Option<u8>, blue: Option<u8>) -> (c: Option<RgbColor>)
    ensures
        c == match (red, green, blue) {
            (Some(red), Some(green), Some(blue)) => Some(RgbColor { red, green, blue }),
            _ => None,
        },
{
    match (red, green, blue) {
        (Some(red), Some(green), Some(blue)) => Some(RgbColor { red, green, blue }),
        _ => None,
    }
}

/// The colour that a parameter names.
pub fn parse_color(s: &[u8]) -> (c: Option<RgbColor>)
    ensures
        c == color_of(s@),
{
    if s.len() == 7 && s[0] == 0x23 {
        rgb_from(hex_byte_from(s[1], s[2]), hex_byte_from(s[3], s[4]), hex_byte_from(s[5], s[6]))
    } else if s.len() == 12 && has_rgb_prefix(s) && s[6] == 0x2f && s[9] == 0x2f {
        rgb_from(hex_byte_from(s[4], s[5]), hex_byte_from(s[7], s[8]), hex_byte_from(s[10], s[11]))
    } else if s.len() == 18 && has_rgb_prefix(s) && s[8] == 0x2f && s[13] == 0x2f && hex_byte_from(
        s[6],
        s[7],
    ).is_some() && hex_byte_from(s[11], s[12]).is_some() && hex_byte_from(s[16], s[17]).is_some() {
        rgb_from(hex_byte_from(s[4], s[5]), hex_byte_from(s[9], s[10]), hex_byte_from(s[14], s[15]))
    } else {
        None
    }
}

fn parse_color_or_query(s: &[u8]) -> (c: Option<ColorOrQuery>)
    ensures
        c == color_or_query_of(s@),
{
    if s.len() == 1 && s[0] == 0x3f {
        assert(s@ =~= seq![0x3fu8]);
        Some(ColorOrQuery::Query)
    } else {
        proof {
            if s@ == seq![0x3fu8] {
                assert(s@.len() == 1 && s@[0] == 0x3f);
            }
        }
        match parse_color(s) {
            Some(c) => Some(ColorOrQuery::Color(c)),
            None => None,
        }
    }
}

/// The index of the first `b` in `s` at or after `from`, or the length of `s`.
pub open spec fn index_of(s: Seq<u8>, b: u8, from: int) -> int
    decreases s.len() - from,
{
    if from < 0 || from >= s.len() {
        s.len() as int
    } else if s[from] == b {
        from
    } else {
        index_of(s, b, from + 1)
    }
}

/// The identifier among the parameters of a hyperlink: what follows a leading `id=`, up to
/// the next colon.
pub open spec fn link_id_of(params: Seq<u8>) -> Option<Seq<u8>> {
    if params.len() >= 3 && params[0] == 0x69 && params[1] == 0x64 && params[2] == 0x3d {
        Some(params.subrange(3, index_of(params, 0x3a, 3)))
    } else {
        None
    }
}

/// The hyperlink that the parameters and the address of an OSC 8 command set: none where
/// both are empty; no result where the address or the identifier is not valid UTF-8.
pub open spec fn hyperlink_of(params: Seq<u8>, uri: Seq<u8>) -> Option<Option<HyperlinkView>> {
    if params.len() == 0 && uri.len() == 0 {
        Some(None)
    } else {
        match text_of(uri) {
            Some(uri) => match link_id_of(params) {
                Some(id) => match text_of(id) {
                    Some(id) => Some(Some(HyperlinkView { uri, id: Some(id), implicit: false })),
                    None => None,
                },
                None => Some(Some(HyperlinkView { uri, id: None, implicit: false })),
            },
            None => None,
        }
    }
}

/// What an operating system command is.
pub enum OscView {
    SetIconNameAndWindowTitle(Seq<char>),
    SetWindowTitle(Seq<char>),
    SetIconName(Seq<char>),
    SetHyperlink(Option<HyperlinkView>),
    ClearSelection(Selection),
    QuerySelection(Selection),
    SetSelection(Selection, Seq<char>),
    SystemNotification(Seq<char>),
    ChangeColorNumber(Seq<ChangeColorPair>),
    ChangeDynamicColors(DynamicColorNumber, Seq<ColorOrQuery>),
    Unspecified(Seq<Seq<u8>>),
}

/// A decoded operating system command.
#[derive(Debug)]
pub enum OperatingSystemCommand {
    SetIconNameAndWindowTitle(Vec<char>),
    SetWindowTitle(Vec<char>),
    SetIconName(Vec<char>),
    /// Set the hyperlink of the pen, or clear it.
    SetHyperlink(Option<Hyperlink>),
    ClearSelection(Selection),
    QuerySelection(Selection),
    /// Put this text on the clipboard.
    SetSelection(Selection, Vec<char>),
    SystemNotification(Vec<char>),
    /// Set or query entries of the palette.
    ChangeColorNumber(Vec<ChangeColorPair>),
    /// Set or query the dynamic colours, counting on from the first.
    ChangeDynamicColors(DynamicColorNumber, Vec<ColorOrQuery>),
    /// A command that stands for nothing known, as it came.
    Unspecified(Vec<Vec<u8>>),
}

impl View for OperatingSystemCommand {
    type V = OscView;

    open spec fn view(&self) -> OscView {
        match *self {
            OperatingSystemCommand::SetIconNameAndWindowTitle(t) => OscView::SetIconNameAndWindowTitle(
                t@,
            ),
            OperatingSystemCommand::SetWindowTitle(t) => OscView::SetWindowTitle(t@),
            OperatingSystemCommand::SetIconName(t) => OscView::SetIconName(t@),
            OperatingSystemCommand::SetHyperlink(link) => OscView::SetHyperlink(
                match link {
                    Some(l) => Some(l@),
                    None => None,
                },
            ),
            OperatingSystemCommand::ClearSelection(s) => OscView::ClearSelection(s),
            OperatingSystemCommand::QuerySelection(s) => OscView::QuerySelection(s),
            OperatingSystemCommand::SetSelection(s, t) => OscView::SetSelection(s, t@),
            OperatingSystemCommand::SystemNotification(t) => OscView::SystemNotification(t@),
            OperatingSystemCommand::ChangeColorNumber(pairs) => OscView::ChangeColorNumber(pairs@),
            OperatingSystemCommand::ChangeDynamicColors(first, colors) => OscView::ChangeDynamicColors(
                first,
                colors@,
            ),
            OperatingSystemCommand::Unspecified(raw) => OscView::Unspecified(views(raw@)),
        }
    }
}

/// The palette entries that the parameters from index `from` on name, two by two; a last
/// parameter without a partner is left out.
pub open spec fn color_pairs(osc: Seq<Seq<u8>>, from: int) -> Option<Seq<ChangeColorPair>>
    decreases osc.len() - from,
{
    if from < 0 || from + 1 >= osc.len() {
        Some(Seq::empty())
    } else {
        match (number_of(osc[from]), color_or_query_of(osc[from + 1])) {
            (Some(index), Some(color)) => if index <= 255 {
                match color_pairs(osc, from + 2) {
                    Some(rest) => Some(
                        seq![ChangeColorPair { palette_index: index as u8, color }] + rest,
                    ),
                    None => None,
                }
            } else {
                None
            },
            _ => None,
        }
    }
}

/// The colours or queries that the parameters from index `from` on name.
pub open spec fn color_list(osc: Seq<Seq<u8>>, from: int) -> Option<Seq<ColorOrQuery>>
    decreases osc.len() - from,
{
    if from < 0 || from >= osc.len() {
        Some(Seq::empty())
    } else {
        match color_or_query_of(osc[from]) {
            Some(color) => match color_list(osc, from + 1) {
                Some(rest) => Some(seq![color] + rest),
                None => None,
            },
            None => None,
        }
    }
}

/// The text of a command that takes exactly one text.
pub open spec fn single_text(osc: Seq<Seq<u8>>) -> Option<Seq<char>> {
    if osc.len() == 2 {
        text_of(osc[1])
    } else {
        None
    }
}

/// The selection command that the parameters of an OSC 52 name.
pub open spec fn selection_command(osc: Seq<Seq<u8>>) -> Option<OscView> {
    if osc.len() == 2 {
        match selection_of(osc[1]) {
            Some(s) => Some(OscView::ClearSelection(s)),
            None => None,
        }
    } else if osc.len() == 3 && osc[2] == seq![0x3fu8] {
        match selection_of(osc[1]) {
            Some(s) => Some(OscView::QuerySelection(s)),
            None => None,
        }
    } else if osc.len() == 3 {
        match selection_of(osc[1]) {
            Some(s) => match base64_decoded(osc[2]) {
                Some(bytes) => match text_of(bytes) {
                    Some(text) => Some(OscView::SetSelection(s, text)),
                    None => None,
                },
                None => None,
            },
            None => None,
        }
    } else {
        None
    }
}

/// The command that the parameters stand for, where they stand for a known one.
pub open spec fn known_command(osc: Seq<Seq<u8>>) -> Option<OscView> {
    if osc.len() == 0 {
        None
    } else {
        match number_of(osc[0]) {
            None => None,
            Some(code) => if code == 0 {
                match single_text(osc) {
                    Some(t) => Some(OscView::SetIconNameAndWindowTitle(t)),
                    None => None,
                }
            } else if code == 1 {
                match single_text(osc) {
                    Some(t) => Some(OscView::SetIconName(t)),
                    None => None,
                }
            } else if code == 2 {
                match single_text(osc) {
                    Some(t) => Some(OscView::SetWindowTitle(t)),
                    None => None,
                }
            } else if code == 4 {
                match color_pairs(osc, 1) {
                    Some(pairs) => Some(OscView::ChangeColorNumber(pairs)),
                    None => None,
                }
            } else if code == 8 {
                if osc.len() == 3 {
                    match hyperlink_of(osc[1], osc[2]) {
                        Some(link) => Some(OscView::SetHyperlink(link)),
                        None => None,
                    }
                } else {
                    None
                }
            } else if code == 9 {
                match single_text(osc) {
                    Some(t) => Some(OscView::SystemNotification(t)),
                    None => None,
                }
            } else if code == 52 {
                selection_command(osc)
            } else {
                match DynamicColorNumber::of(code) {
                    Some(first) => match color_list(osc, 1) {
                        Some(colors) => Some(OscView::ChangeDynamicColors(first, colors)),
                        None => None,
                    },
                    None => None,
                }
            },
        }
    }
}

/// The command that the parameters stand for; what is not understood is kept as it came.
pub open spec fn osc_decoded(osc: Seq<Seq<u8>>) -> OscView {
    match known_command(osc) {
        Some(command) => command,
        None => OscView::Unspecified(osc),
    }
}

fn parse_single_text(osc: &Vec<Vec<u8>>) -> (t: Option<Vec<char>>)
    ensures
        t is Some == single_text(views(osc@)) is Some,
        t matches Some(text) ==> text@ == single_text(views(osc@)).unwrap(),
{
    if osc.len() == 2 {
        decode_text(osc[1].as_slice())
    } else {
        None
    }
}

fn is_query(s: &[u8]) -> (b: bool)
    ensures
        b == (s@ == seq![0x3fu8]),
{
    let b = s.len() == 1 && s[0] == 0x3f;
    proof {
        if b {
            assert(s@ =~= seq![0x3fu8]);
        } else if s@ == seq![0x3fu8] {
            assert(s@.len() == 1 && s@[0] == 0x3f);
        }
    }
    b
}

fn parse_selection(osc: &Vec<Vec<u8>>) -> (c: Option<OperatingSystemCommand>)
    ensures
        c is Some == selection_command(views(osc@)) is Some,
        c matches Some(command) ==> command@ == selection_command(views(osc@)).unwrap(),
{
    if osc.len() == 2 {
        match Selection::try_parse(osc[1].as_slice()) {
            Some(s) => Some(OperatingSystemCommand::ClearSelection(s)),
            None => None,
        }
    } else if osc.len() == 3 && is_query(osc[2].as_slice()) {
        match Selection::try_parse(osc[1].as_slice()) {
            Some(s) => Some(OperatingSystemCommand::QuerySelection(s)),
            None => None,
        }
    } else if osc.len() == 3 {
        match Selection::try_parse(osc[1].as_slice()) {
            Some(s) => match decode_base64(osc[2].as_slice()) {
                Some(bytes) => match decode_text(bytes.as_slice()) {
                    Some(text) => Some(OperatingSystemCommand::SetSelection(s, text)),
                    None => None,
                },
                None => None,
            },
            None => None,
        }
    } else {
        None
    }
}

fn find_byte(s: &[u8], b: u8, from: usize) -> (i: usize)
    requires
        from <= s@.len(),
    ensures
        i == index_of(s@, b, from as int),
        from <= i <= s@.len(),
{
    let mut i = from;
    while i < s.len() && s[i] != b
        invariant
            from <= i <= s.len(),
            index_of(s@, b, i as int) == index_of(s@, b, from as int),
        decreases s.len() - i,
    {
        i = i + 1;
    }
    i
}

fn slice_copy(s: &[u8], from: usize, to: usize) -> (copy: Vec<u8>)
    requires
        from <= to <= s@.len(),
    ensures
        copy@ == s@.subrange(from as int, to as int),
{
    let mut copy: Vec<u8> = Vec::new();
    let mut i: usize = from;
    while i < to
        invariant
            from <= i <= to <= s.len(),
            copy@ == s@.subrange(from as int, i as int),
        decreases to - i,
    {
        copy.push(s[i]);
        assert(copy@ =~= s@.subrange(from as int, i + 1));
        i = i + 1;
    }
    copy
}

fn parse_hyperlink(params: &[u8], uri: &[u8]) -> (link: Option<Option<Hyperlink>>)
    ensures
        link is Some == hyperlink_of(params@, uri@) is Some,
        link matches Some(l) ==> (l is Some == hyperlink_of(params@, uri@).unwrap() is Some),
        link matches Some(Some(l)) ==> l@ == hyperlink_of(params@, uri@).unwrap().unwrap(),
{
    if params.len() == 0 && uri.len() == 0 {
        return Some(None);
    }
    match decode_text(uri) {
        Some(uri) => {
            if params.len() >= 3 && params[0] == 0x69 && params[1] == 0x64 && params[2] == 0x3d {
                let end = find_byte(params, 0x3a, 3);
                let id = slice_copy(params, 3, end);
                match decode_text(id.as_slice()) {
                    Some(id) => Some(Some(Hyperlink::new(uri, Some(id)))),
                    None => None,
                }
            } else {
                Some(Some(Hyperlink::new(uri, None)))
            }
        },
        None => None,
    }
}

fn parse_color_pairs(osc: &Vec<Vec<u8>>) -> (pairs: Option<Vec<ChangeColorPair>>)
    ensures
        pairs is Some == color_pairs(views(osc@), 1) is Some,
        pairs matches Some(p) ==> p@ == color_pairs(views(osc@), 1).unwrap(),
{
    let mut pairs: Vec<ChangeColorPair> = Vec::new();
    let mut i: usize = 1;
    while i < osc.len() && i + 1 < osc.len()
        invariant
            1 <= i,
            color_pairs(views(osc@), 1) is Some == color_pairs(views(osc@), i as int) is Some,
            color_pairs(views(osc@), i as int) matches Some(rest) ==> color_pairs(views(osc@), 1)
                == Some(pairs@ + rest),
        decreases osc.len() - i,
    {
        let ghost before = pairs@;
        match (parse_number(osc[i].as_slice()), parse_color_or_query(osc[i + 1].as_slice())) {
            (Some(index), Some(color)) => {
                if index <= 255 {
                    let pair = ChangeColorPair { palette_index: index as u8, color };
                    pairs.push(pair);
                    proof {
                        match color_pairs(views(osc@), i + 2) {
                            Some(rest) => {
                                assert(before + (seq![pair] + rest) =~= before.push(pair) + rest);
                            },
                            None => {},
                        }
                    }
                } else {
                    return None;
                }
            },
            _ => {
                return None;
            },
        }
        i = i + 2;
    }
    proof {
        assert(pairs@ + Seq::<ChangeColorPair>::empty() =~= pairs@);
    }
    Some(pairs)
}

fn parse_color_list(osc: &Vec<Vec<u8>>) -> (colors: Option<Vec<ColorOrQuery>>)
    ensures
        colors is Some == color_list(views(osc@), 1) is Some,
        colors matches Some(c) ==> c@ == color_list(views(osc@), 1).unwrap(),
{
    let mut colors: Vec<ColorOrQuery> = Vec::new();
    let mut i: usize = 1;
    while i < osc.len()
        invariant
            1 <= i,
            color_list(views(osc@), 1) is Some == color_list(views(osc@), i as int) is Some,
            color_list(views(osc@), i as int) matches Some(rest) ==> color_list(views(osc@), 1)
                == Some(colors@ + rest),
        decreases osc.len() - i,
    {
        let ghost before = colors@;
        match parse_color_or_query(osc[i].as_slice()) {
            Some(color) => {
                colors.push(color);
                proof {
                    match color_list(views(osc@), i + 1) {
                        Some(rest) => {
                            assert(before + (seq![color] + rest) =~= before.push(color) + rest);
                        },
                        None => {},
                    }
                }
            },
            None => {
                return None;
            },
        }
        i = i + 1;
    }
    proof {
        assert(colors@ + Seq::<ColorOrQuery>::empty() =~= colors@);
    }
    Some(colors)
}

fn parse_known(osc: &Vec<Vec<u8>>) -> (c: Option<OperatingSystemCommand>)
    ensures
        c is Some == known_command(views(osc@)) is Some,
        c matches Some(command) ==> command@ == known_command(views(osc@)).unwrap(),
{
    if osc.len() == 0 {
        return None;
    }
    match parse_number(osc[0].as_slice()) {
        None => None,
        Some(code) => {
            if code == 0 {
                match parse_single_text(osc) {
                    Some(t) => Some(OperatingSystemCommand::SetIconNameAndWindowTitle(t)),
                    None => None,
                }
            } else if code == 1 {
                match parse_single_text(osc) {
                    Some(t) => Some(OperatingSystemCommand::SetIconName(t)),
                    None => None,
                }
            } else if code == 2 {
                match parse_single_text(osc) {
                    Some(t) => Some(OperatingSystemCommand::SetWindowTitle(t)),
                    None => None,
                }
            } else if code == 4 {
                match parse_color_pairs(osc) {
                    Some(pairs) => Some(OperatingSystemCommand::ChangeColorNumber(pairs)),
                    None => None,
                }
            } else if code == 8 {
                if osc.len() == 3 {
                    match parse_hyperlink(osc[1].as_slice(), osc[2].as_slice()) {
                        Some(link) => Some(OperatingSystemCommand::SetHyperlink(link)),
                        None => None,
                    }
                } else {
                    None
                }
            } else if code == 9 {
                match parse_single_text(osc) {
                    Some(t) => Some(OperatingSystemCommand::SystemNotification(t)),
                    None => None,
                }
            } else if code == 52 {
                parse_selection(osc)
            } else if 10 <= code && code <= 19 {
                match DynamicColorNumber::from_u8(code as u8) {
                    Some(first) => match parse_color_list(osc) {
                        Some(colors) => Some(OperatingSystemCommand::ChangeDynamicColors(first, colors)),
                        None => None,
                    },
                    None => None,
                }
            } else {
                None
            }
        },
    }
}

/// A copy of a list of byte strings.
pub fn copy_byte_strings(list: &Vec<Vec<u8>>) -> (copy: Vec<Vec<u8>>)
    ensures
        views(copy@) == views(list@),
{
    let mut copy: Vec<Vec<u8>> = Vec::new();
    let mut i: usize = 0;
    assert(views(copy@) =~= views(list@).subrange(0, 0));
    while i < list.len()
        invariant
            i <= list.len(),
            views(copy@) == views(list@).subrange(0, i as int),
        decreases list.len() - i,
    {
        let item = copy_bytes(list[i].as_slice());
        proof {
            lemma_views_push(copy@, item);
        }
        copy.push(item);
        assert(views(copy@) =~= views(list@).subrange(0, i + 1));
        i = i + 1;
    }
    assert(views(list@).subrange(0, list.len() as int) =~= views(list@));
    copy
}

impl OperatingSystemCommand {
    /// Decodes an operating system command from its parameters.
    pub fn parse(osc: &Vec<Vec<u8>>) -> (command: OperatingSystemCommand)
        ensures
            command@ == osc_decoded(views(osc@)),
    {
        match parse_known(osc) {
            Some(command) => command,
            None => OperatingSystemCommand::Unspecified(copy_byte_strings(osc)),
        }
    }
}

} // verus!
