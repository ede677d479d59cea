//! Text measurement and segmentation, delegated to the Unicode crates.

use unicode_segmentation::UnicodeSegmentation;
use unicode_width::UnicodeWidthStr;
use crate::views::views;
use vstd::prelude::*;

verus! {

/// The number of columns `UnicodeWidthStr::width` reports for a text.
pub uninterp spec fn str_width(text: Seq<char>) -> usize;

/// The extended grapheme clusters `UnicodeSegmentation::graphemes` splits a text into.
pub uninterp spec fn graphemes_of(text: Seq<char>) -> Seq<Seq<char>>;

/// The columns a cell holding `text` occupies on screen: the reported width, kept within one
/// or two columns.
pub open spec fn cell_width(text: Seq<char>) -> usize {
    if str_width(text) < 1 {
        1
    } else if str_width(text) > 2 {
        2
    } else {
        str_width(text)
    }
}

/// `UnicodeWidthStr::width` on the string made of `text`: the displayed width in columns.
/// The width is a function of the characters alone.
#[verifier::external_body]
pub(crate) fn reported_width(text: &Vec<char>) -> (w: usize)
    ensures
        w == str_width(text@),
{
    let s: String = text.iter().collect();
    UnicodeWidthStr::width(s.as_str())
}

/// `UnicodeSegmentation::graphemes` (extended) on the string made of `text`: its grapheme
/// clusters in order. The segmentation is a function of the characters alone.
#[verifier::external_body]
pub(crate) fn split_graphemes(text: &Vec<char>) -> (clusters: Vec<Vec<char>>)
    ensures
        views(clusters@) == graphemes_of(text@),
{
    let s: String = text.iter().collect();
    s.graphemes(true).map(|g| g.chars().collect()).collect()
}

/// `String::from_iter` over characters: the string that holds exactly these characters.
#[verifier::external_body]
pub(crate) fn string_of(text: &Vec<char>) -> (s: String)
    ensures
        s@ == text@,
{
    String::from_iter(text.iter())
}

/// The number of bytes of a character in UTF-8.
pub open spec fn char_len(c: char) -> int {
    if (c as u32) < 0x80 {
        1
    } else if (c as u32) < 0x800 {
        2
    } else if (c as u32) < 0x10000 {
        3
    } else {
        4
    }
}

/// The number of bytes of the first `upto` characters of a text in UTF-8.
pub open spec fn text_bytes(text: Seq<char>, upto: int) -> int
    decreases upto,
{
    if upto <= 0 {
        0
    } else {
        text_bytes(text, upto - 1) + char_len(text[upto - 1])
    }
}

/// The number of bytes of a text in UTF-8, if it fits the machine's word.
pub fn byte_len(text: &Vec<char>) -> (n: Option<usize>)
    ensures
        n is Some == (text_bytes(text@, text@.len() as int) <= usize::MAX),
        n matches Some(v) ==> v == text_bytes(text@, text@.len() as int),
        text_bytes(text@, text@.len() as int) >= 0,
{
    let mut n: usize = 0;
    let mut i: usize = 0;
    while i < text.len()
        invariant
            i <= text.len(),
            n == text_bytes(text@, i as int),
        decreases text.len() - i,
    {
        let v = text[i] as u32;
        let len: usize = if v < 0x80 {
            1
        } else if v < 0x800 {
            2
        } else if v < 0x10000 {
            3
        } else {
            4
        };
        if n > usize::MAX - len {
            proof {
                lemma_text_bytes_grows(text@, i + 1, text@.len() as int);
            }
            return None;
        }
        n = n + len;
        i = i + 1;
    }
    Some(n)
}

/// The bytes of a longer part of a text are no fewer.
pub proof fn lemma_text_bytes_grows(text: Seq<char>, a: int, b: int)
    requires
        0 <= a <= b,
    ensures
        0 <= text_bytes(text, a) <= text_bytes(text, b),
    decreases b,
{
    if a < b {
        lemma_text_bytes_grows(text, a, b - 1);
    } else if a > 0 {
        lemma_text_bytes_grows(text, a - 1, a - 1);
        lemma_text_bytes_grows(text, 0, a - 1);
    }
}

/// The columns a cell holding `text` occupies.
pub fn display_width(text: &Vec<char>) -> (w: usize)
    ensures
        w == cell_width(text@),
        1 <= w <= 2,
{
    let w = reported_width(text);
    if w < 1 {
        1
    } else if w > 2 {
        2
    } else {
        w
    }
}

/// The characters of a string slice, in order.
pub fn chars_of(s: &str) -> (text: Vec<char>)
    ensures
        text@ == s@,
{
    let n = s.unicode_len();
    let mut text: Vec<char> = Vec::new();
    let mut i: usize = 0;
    while i < n
        invariant
            n == s@.len(),
            i <= n,
            text@ == s@.subrange(0, i as int),
        decreases n - i,
    {
        let c = s.get_char(i);
        text.push(c);
        assert(text@ =~= s@.subrange(0, i + 1));
        i = i + 1;
    }
    assert(s@.subrange(0, n as int) =~= s@);
    text
}

/// A copy of a text.
pub fn copy_text(text: &Vec<char>) -> (copy: Vec<char>)
    ensures
        copy@ == text@,
{
    let mut copy: Vec<char> = Vec::new();
    let mut i: usize = 0;
    while i < text.len()
        invariant
            i <= text.len(),
            copy@ == text@.subrange(0, i as int),
        decreases text.len() - i,
    {
        copy.push(text[i]);
        assert(copy@ =~= text@.subrange(0, i + 1));
        i = i + 1;
    }
    assert(text@.subrange(0, text.len() as int) =~= text@);
    copy
}

} // verus!
