//! The byte strings the terminal sends to the child process.

use crate::cell::RgbColor;
use crate::fmt::decimal;
use crate::fmt::hex2;
use crate::fmt::hex4;
use crate::fmt::push_decimal;
use crate::fmt::push_hex2;
use crate::fmt::push_hex4;
use crate::fmt::push_signed;
use crate::fmt::signed_decimal;
use vstd::prelude::*;

verus! {

/// The reply to a request for primary device attributes.
pub open spec fn device_ident() -> Seq<u8> {
    seq![0x1bu8, 0x5b, 0x3f, 0x36, 0x63]
}

/// The reply to a request for secondary device attributes.
pub open spec fn secondary_ident() -> Seq<u8> {
    seq![0x1bu8, 0x5b, 0x3e, 0x30, 0x3b, 0x30, 0x3b, 0x30, 0x63]
}

/// The reply to a status request: the terminal is ready.
pub open spec fn status_ok() -> Seq<u8> {
    seq![0x1bu8, 0x5b, 0x30, 0x6e]
}

/// The report of the cursor's position: `ESC [ line ; col R`, both counted from one.
pub open spec fn position_report(line: u32, col: u32) -> Seq<u8> {
    seq![0x1bu8, 0x5b] + decimal(line as nat) + seq![0x3bu8] + decimal(col as nat) + seq![0x52u8]
}

/// The report of the size of the text area in cells: `ESC [ 8 ; rows ; cols t`.
pub open spec fn size_report(rows: usize, cols: usize) -> Seq<u8> {
    seq![0x1bu8, 0x5b, 0x38, 0x3b] + decimal(rows as nat) + seq![0x3bu8] + decimal(cols as nat)
        + seq![0x74u8]
}

/// The report of a rectangle's checksum: `ESC P id ! ~ hhhh ESC \`.
pub open spec fn checksum_report(request_id: i64, checksum: u16) -> Seq<u8> {
    seq![0x1bu8, 0x50] + signed_decimal(request_id as int) + seq![0x21u8, 0x7e] + hex4(checksum)
        + seq![0x1bu8, 0x5c]
}

/// A mouse report in the SGR form: `ESC [ < button ; x ; y M`, or `m` for a release.
pub open spec fn mouse_report(button: u8, x: nat, y: nat, release: bool) -> Seq<u8> {
    seq![0x1bu8, 0x5b, 0x3c] + decimal(button as nat) + seq![0x3bu8] + decimal(x) + seq![0x3bu8]
        + decimal(y) + seq![if release { 0x6du8 } else { 0x4du8 }]
}

/// What marks the start of a bracketed paste.
pub open spec fn paste_start() -> Seq<u8> {
    seq![0x1bu8, 0x5b, 0x32, 0x30, 0x30, 0x7e]
}

/// What marks the end of a bracketed paste.
pub open spec fn paste_end() -> Seq<u8> {
    seq![0x1bu8, 0x5b, 0x32, 0x30, 0x31, 0x7e]
}

/// A colour in the form `rgb:rrrr/gggg/bbbb`, each part written twice over.
pub open spec fn color_text(c: RgbColor) -> Seq<u8> {
    seq![0x72u8, 0x67, 0x62, 0x3a] + hex2(c.red) + hex2(c.red) + seq![0x2fu8] + hex2(c.green)
        + hex2(c.green) + seq![0x2fu8] + hex2(c.blue) + hex2(c.blue)
}

/// The report of a palette colour: `ESC ] 4 ; index ; colour ESC \`.
pub open spec fn palette_report(index: u8, c: RgbColor) -> Seq<u8> {
    seq![0x1bu8, 0x5d, 0x34, 0x3b] + decimal(index as nat) + seq![0x3bu8] + color_text(c) + seq![
        0x1bu8,
        0x5c,
    ]
}

/// The report of a dynamic colour: `ESC ] number ; colour ESC \`.
pub open spec fn dynamic_color_report(number: u8, c: RgbColor) -> Seq<u8> {
    seq![0x1bu8, 0x5d] + decimal(number as nat) + seq![0x3bu8] + color_text(c) + seq![0x1bu8, 0x5c]
}

/// The reply to a request for primary device attributes.
pub fn encode_device_ident() -> (out: Vec<u8>)
    ensures
        out@ == device_ident(),
{
    let mut out: Vec<u8> = Vec::new();
    out.push(0x1b);
    out.push(0x5b);
    out.push(0x3f);
    out.push(0x36);
    out.push(0x63);
    assert(out@ =~= device_ident());
    out
}

/// The reply to a request for secondary device attributes.
pub fn encode_secondary_ident() -> (out: Vec<u8>)
    ensures
        out@ == secondary_ident(),
{
    let mut out: Vec<u8> = Vec::new();
    out.push(0x1b);
    out.push(0x5b);
    out.push(0x3e);
    out.push(0x30);
    out.push(0x3b);
    out.push(0x30);
    out.push(0x3b);
    out.push(0x30);
    out.push(0x63);
    assert(out@ =~= secondary_ident());
    out
}

/// The reply to a status request.
pub fn encode_status_ok() -> (out: Vec<u8>)
    ensures
        out@ == status_ok(),
{
    let mut out: Vec<u8> = Vec::new();
    out.push(0x1b);
    out.push(0x5b);
    out.push(0x30);
    out.push(0x6e);
    assert(out@ =~= status_ok());
    out
}

/// The report of the cursor's position.
pub fn encode_position_report(line: u32, col: u32) -> (out: Vec<u8>)
    ensures
        out@ == position_report(line, col),
{
    let mut out: Vec<u8> = Vec::new();
    out.push(0x1b);
    out.push(0x5b);
    assert(out@ =~= seq![0x1bu8, 0x5b]);
    push_decimal(&mut out, line as u64);
    out.push(0x3b);
    push_decimal(&mut out, col as u64);
    out.push(0x52);
    assert(out@ =~= position_report(line, col));
    out
}

/// The report of the size of the text area in cells.
pub fn encode_size_report(rows: usize, cols: usize) -> (out: Vec<u8>)
    ensures
        out@ == size_report(rows, cols),
{
    let mut out: Vec<u8> = Vec::new();
    out.push(0x1b);
    out.push(0x5b);
    out.push(0x38);
    out.push(0x3b);
    assert(out@ =~= seq![0x1bu8, 0x5b, 0x38, 0x3b]);
    push_decimal(&mut out, rows as u64);
    out.push(0x3b);
    push_decimal(&mut out, cols as u64);
    out.push(0x74);
    assert(out@ =~= size_report(rows, cols));
    out
}

/// The report of a rectangle's checksum.
pub fn encode_checksum_report(request_id: i64, checksum: u16) -> (out: Vec<u8>)
    ensures
        out@ == checksum_report(request_id, checksum),
{
    let mut out: Vec<u8> = Vec::new();
    out.push(0x1b);
    out.push(0x50);
    assert(out@ =~= seq![0x1bu8, 0x50]);
    push_signed(&mut out, request_id);
    out.push(0x21);
    out.push(0x7e);
    push_hex4(&mut out, checksum);
    out.push(0x1b);
    out.push(0x5c);
    assert(out@ =~= checksum_report(request_id, checksum));
    out
}

/// A mouse report in the SGR form.
pub fn encode_mouse_report(button: u8, x: usize, y: usize, release: bool) -> (out: Vec<u8>)
    ensures
        out@ == mouse_report(button, x as nat, y as nat, release),
{
    let mut out: Vec<u8> = Vec::new();
    out.push(0x1b);
    out.push(0x5b);
    out.push(0x3c);
    assert(out@ =~= seq![0x1bu8, 0x5b, 0x3c]);
    push_decimal(&mut out, button as u64);
    out.push(0x3b);
    push_decimal(&mut out, x as u64);
    out.push(0x3b);
    push_decimal(&mut out, y as u64);
    out.push(if release { 0x6d } else { 0x4d });
    assert(out@ =~= mouse_report(button, x as nat, y as nat, release));
    out
}

fn push_color_text(out: &mut Vec<u8>, c: RgbColor)
    ensures
        final(out)@ == old(out)@ + color_text(c),
{
    out.push(0x72);
    out.push(0x67);
    out.push(0x62);
    out.push(0x3a);
    push_hex2(out, c.red);
    push_hex2(out, c.red);
    out.push(0x2f);
    push_hex2(out, c.green);
    push_hex2(out, c.green);
    out.push(0x2f);
    push_hex2(out, c.blue);
    push_hex2(out, c.blue);
    assert(out@ =~= old(out)@ + color_text(c));
}

/// The report of a palette colour.
pub fn encode_palette_report(index: u8, c: RgbColor) -> (out: Vec<u8>)
    ensures
        out@ == palette_report(index, c),
{
    let mut out: Vec<u8> = Vec::new();
    out.push(0x1b);
    out.push(0x5d);
    out.push(0x34);
    out.push(0x3b);
    assert(out@ =~= seq![0x1bu8, 0x5d, 0x34, 0x3b]);
    push_decimal(&mut out, index as u64);
    out.push(0x3b);
    push_color_text(&mut out, c);
    out.push(0x1b);
    out.push(0x5c);
    assert(out@ =~= palette_report(index, c));
    out
}

/// The report of a dynamic colour.
pub fn encode_dynamic_color_report(number: u8, c: RgbColor) -> (out: Vec<u8>)
    ensures
        out@ == dynamic_color_report(number, c),
{
    let mut out: Vec<u8> = Vec::new();
    out.push(0x1b);
    out.push(0x5d);
    assert(out@ =~= seq![0x1bu8, 0x5d]);
    push_decimal(&mut out, number as u64);
    out.push(0x3b);
    push_color_text(&mut out, c);
    out.push(0x1b);
    out.push(0x5c);
    assert(out@ =~= dynamic_color_report(number, c));
    out
}

} // verus!
