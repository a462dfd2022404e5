//! The byte sequences that drive the terminal.
//!
//! Each control sequence is stated here as a function to `Seq<u8>`. The
//! bytes themselves are produced by `crossterm`, whose commands are called
//! through the trusted functions at the end of this file.

use vstd::prelude::*;
use vstd::utf8::encode_utf8;
use crossterm::Command;
use crossterm::cursor::{Hide, MoveDown, MoveTo, MoveToColumn, MoveUp, Show};
use crossterm::style::Print;
use crossterm::terminal::{Clear, ClearType};

verus! {

/// The ASCII digit for `d`, where `d` is below ten.
pub open spec fn digit(d: nat) -> u8 {
    (0x30 + d) as u8
}

/// `n` in decimal: most significant digit first, no sign and no leading
/// zero; a single `0` for zero.
pub open spec fn decimal(n: nat) -> Seq<u8>
    decreases n,
{
    if n < 10 {
        seq![digit(n)]
    } else {
        decimal(n / 10).push(digit(n % 10))
    }
}

/// A control sequence: the introducer `ESC [`, the parameters, and the
/// byte that names the function.
pub open spec fn csi(params: Seq<u8>, function: u8) -> Seq<u8> {
    seq![0x1Bu8, 0x5Bu8] + params + seq![function]
}

/// Cursor up by `n` rows: `ESC [ n A`.
pub open spec fn spec_move_up(n: u16) -> Seq<u8> {
    csi(decimal(n as nat), 0x41)
}

/// Cursor down by `n` rows: `ESC [ n B`.
pub open spec fn spec_move_down(n: u16) -> Seq<u8> {
    csi(decimal(n as nat), 0x42)
}

/// Cursor to column `x` of the current row: `ESC [ x+1 G`. Columns are
/// counted from zero here and from one on the wire.
pub open spec fn spec_move_to_column(x: u16) -> Seq<u8> {
    csi(decimal((x + 1) as nat), 0x47)
}

/// Cursor to column `x` of row `y`: `ESC [ y+1 ; x+1 H`. Both are counted
/// from zero here and from one on the wire, the row first.
pub open spec fn spec_move_to(x: u16, y: u16) -> Seq<u8> {
    csi(decimal((y + 1) as nat) + seq![0x3Bu8] + decimal((x + 1) as nat), 0x48)
}

/// Erase from the cursor to the end of its line: `ESC [ K`.
pub open spec fn spec_clear_until_new_line() -> Seq<u8> {
    csi(Seq::empty(), 0x4B)
}

/// Hide the cursor: `ESC [ ? 2 5 l`.
pub open spec fn spec_hide_cursor() -> Seq<u8> {
    csi(seq![0x3Fu8, 0x32u8, 0x35u8], 0x6C)
}

/// Show the cursor: `ESC [ ? 2 5 h`.
pub open spec fn spec_show_cursor() -> Seq<u8> {
    csi(seq![0x3Fu8, 0x32u8, 0x35u8], 0x68)
}

/// Text as it goes to the terminal: its UTF-8 encoding.
pub open spec fn spec_print(text: Seq<char>) -> Seq<u8> {
    encode_utf8(text)
}

/// Runs `crossterm::cursor::MoveUp(n)` through `Command::write_ansi`.
///
/// Trusted: the command formats `ESC [`, then `n` in decimal, then `A`.
/// The sink is a `String`, which takes every write, so nothing is left out.
#[verifier::external_body]
pub(crate) fn move_up(n: u16) -> (bytes: Vec<u8>)
    ensures
        bytes@ == spec_move_up(n),
{
    let mut text = String::new();
    let _ = MoveUp(n).write_ansi(&mut text);
    text.into_bytes()
}

/// Runs `crossterm::cursor::MoveDown(n)` through `Command::write_ansi`.
///
/// Trusted: the command formats `ESC [`, then `n` in decimal, then `B`.
#[verifier::external_body]
pub(crate) fn move_down(n: u16) -> (bytes: Vec<u8>)
    ensures
        bytes@ == spec_move_down(n),
{
    let mut text = String::new();
    let _ = MoveDown(n).write_ansi(&mut text);
    text.into_bytes()
}

/// Runs `crossterm::cursor::MoveToColumn(x)` through `Command::write_ansi`.
///
/// Trusted: the command formats `ESC [`, then `x + 1` in decimal, then `G`.
/// It computes `x + 1` in `u16`, so the last column number is left out.
#[verifier::external_body]
pub(crate) fn move_to_column(x: u16) -> (bytes: Vec<u8>)
    requires
        x < u16::MAX,
    ensures
        bytes@ == spec_move_to_column(x),
{
    let mut text = String::new();
    let _ = MoveToColumn(x).write_ansi(&mut text);
    text.into_bytes()
}

/// Runs `crossterm::cursor::MoveTo(x, y)` through `Command::write_ansi`.
///
/// Trusted: the command formats `ESC [`, then `y + 1` in decimal, `;`,
/// `x + 1` in decimal, then `H`. It computes both sums in `u16`, so the last
/// column and row numbers are left out.
#[verifier::external_body]
pub(crate) fn move_to(x: u16, y: u16) -> (bytes: Vec<u8>)
    requires
        x < u16::MAX,
        y < u16::MAX,
    ensures
        bytes@ == spec_move_to(x, y),
{
    let mut text = String::new();
    let _ = MoveTo(x, y).write_ansi(&mut text);
    text.into_bytes()
}

/// Runs `crossterm::terminal::Clear(ClearType::UntilNewLine)` through
/// `Command::write_ansi`.
///
/// Trusted: the command writes `ESC [ K`.
#[verifier::external_body]
pub(crate) fn clear_until_new_line() -> (bytes: Vec<u8>)
    ensures
        bytes@ == spec_clear_until_new_line(),
{
    let mut text = String::new();
    let _ = Clear(ClearType::UntilNewLine).write_ansi(&mut text);
    text.into_bytes()
}

/// Runs `crossterm::cursor::Hide` through `Command::write_ansi`.
///
/// Trusted: the command writes `ESC [ ? 2 5 l`.
#[verifier::external_body]
pub(crate) fn hide_cursor() -> (bytes: Vec<u8>)
    ensures
        bytes@ == spec_hide_cursor(),
{
    let mut text = String::new();
    let _ = Hide.write_ansi(&mut text);
    text.into_bytes()
}

/// Runs `crossterm::cursor::Show` through `Command::write_ansi`.
///
/// Trusted: the command writes `ESC [ ? 2 5 h`.
#[verifier::external_body]
pub(crate) fn show_cursor() -> (bytes: Vec<u8>)
    ensures
        bytes@ == spec_show_cursor(),
{
    let mut text = String::new();
    let _ = Show.write_ansi(&mut text);
    text.into_bytes()
}

/// Runs `crossterm::style::Print(text)` through `Command::write_ansi`.
///
/// Trusted: the command writes `text` as it is, so the bytes are its UTF-8
/// encoding.
#[verifier::external_body]
pub(crate) fn print(text: &str) -> (bytes: Vec<u8>)
    ensures
        bytes@ == spec_print(text@),
{
    let mut out = String::new();
    let _ = Print(text).write_ansi(&mut out);
    out.into_bytes()
}

} // verus!
