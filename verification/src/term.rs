//! Trusted bridge to the terminal-control crate: each function returns one
//! escape sequence as a `String`, with its exact text stated in the contract.
//! The texts are pinned by the spec functions in [`crate::render`].

use vstd::prelude::*;
use crate::render::{bg_reset_seq, bg_yellow_seq, clear_all_seq, fg_black_seq, fg_reset_seq,
    goto_seq, hide_seq, show_seq};

verus! {

/// Relies on `String::push`: appends the given character to the end of the
/// string.
#[verifier::external_body]
pub(crate) fn push_char(s: &mut String, c: char)
    ensures
        final(s)@ == old(s)@ + seq![c],
{
    s.push(c);
}

/// Relies on `termion::cursor::Goto`'s `Display` impl: writes
/// `ESC [ row ; col H`, both numbers in decimal. `Goto` is 1-based and
/// asserts against `(0, 0)`, so both arguments are required to be positive.
#[verifier::external_body]
pub(crate) fn term_goto(x: u16, y: u16) -> (r: String)
    requires
        x >= 1,
        y >= 1,
    ensures
        r@ == goto_seq(x, y),
{
    format!("{}", termion::cursor::Goto(x, y))
}

/// Relies on `termion::cursor::Hide`'s `Display` impl: writes `ESC [ ? 2 5 l`.
#[verifier::external_body]
pub(crate) fn term_hide() -> (r: String)
    ensures
        r@ == hide_seq(),
{
    format!("{}", termion::cursor::Hide)
}

/// Relies on `termion::cursor::Show`'s `Display` impl: writes `ESC [ ? 2 5 h`.
#[verifier::external_body]
pub(crate) fn term_show() -> (r: String)
    ensures
        r@ == show_seq(),
{
    format!("{}", termion::cursor::Show)
}

/// Relies on `termion::clear::All`'s `Display` impl: writes `ESC [ 2 J`.
#[verifier::external_body]
pub(crate) fn term_clear_all() -> (r: String)
    ensures
        r@ == clear_all_seq(),
{
    format!("{}", termion::clear::All)
}

/// Relies on `termion::color::Yellow::bg_str`, the constant
/// `ESC [ 4 8 ; 5 ; 3 m` (yellow is ANSI color 3).
#[verifier::external_body]
pub(crate) fn term_bg_yellow() -> (r: String)
    ensures
        r@ == bg_yellow_seq(),
{
    termion::color::Yellow.bg_str().to_owned()
}

/// Relies on `termion::color::Reset::bg_str`, the constant `ESC [ 4 9 m`.
#[verifier::external_body]
pub(crate) fn term_bg_reset() -> (r: String)
    ensures
        r@ == bg_reset_seq(),
{
    termion::color::Reset.bg_str().to_owned()
}

/// Relies on `termion::color::Black::fg_str`, the constant
/// `ESC [ 3 8 ; 5 ; 0 m` (black is ANSI color 0).
#[verifier::external_body]
pub(crate) fn term_fg_black() -> (r: String)
    ensures
        r@ == fg_black_seq(),
{
    termion::color::Black.fg_str().to_owned()
}

/// Relies on `termion::color::Reset::fg_str`, the constant `ESC [ 3 9 m`.
#[verifier::external_body]
pub(crate) fn term_fg_reset() -> (r: String)
    ensures
        r@ == fg_reset_seq(),
{
    termion::color::Reset.fg_str().to_owned()
}

} // verus!
