//! The text the front-end sends to the terminal: decimal coordinate fields,
//! the `"(col,row)"` status text, and the full escape-sequence strings that
//! clear the screen and paint the mode line.
//!
//! Every control sequence is pinned down as a `Seq<char>`, so the contracts
//! state the emitted text character by character.

use vstd::prelude::*;
use crate::cursor::{Coordinate, Cursor};
use crate::term::{push_char, term_bg_reset, term_bg_yellow, term_clear_all, term_fg_black,
    term_fg_reset, term_goto, term_hide, term_show};
use vstd::string::StringExecFns;

verus! {

/// The control sequence introducer `ESC [` that starts every sequence here.
pub open spec fn csi_seq() -> Seq<char> {
    seq!['\u{1b}', '[']
}

/// The decimal digit character for `d` (`d < 10`; larger values are mapped
/// to `'9'` so the function stays total).
pub open spec fn digit_char(d: nat) -> char {
    if d == 0 {
        '0'
    } else if d == 1 {
        '1'
    } else if d == 2 {
        '2'
    } else if d == 3 {
        '3'
    } else if d == 4 {
        '4'
    } else if d == 5 {
        '5'
    } else if d == 6 {
        '6'
    } else if d == 7 {
        '7'
    } else if d == 8 {
        '8'
    } else {
        '9'
    }
}

/// `n` written in decimal, most significant digit first, no leading zeros
/// (and `0` written as `"0"`), as Rust's integer formatting writes it.
pub open spec fn dec_seq(n: nat) -> Seq<char>
    decreases n,
{
    if n < 10 {
        seq![digit_char(n)]
    } else {
        dec_seq(n / 10) + seq![digit_char(n % 10)]
    }
}

/// `n` spaces.
pub open spec fn spaces_seq(n: nat) -> Seq<char> {
    Seq::new(n, |i: int| ' ')
}

/// `s` right-aligned in a field of width 3; longer texts are kept whole.
pub open spec fn pad3(s: Seq<char>) -> Seq<char> {
    if s.len() >= 3 {
        s
    } else {
        spaces_seq((3 - s.len()) as nat) + s
    }
}

/// The status text `(col,row)`, both fields right-aligned to 3 characters.
pub open spec fn status_text_seq(x: u16, y: u16) -> Seq<char> {
    seq!['('] + pad3(dec_seq(x as nat)) + seq![','] + pad3(dec_seq(y as nat)) + seq![')']
}

/// `ESC [ y ; x H`: place the hardware cursor at column `x`, row `y`.
pub open spec fn goto_seq(x: u16, y: u16) -> Seq<char> {
    csi_seq() + dec_seq(y as nat) + seq![';'] + dec_seq(x as nat) + seq!['H']
}

/// `ESC [ ? 2 5 l`: hide the hardware cursor.
pub open spec fn hide_seq() -> Seq<char> {
    csi_seq() + seq!['?', '2', '5', 'l']
}

/// `ESC [ ? 2 5 h`: show the hardware cursor.
pub open spec fn show_seq() -> Seq<char> {
    csi_seq() + seq!['?', '2', '5', 'h']
}

/// `ESC [ 2 J`: clear the whole screen.
pub open spec fn clear_all_seq() -> Seq<char> {
    csi_seq() + seq!['2', 'J']
}

/// `ESC [ 4 8 ; 5 ; 3 m`: yellow background.
pub open spec fn bg_yellow_seq() -> Seq<char> {
    csi_seq() + seq!['4', '8', ';', '5', ';', '3', 'm']
}

/// `ESC [ 4 9 m`: default background.
pub open spec fn bg_reset_seq() -> Seq<char> {
    csi_seq() + seq!['4', '9', 'm']
}

/// `ESC [ 3 8 ; 5 ; 0 m`: black foreground.
pub open spec fn fg_black_seq() -> Seq<char> {
    csi_seq() + seq!['3', '8', ';', '5', ';', '0', 'm']
}

/// `ESC [ 3 9 m`: default foreground.
pub open spec fn fg_reset_seq() -> Seq<char> {
    csi_seq() + seq!['3', '9', 'm']
}

/// Clear the screen and home the cursor.
pub open spec fn clear_seq() -> Seq<char> {
    clear_all_seq() + goto_seq(1, 1)
}

/// The initial mode-line paint: with the cursor hidden, fill row `max.y`
/// with the highlight background across all `max.x` columns, then home the
/// cursor and show it again.
pub open spec fn initialize_mode_line_seq(max: Coordinate) -> Seq<char> {
    hide_seq() + goto_seq(1, max.y) + bg_yellow_seq() + spaces_seq(max.x as nat) + bg_reset_seq()
        + goto_seq(1, 1) + show_seq()
}

/// A mode-line refresh: with the cursor hidden, write the status text at the
/// start of row `max.y` in black on yellow, then put the cursor back on
/// `current` and show it again.
pub open spec fn refresh_mode_line_seq(current: Coordinate, max: Coordinate) -> Seq<char> {
    hide_seq() + goto_seq(1, max.y) + bg_yellow_seq() + fg_black_seq()
        + status_text_seq(current.x, current.y) + fg_reset_seq() + bg_reset_seq()
        + goto_seq(current.x, current.y) + show_seq()
}

/// Everything written at startup: clear, paint the empty mode line, then
/// refresh it with the starting coordinates.
pub open spec fn preprocess_seq(c: Cursor) -> Seq<char> {
    clear_seq() + initialize_mode_line_seq(c.max) + refresh_mode_line_seq(c.current, c.max)
}

/// How many digits `dec_seq` writes: one under 10, two under 100, at least
/// three from 100 on.
pub proof fn lemma_dec_seq_len(n: nat)
    ensures
        n < 10 ==> dec_seq(n).len() == 1,
        10 <= n < 100 ==> dec_seq(n).len() == 2,
        100 <= n ==> dec_seq(n).len() >= 3,
    decreases n,
{
    if n >= 10 {
        lemma_dec_seq_len(n / 10);
    }
}

/// The decimal digit character for `d < 10`.
fn digit_char_exec(d: u16) -> (r: char)
    requires
        d < 10,
    ensures
        r == digit_char(d as nat),
{
    if d == 0 {
        '0'
    } else if d == 1 {
        '1'
    } else if d == 2 {
        '2'
    } else if d == 3 {
        '3'
    } else if d == 4 {
        '4'
    } else if d == 5 {
        '5'
    } else if d == 6 {
        '6'
    } else if d == 7 {
        '7'
    } else if d == 8 {
        '8'
    } else {
        '9'
    }
}

/// `n` in decimal.
pub fn dec_string(n: u16) -> (r: String)
    ensures
        r@ == dec_seq(n as nat),
    decreases n,
{
    if n < 10 {
        let mut s = String::new();
        push_char(&mut s, digit_char_exec(n));
        proof {
            assert(s@ =~= dec_seq(n as nat));
        }
        s
    } else {
        let mut s = dec_string(n / 10);
        push_char(&mut s, digit_char_exec(n % 10));
        proof {
            assert(s@ =~= dec_seq(n as nat));
        }
        s
    }
}

/// `n` spaces.
pub fn spaces_string(n: u16) -> (r: String)
    ensures
        r@ == spaces_seq(n as nat),
{
    let mut s = String::new();
    let mut i: u16 = 0;
    while i < n
        invariant
            i <= n,
            s@ =~= spaces_seq(i as nat),
        decreases n - i,
    {
        push_char(&mut s, ' ');
        i = i + 1;
        proof {
            assert(s@ =~= spaces_seq(i as nat));
        }
    }
    s
}

/// `n` in decimal, right-aligned in a field of width 3.
pub fn field3(n: u16) -> (r: String)
    ensures
        r@ == pad3(dec_seq(n as nat)),
{
    let mut s = String::new();
    if n < 10 {
        push_char(&mut s, ' ');
        push_char(&mut s, ' ');
    } else if n < 100 {
        push_char(&mut s, ' ');
    }
    let d = dec_string(n);
    s.append(d.as_str());
    proof {
        lemma_dec_seq_len(n as nat);
        assert(s@ =~= pad3(dec_seq(n as nat)));
    }
    s
}

/// The status text `(col,row)` for the position `(x, y)`.
pub fn status_text(x: u16, y: u16) -> (r: String)
    ensures
        r@ == status_text_seq(x, y),
{
    let mut s = String::new();
    push_char(&mut s, '(');
    let fx = field3(x);
    s.append(fx.as_str());
    push_char(&mut s, ',');
    let fy = field3(y);
    s.append(fy.as_str());
    push_char(&mut s, ')');
    proof {
        assert(s@ =~= status_text_seq(x, y));
    }
    s
}

/// The clear-and-home text.
pub fn clear_string() -> (r: String)
    ensures
        r@ == clear_seq(),
{
    let mut s = term_clear_all();
    let g = term_goto(1, 1);
    s.append(g.as_str());
    proof {
        assert(s@ =~= clear_seq());
    }
    s
}

/// The text of the initial mode-line paint for a screen bounded by `max`.
pub fn initialize_mode_line_string(max: Coordinate) -> (r: String)
    requires
        max.y >= 1,
    ensures
        r@ == initialize_mode_line_seq(max),
{
    let mut s = term_hide();
    let g1 = term_goto(1, max.y);
    s.append(g1.as_str());
    let bg = term_bg_yellow();
    s.append(bg.as_str());
    let sp = spaces_string(max.x);
    s.append(sp.as_str());
    let bgr = term_bg_reset();
    s.append(bgr.as_str());
    let g2 = term_goto(1, 1);
    s.append(g2.as_str());
    let sh = term_show();
    s.append(sh.as_str());
    proof {
        assert(s@ =~= initialize_mode_line_seq(max));
    }
    s
}

/// The text of a mode-line refresh for the position `current` on a screen
/// bounded by `max`.
pub fn refresh_mode_line_string(current: Coordinate, max: Coordinate) -> (r: String)
    requires
        current.x >= 1,
        current.y >= 1,
        max.y >= 1,
    ensures
        r@ == refresh_mode_line_seq(current, max),
{
    let mut s = term_hide();
    let g1 = term_goto(1, max.y);
    s.append(g1.as_str());
    let bg = term_bg_yellow();
    s.append(bg.as_str());
    let fg = term_fg_black();
    s.append(fg.as_str());
    let st = status_text(current.x, current.y);
    s.append(st.as_str());
    let fgr = term_fg_reset();
    s.append(fgr.as_str());
    let bgr = term_bg_reset();
    s.append(bgr.as_str());
    let g2 = term_goto(current.x, current.y);
    s.append(g2.as_str());
    let sh = term_show();
    s.append(sh.as_str());
    proof {
        assert(s@ =~= refresh_mode_line_seq(current, max));
    }
    s
}

/// The whole startup text for a fresh cursor: clear, paint the mode line,
/// refresh it.
pub fn preprocess_string(c: &Cursor) -> (r: String)
    requires
        c.wf(),
    ensures
        r@ == preprocess_seq(*c),
{
    let mut s = clear_string();
    let init = initialize_mode_line_string(c.max);
    s.append(init.as_str());
    let refresh = refresh_mode_line_string(c.current, c.max);
    s.append(refresh.as_str());
    proof {
        assert(s@ =~= preprocess_seq(*c));
    }
    s
}

/// The shutdown text: clear the screen and home the cursor.
pub fn postprocess_string() -> (r: String)
    ensures
        r@ == clear_seq(),
{
    clear_string()
}

} // verus!
