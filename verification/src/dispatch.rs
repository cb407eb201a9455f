//! The per-keystroke decision of the event loop: given the cursor state and
//! one key event, how the cursor moves and exactly what text goes to the
//! terminal. The loop itself (blocking reads, writes, the flush) lives
//! outside the library; it feeds events in and writes the returned text out.

use vstd::prelude::*;
use crate::cursor::Cursor;
use crate::render::{goto_seq, refresh_mode_line_seq, refresh_mode_line_string};
use crate::term::{push_char, term_goto};
use vstd::string::StringExecFns;

verus! {

/// The glyph echoed for a newline: the return symbol, U+23CE.
pub open spec fn return_symbol() -> char {
    '\u{23ce}'
}

/// One key event, as the event loop consumes it: the interrupt combination,
/// the four arrow keys, a typed character, or any other (unmapped) key.
#[derive(Clone, Copy, Debug)]
pub enum KeyInput {
    Interrupt,
    Left,
    Right,
    Up,
    Down,
    Char(char),
    Other,
}

/// Where the cursor stands after `k`: arrows move by one step, a newline
/// jumps to the next line start, any other character or unmapped key echoes
/// and advances one column, and the interrupt leaves the cursor alone.
pub open spec fn step_cursor(c: Cursor, k: KeyInput) -> Cursor {
    match k {
        KeyInput::Interrupt => c,
        KeyInput::Left => c.spec_left(1),
        KeyInput::Right => c.spec_right(1),
        KeyInput::Up => c.spec_up(1),
        KeyInput::Down => c.spec_down(1),
        KeyInput::Char(ch) => if ch == '\n' {
            c.spec_next_line()
        } else {
            c.spec_right(1)
        },
        KeyInput::Other => c.spec_right(1),
    }
}

/// What `k` echoes at the old cursor position: nothing for arrows and the
/// interrupt, the return symbol for a newline, the character itself
/// otherwise, and a `*` placeholder for unmapped keys.
pub open spec fn echo_seq(k: KeyInput) -> Seq<char> {
    match k {
        KeyInput::Interrupt => Seq::empty(),
        KeyInput::Left => Seq::empty(),
        KeyInput::Right => Seq::empty(),
        KeyInput::Up => Seq::empty(),
        KeyInput::Down => Seq::empty(),
        KeyInput::Char(ch) => if ch == '\n' {
            seq![return_symbol()]
        } else {
            seq![ch]
        },
        KeyInput::Other => seq!['*'],
    }
}

/// Everything one non-interrupt keystroke writes, in order: the echo, the
/// hardware-cursor move to the new position, then the mode-line refresh.
/// The interrupt writes nothing.
pub open spec fn step_output(c: Cursor, k: KeyInput) -> Seq<char> {
    if (k matches KeyInput::Interrupt) {
        Seq::empty()
    } else {
        let c1 = step_cursor(c, k);
        echo_seq(k) + goto_seq(c1.current.x, c1.current.y)
            + refresh_mode_line_seq(c1.current, c1.max)
    }
}

/// The text a non-interrupt keystroke writes after its echo: the
/// hardware-cursor move to `current`, then the mode-line refresh.
fn move_and_refresh(cursor: &Cursor) -> (r: String)
    requires
        cursor.wf(),
    ensures
        r@ == goto_seq(cursor.current.x, cursor.current.y)
            + refresh_mode_line_seq(cursor.current, cursor.max),
{
    let mut s = term_goto(cursor.current.x, cursor.current.y);
    let refresh = refresh_mode_line_string(cursor.current, cursor.max);
    s.append(refresh.as_str());
    s
}

/// Dispatch one key event: move the cursor as `step_cursor` says, and return
/// whether the session goes on (false exactly on the interrupt) together
/// with the text to write to the terminal, exactly `step_output`.
pub fn handle_key(cursor: &mut Cursor, key: KeyInput) -> (r: (bool, String))
    requires
        old(cursor).wf(),
    ensures
        final(cursor).wf(),
        *final(cursor) == step_cursor(*old(cursor), key),
        r.0 == !(key matches KeyInput::Interrupt),
        r.1@ == step_output(*old(cursor), key),
{
    match key {
        KeyInput::Interrupt => (false, String::new()),
        KeyInput::Left => {
            cursor.left(1);
            let out = move_and_refresh(cursor);
            proof {
                assert(out@ =~= step_output(*old(cursor), key));
            }
            (true, out)
        },
        KeyInput::Right => {
            cursor.right(1);
            let out = move_and_refresh(cursor);
            proof {
                assert(out@ =~= step_output(*old(cursor), key));
            }
            (true, out)
        },
        KeyInput::Up => {
            cursor.up(1);
            let out = move_and_refresh(cursor);
            proof {
                assert(out@ =~= step_output(*old(cursor), key));
            }
            (true, out)
        },
        KeyInput::Down => {
            cursor.down(1);
            let out = move_and_refresh(cursor);
            proof {
                assert(out@ =~= step_output(*old(cursor), key));
            }
            (true, out)
        },
        KeyInput::Char(ch) => {
            let mut out = String::new();
            if ch == '\n' {
                push_char(&mut out, '\u{23ce}');
                cursor.next_line();
            } else {
                push_char(&mut out, ch);
                cursor.right(1);
            }
            let rest = move_and_refresh(cursor);
            out.append(rest.as_str());
            proof {
                assert(out@ =~= step_output(*old(cursor), key));
            }
            (true, out)
        },
        KeyInput::Other => {
            let mut out = String::new();
            push_char(&mut out, '*');
            cursor.right(1);
            let rest = move_and_refresh(cursor);
            out.append(rest.as_str());
            proof {
                assert(out@ =~= step_output(*old(cursor), key));
            }
            (true, out)
        },
    }
}

} // verus!
