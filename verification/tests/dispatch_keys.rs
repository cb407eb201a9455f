use rawedit::cursor::{Coordinate, Cursor};
use rawedit::dispatch::{handle_key, KeyInput};

#[test]
fn interrupt_stops_and_writes_nothing() {
    let mut c = Cursor::new(80, 24);
    c.current = Coordinate { x: 9, y: 9 };
    let before = c;
    let (go_on, out) = handle_key(&mut c, KeyInput::Interrupt);
    assert!(!go_on);
    assert_eq!(out, "");
    assert_eq!(c, before);
}

#[test]
fn arrow_moves_then_repositions_and_refreshes() {
    let mut c = Cursor::new(80, 24);
    let (go_on, out) = handle_key(&mut c, KeyInput::Right);
    assert!(go_on);
    assert_eq!(c.current, Coordinate { x: 2, y: 1 });
    assert_eq!(
        out,
        "\x1b[1;2H\x1b[?25l\x1b[24;1H\x1b[48;5;3m\x1b[38;5;0m(  2,  1)\x1b[39m\x1b[49m\x1b[1;2H\x1b[?25h"
    );
}

#[test]
fn char_echoes_then_advances() {
    let mut c = Cursor::new(80, 24);
    let (go_on, out) = handle_key(&mut c, KeyInput::Char('a'));
    assert!(go_on);
    assert_eq!(c.current, Coordinate { x: 2, y: 1 });
    assert_eq!(
        out,
        "a\x1b[1;2H\x1b[?25l\x1b[24;1H\x1b[48;5;3m\x1b[38;5;0m(  2,  1)\x1b[39m\x1b[49m\x1b[1;2H\x1b[?25h"
    );
}

#[test]
fn newline_echoes_return_symbol_and_jumps_to_next_line() {
    let mut c = Cursor::new(80, 24);
    c.current = Coordinate { x: 5, y: 3 };
    let (go_on, out) = handle_key(&mut c, KeyInput::Char('\n'));
    assert!(go_on);
    assert_eq!(c.current, Coordinate { x: 1, y: 4 });
    assert_eq!(
        out,
        "\u{23ce}\x1b[4;1H\x1b[?25l\x1b[24;1H\x1b[48;5;3m\x1b[38;5;0m(  1,  4)\x1b[39m\x1b[49m\x1b[4;1H\x1b[?25h"
    );
}

#[test]
fn unmapped_key_echoes_a_placeholder() {
    let mut c = Cursor::new(80, 24);
    let (go_on, out) = handle_key(&mut c, KeyInput::Other);
    assert!(go_on);
    assert_eq!(c.current, Coordinate { x: 2, y: 1 });
    assert!(out.starts_with('*'));
    assert_eq!(
        out,
        "*\x1b[1;2H\x1b[?25l\x1b[24;1H\x1b[48;5;3m\x1b[38;5;0m(  2,  1)\x1b[39m\x1b[49m\x1b[1;2H\x1b[?25h"
    );
}

#[test]
fn five_rights_and_three_downs_land_at_six_four() {
    // 80 by 24 screen, start at (1, 1): Right x5, Down x3 ends at (6, 4)
    let mut c = Cursor::new(80, 24);
    for _ in 0..5 {
        let (go_on, _out) = handle_key(&mut c, KeyInput::Right);
        assert!(go_on);
    }
    for _ in 0..3 {
        let (go_on, _out) = handle_key(&mut c, KeyInput::Down);
        assert!(go_on);
    }
    assert_eq!(c.current, Coordinate { x: 6, y: 4 });
}

#[test]
fn right_at_max_column_is_clamped() {
    let mut c = Cursor::new(80, 24);
    c.current = Coordinate { x: 80, y: 1 };
    let (go_on, _out) = handle_key(&mut c, KeyInput::Right);
    assert!(go_on);
    assert_eq!(c.current.x, 80);
}

#[test]
fn down_above_reserved_row_is_clamped() {
    let mut c = Cursor::new(80, 24);
    c.current = Coordinate { x: 1, y: 23 };
    let (go_on, _out) = handle_key(&mut c, KeyInput::Down);
    assert!(go_on);
    assert_eq!(c.current.y, 23);
}

#[test]
fn down_never_reaches_the_mode_line() {
    let mut c = Cursor::new(80, 24);
    for _ in 0..30 {
        let (_go_on, _out) = handle_key(&mut c, KeyInput::Down);
        assert!(c.current.y < c.max.y);
    }
}
