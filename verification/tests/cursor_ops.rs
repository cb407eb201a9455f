use rawedit::cursor::{Coordinate, Cursor};

#[test]
fn new_starts_at_top_left() {
    let c = Cursor::new(80, 24);
    assert_eq!(c.current, Coordinate { x: 1, y: 1 });
    assert_eq!(c.min, Coordinate { x: 1, y: 1 });
    assert_eq!(c.max, Coordinate { x: 80, y: 24 });
}

#[test]
fn left_moves_and_clamps() {
    let mut c = Cursor::new(80, 24);
    c.current = Coordinate { x: 5, y: 3 };
    c.left(1);
    assert_eq!(c.current, Coordinate { x: 4, y: 3 });
    c.left(10);
    assert_eq!(c.current, Coordinate { x: 1, y: 3 });
    c.left(1);
    assert_eq!(c.current, Coordinate { x: 1, y: 3 });
}

#[test]
fn right_moves_and_clamps() {
    let mut c = Cursor::new(80, 24);
    c.right(1);
    assert_eq!(c.current, Coordinate { x: 2, y: 1 });
    c.right(200);
    assert_eq!(c.current, Coordinate { x: 80, y: 1 });
    c.right(1);
    assert_eq!(c.current, Coordinate { x: 80, y: 1 });
}

#[test]
fn up_moves_and_clamps() {
    let mut c = Cursor::new(80, 24);
    c.current = Coordinate { x: 7, y: 4 };
    c.up(1);
    assert_eq!(c.current, Coordinate { x: 7, y: 3 });
    c.up(10);
    assert_eq!(c.current, Coordinate { x: 7, y: 1 });
    c.up(1);
    assert_eq!(c.current, Coordinate { x: 7, y: 1 });
}

#[test]
fn down_moves_and_stops_above_mode_line() {
    let mut c = Cursor::new(80, 24);
    c.down(1);
    assert_eq!(c.current, Coordinate { x: 1, y: 2 });
    c.down(100);
    assert_eq!(c.current, Coordinate { x: 1, y: 23 });
    c.down(1);
    assert_eq!(c.current, Coordinate { x: 1, y: 23 });
}

#[test]
fn down_reserved_row_clamp() {
    // one above the reserved row: Down leaves the row unchanged
    let mut c = Cursor::new(80, 24);
    c.current = Coordinate { x: 1, y: 23 };
    c.down(1);
    assert_eq!(c.current, Coordinate { x: 1, y: 23 });
}

#[test]
fn down_on_one_row_screen_stays_put() {
    let mut c = Cursor::new(10, 1);
    c.down(1);
    assert_eq!(c.current, Coordinate { x: 1, y: 1 });
}

#[test]
fn right_at_edge_is_a_no_op() {
    let mut c = Cursor::new(80, 24);
    c.current = Coordinate { x: 80, y: 1 };
    c.right(1);
    assert_eq!(c.current.x, 80);
}

#[test]
fn head_and_tail_jump_to_line_ends() {
    let mut c = Cursor::new(80, 24);
    c.current = Coordinate { x: 37, y: 5 };
    c.head();
    assert_eq!(c.current, Coordinate { x: 1, y: 5 });
    c.tail();
    assert_eq!(c.current, Coordinate { x: 80, y: 5 });
}

#[test]
fn head_then_tail_lands_at_max() {
    let mut c = Cursor::new(80, 24);
    c.current = Coordinate { x: 41, y: 9 };
    c.head();
    c.tail();
    assert_eq!(c.current.x, 80);
}

#[test]
fn tail_then_head_lands_at_min() {
    let mut c = Cursor::new(80, 24);
    c.current = Coordinate { x: 41, y: 9 };
    c.tail();
    c.head();
    assert_eq!(c.current.x, 1);
}

#[test]
fn next_line_goes_to_start_of_next_row() {
    let mut c = Cursor::new(80, 24);
    c.current = Coordinate { x: 12, y: 3 };
    c.next_line();
    assert_eq!(c.current, Coordinate { x: 1, y: 4 });
}

#[test]
fn prev_line_goes_to_start_of_previous_row() {
    let mut c = Cursor::new(80, 24);
    c.current = Coordinate { x: 12, y: 3 };
    c.prev_line();
    assert_eq!(c.current, Coordinate { x: 1, y: 2 });
}

#[test]
fn next_then_prev_round_trips_away_from_boundaries() {
    let mut c = Cursor::new(80, 24);
    c.current = Coordinate { x: 1, y: 10 };
    let before = c;
    c.next_line();
    c.prev_line();
    assert_eq!(c, before);
}

#[test]
fn moves_keep_the_invariant() {
    let mut c = Cursor::new(80, 24);
    c.left(3);
    c.up(5);
    c.right(90);
    c.down(40);
    c.tail();
    c.next_line();
    c.prev_line();
    c.head();
    assert!(c.min.x <= c.current.x && c.current.x <= c.max.x);
    assert!(c.min.y <= c.current.y && c.current.y <= c.max.y);
}
