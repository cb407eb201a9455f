//! The cursor model: a current position bounded by `min` and `max`, with
//! clamped directional moves and line-start / line-end / line-jump operations.
//!
//! Coordinates are 1-based, matching the terminal's native addressing. The
//! last row (`max.y`) is reserved for the mode line and is excluded from
//! downward navigation: the usable editing rows are `[min.y, max.y - 1]`.

use vstd::prelude::*;

verus! {

/// A 1-based screen cell address: `x` is the column, `y` is the row.
#[derive(Clone, Copy, Debug, PartialEq, Eq, Structural)]
pub struct Coordinate {
    pub x: u16,
    pub y: u16,
}

/// The cursor state: the current position plus the session's bounds.
#[derive(Clone, Copy, Debug, PartialEq, Eq, Structural)]
pub struct Cursor {
    pub current: Coordinate,
    pub max: Coordinate,
    pub min: Coordinate,
}

impl Cursor {
    /// The invariant every operation preserves: `min` is the top-left corner
    /// `(1, 1)` and `current` lies within `[min, max]` on both axes.
    pub open spec fn wf(self) -> bool {
        &&& self.min.x == 1
        &&& self.min.y == 1
        &&& self.min.x <= self.current.x <= self.max.x
        &&& self.min.y <= self.current.y <= self.max.y
    }

    /// A cursor at the top-left corner of a `max_x` by `max_y` screen.
    pub fn new(max_x: u16, max_y: u16) -> (r: Cursor)
        requires
            max_x >= 1,
            max_y >= 1,
        ensures
            r.wf(),
            r.current == (Coordinate { x: 1, y: 1 }),
            r.min == (Coordinate { x: 1, y: 1 }),
            r.max == (Coordinate { x: max_x, y: max_y }),
    {
        Cursor {
            current: Coordinate { x: 1, y: 1 },
            min: Coordinate { x: 1, y: 1 },
            max: Coordinate { x: max_x, y: max_y },
        }
    }

    /// Where a leftward move by `n` lands: `x - n`, clamped at `min.x`.
    pub open spec fn spec_left(self, n: u16) -> Cursor {
        let x = if self.current.x - self.min.x >= n {
            (self.current.x - n) as u16
        } else {
            self.min.x
        };
        Cursor { current: Coordinate { x, y: self.current.y }, ..self }
    }

    /// Move left by `n` columns, clamped at `min.x`.
    pub fn left(&mut self, n: u16)
        requires
            old(self).wf(),
        ensures
            *final(self) == old(self).spec_left(n),
            final(self).wf(),
    {
        if self.current.x - self.min.x >= n {
            self.current.x = self.current.x - n;
        } else {
            self.current.x = self.min.x;
        }
    }

    /// Where a rightward move by `n` lands: `x + n`, clamped at `max.x`.
    pub open spec fn spec_right(self, n: u16) -> Cursor {
        let x = if self.max.x - self.current.x >= n {
            (self.current.x + n) as u16
        } else {
            self.max.x
        };
        Cursor { current: Coordinate { x, y: self.current.y }, ..self }
    }

    /// Move right by `n` columns, clamped at `max.x`.
    pub fn right(&mut self, n: u16)
        requires
            old(self).wf(),
        ensures
            *final(self) == old(self).spec_right(n),
            final(self).wf(),
    {
        if self.max.x - self.current.x >= n {
            self.current.x = self.current.x + n;
        } else {
            self.current.x = self.max.x;
        }
    }

    /// Where an upward move by `n` lands: `y - n`, clamped at `min.y`.
    pub open spec fn spec_up(self, n: u16) -> Cursor {
        let y = if self.current.y - self.min.y >= n {
            (self.current.y - n) as u16
        } else {
            self.min.y
        };
        Cursor { current: Coordinate { x: self.current.x, y }, ..self }
    }

    /// Move up by `n` rows, clamped at `min.y`.
    pub fn up(&mut self, n: u16)
        requires
            old(self).wf(),
        ensures
            *final(self) == old(self).spec_up(n),
            final(self).wf(),
    {
        if self.current.y - self.min.y >= n {
            self.current.y = self.current.y - n;
        } else {
            self.current.y = self.min.y;
        }
    }

    /// Where a downward move by `n` lands. The last row is reserved for the
    /// mode line, so the move clamps at `max.y - 1`; a cursor already at or
    /// past that row does not move.
    pub open spec fn spec_down(self, n: u16) -> Cursor {
        let y = if self.max.y - 1 <= self.current.y {
            self.current.y
        } else if self.current.y + n <= self.max.y - 1 {
            (self.current.y + n) as u16
        } else {
            (self.max.y - 1) as u16
        };
        Cursor { current: Coordinate { x: self.current.x, y }, ..self }
    }

    /// Move down by `n` rows, clamped at `max.y - 1` to keep off the mode
    /// line. Never lands on `max.y`: see [`Cursor::lemma_down_spares_mode_line`].
    pub fn down(&mut self, n: u16)
        requires
            old(self).wf(),
        ensures
            *final(self) == old(self).spec_down(n),
            final(self).wf(),
    {
        if self.max.y - 1 <= self.current.y {
            // already on the lowest editing row (or the mode line itself)
        } else if self.max.y - 1 - self.current.y >= n {
            self.current.y = self.current.y + n;
        } else {
            self.current.y = self.max.y - 1;
        }
    }

    /// Where a jump to the line start lands: `x = min.x`.
    pub open spec fn spec_head(self) -> Cursor {
        Cursor { current: Coordinate { x: self.min.x, y: self.current.y }, ..self }
    }

    /// Jump to the start of the line (`x = min.x`).
    pub fn head(&mut self)
        requires
            old(self).wf(),
        ensures
            *final(self) == old(self).spec_head(),
            final(self).wf(),
    {
        self.current.x = self.min.x;
    }

    /// Where a jump to the line end lands: `x = max.x`.
    pub open spec fn spec_tail(self) -> Cursor {
        Cursor { current: Coordinate { x: self.max.x, y: self.current.y }, ..self }
    }

    /// Jump to the end of the line (`x = max.x`).
    pub fn tail(&mut self)
        requires
            old(self).wf(),
        ensures
            *final(self) == old(self).spec_tail(),
            final(self).wf(),
    {
        self.current.x = self.max.x;
    }

    /// Where the previous-line jump lands: line start, then one row up.
    pub open spec fn spec_prev_line(self) -> Cursor {
        self.spec_head().spec_up(1)
    }

    /// Jump to the start of the previous line.
    pub fn prev_line(&mut self)
        requires
            old(self).wf(),
        ensures
            *final(self) == old(self).spec_prev_line(),
            final(self).wf(),
    {
        self.head();
        self.up(1);
    }

    /// Where the next-line jump lands: line start, then one row down.
    pub open spec fn spec_next_line(self) -> Cursor {
        self.spec_head().spec_down(1)
    }

    /// Jump to the start of the next line (stopping above the mode line).
    pub fn next_line(&mut self)
        requires
            old(self).wf(),
        ensures
            *final(self) == old(self).spec_next_line(),
            final(self).wf(),
    {
        self.head();
        self.down(1);
    }

    /// Downward movement never reaches the mode line: from any row above
    /// `max.y`, a `down` of any size still lands above `max.y`.
    pub proof fn lemma_down_spares_mode_line(self, n: u16)
        requires
            self.wf(),
            self.current.y < self.max.y,
        ensures
            self.spec_down(n).current.y < self.max.y,
    {
    }

    /// Line start followed by line end always lands at `x = max.x`.
    pub proof fn lemma_head_then_tail(self)
        requires
            self.wf(),
        ensures
            self.spec_head().spec_tail().current.x == self.max.x,
    {
    }

    /// Line end followed by line start always lands at `x = min.x`.
    pub proof fn lemma_tail_then_head(self)
        requires
            self.wf(),
        ensures
            self.spec_tail().spec_head().current.x == self.min.x,
    {
    }

    /// Next-line followed by previous-line is a round trip on the rows away
    /// from the boundaries: starting from the line start, with the row
    /// strictly between `min.y` and `max.y - 1` and not on the mode line,
    /// the cursor comes back to where it was.
    pub proof fn lemma_next_then_prev_roundtrip(self)
        requires
            self.wf(),
            self.current.x == self.min.x,
            self.current.y != self.min.y,
            self.current.y != self.max.y - 1,
            self.current.y != self.max.y,
        ensures
            self.spec_next_line().spec_prev_line() == self,
    {
    }
}

} // verus!
