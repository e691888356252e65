//! A (row, column) position that moves within a buffer's bounds.
use vstd::prelude::*;

use crate::buffer::{spec_line_length, Buffer};

verus! {

/// `n`, or `limit` when `n` is above it.
pub open spec fn spec_clamp(n: int, limit: int) -> int {
    if n > limit {
        limit
    } else {
        n
    }
}

/// `n - 1`, or 0 when `n` is 0.
pub open spec fn dec(n: int) -> int {
    if n > 0 {
        n - 1
    } else {
        0
    }
}

/// Column bound for vertical moves: the last character of line `row`, or 0
/// on an empty line.
pub open spec fn last_char_col(lines: Seq<Seq<char>>, row: int) -> int {
    dec(spec_line_length(lines, row) as int)
}

/// A position in a buffer. Columns count characters; a column equal to the
/// line's length stands after its last character.
#[derive(Clone, Copy, PartialEq, Eq, Debug, Structural)]
pub struct Cursor {
    pub row: u16,
    pub col: u16,
}

/// The position one row up, on the last row's character at most.
pub open spec fn spec_up(c: Cursor, lines: Seq<Seq<char>>) -> (int, int) {
    let row = dec(c.row as int);
    (row, spec_clamp(c.col as int, last_char_col(lines, row)))
}

/// The position one row down, no further than the last line.
pub open spec fn spec_down(c: Cursor, lines: Seq<Seq<char>>) -> (int, int) {
    let row = spec_clamp(c.row + 1, dec(lines.len() as int));
    (row, spec_clamp(c.col as int, last_char_col(lines, row)))
}

/// The position one column left, no further than column 0.
pub open spec fn spec_left(c: Cursor) -> (int, int) {
    (c.row as int, dec(c.col as int))
}

/// The position one column right, no further than one past the line's end.
pub open spec fn spec_right(c: Cursor, lines: Seq<Seq<char>>) -> (int, int) {
    (c.row as int, spec_clamp(c.col + 1, spec_line_length(lines, c.row as int) as int))
}

/// Whether `c` addresses a line of `lines` (row 0 when there is none) and a
/// column from 0 to one past that line's end.
pub open spec fn cursor_valid(lines: Seq<Seq<char>>, c: Cursor) -> bool {
    &&& (c.row < lines.len() || (lines.len() == 0 && c.row == 0))
    &&& c.col <= spec_line_length(lines, c.row as int)
}

/// Moving right stops one past the end of the line; moving up or down lands
/// on a character of the new line, or on column 0 when that line is empty.
pub proof fn lemma_moves_stay_in_line(c: Cursor, lines: Seq<Seq<char>>)
    ensures
        spec_right(c, lines).1 <= spec_line_length(lines, c.row as int),
        spec_line_length(lines, spec_up(c, lines).0) > 0 ==> spec_up(c, lines).1
            <= spec_line_length(lines, spec_up(c, lines).0) - 1,
        spec_line_length(lines, spec_up(c, lines).0) == 0 ==> spec_up(c, lines).1 == 0,
        spec_line_length(lines, spec_down(c, lines).0) > 0 ==> spec_down(c, lines).1
            <= spec_line_length(lines, spec_down(c, lines).0) - 1,
        spec_line_length(lines, spec_down(c, lines).0) == 0 ==> spec_down(c, lines).1 == 0,
{
}

impl Cursor {
    /// The position as a (row, column) pair.
    pub open spec fn at(self) -> (int, int) {
        (self.row as int, self.col as int)
    }

    /// The cursor one row up; the column moves back onto the new line's last
    /// character if it was further right.
    pub fn up(&self, buffer: &Buffer) -> (r: Self)
        requires
            buffer.wf(),
        ensures
            r.at() == spec_up(*self, buffer@),
    {
        let new_row = self.row.saturating_sub(1);
        Self { row: new_row, col: Self::clamp(self.col, buffer.line_length(new_row).saturating_sub(1)) }
    }

    /// The cursor one row down, staying on the last line; the column moves
    /// back onto the new line's last character if it was further right.
    pub fn down(&self, buffer: &Buffer) -> (r: Self)
        requires
            buffer.wf(),
        ensures
            r.at() == spec_down(*self, buffer@),
    {
        let new_row = Self::clamp(self.row.saturating_add(1), buffer.line_count().saturating_sub(1));
        Self { row: new_row, col: Self::clamp(self.col, buffer.line_length(new_row).saturating_sub(1)) }
    }

    /// The cursor one column left, staying on the same row.
    pub fn left(&self, _buffer: &Buffer) -> (r: Self)
        ensures
            r.at() == spec_left(*self),
    {
        Self { row: self.row, col: self.col.saturating_sub(1) }
    }

    /// The cursor one column right, up to one past the end of its line.
    pub fn right(&self, buffer: &Buffer) -> (r: Self)
        requires
            buffer.wf(),
        ensures
            r.at() == spec_right(*self, buffer@),
    {
        Self { row: self.row, col: Self::clamp(self.col.saturating_add(1), buffer.line_length(self.row)) }
    }

    fn clamp(n: u16, limit: u16) -> (r: u16)
        ensures
            r == spec_clamp(n as int, limit as int),
    {
        if n > limit {
            limit
        } else {
            n
        }
    }
}

} // verus!
