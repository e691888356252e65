//! The editor: one buffer, one cursor and a stack of earlier (buffer,
//! cursor) pairs, driven one keystroke at a time.
use vstd::prelude::*;

use crate::buffer::{
    lines_fit, spec_delete, spec_insert, spec_line_length, spec_split, Buffer, MAX_EXTENT,
};
use crate::cursor::{cursor_valid, spec_down, spec_left, spec_right, spec_up, Cursor};

verus! {

/// A decoded keystroke.
#[derive(Clone, Copy, PartialEq, Eq, Debug, Structural)]
pub enum Key {
    Up,
    Down,
    Left,
    Right,
    Backspace,
    /// A character typed without modifier; a newline is `Char('\n')`.
    Char(char),
    /// A character typed with the control key held.
    Ctrl(char),
    /// Any other key, which the editor ignores.
    Other,
}

/// What the terminal side does after a keystroke.
#[derive(Clone, Copy, PartialEq, Eq, Debug, Structural)]
pub enum Action {
    /// Leave the editing loop.
    Quit,
    /// Draw the buffer and place the cursor.
    Render,
    /// Clear the whole screen, then draw as for `Render`.
    ClearAndRender,
}

/// An editor state as values: the text, the cursor, and the saved pairs,
/// the most recent last.
pub struct State {
    pub text: Seq<Seq<char>>,
    pub pos: Cursor,
    pub history: Seq<(Seq<Seq<char>>, Cursor)>,
}

/// Whether a text and cursor pair is one the editor can hold.
pub open spec fn pair_valid(text: Seq<Seq<char>>, pos: Cursor) -> bool {
    lines_fit(text) && cursor_valid(text, pos)
}

/// Whether every saved pair is one the editor can hold.
pub open spec fn history_valid(h: Seq<(Seq<Seq<char>>, Cursor)>) -> bool {
    forall|i: int| 0 <= i < h.len() ==> pair_valid(#[trigger] h[i].0, h[i].1)
}

/// `s` with its text and cursor saved on top of the history.
pub open spec fn with_snapshot(s: State) -> State {
    State { history: s.history.push((s.text, s.pos)), ..s }
}

/// `s` with the most recent saved pair back in place and off the history;
/// `s` itself when nothing is saved.
pub open spec fn spec_restore(s: State) -> State {
    if s.history.len() == 0 {
        s
    } else {
        State { text: s.history.last().0, pos: s.history.last().1, history: s.history.drop_last() }
    }
}

/// The cursor at a (row, column) pair.
pub open spec fn cursor_at(p: (int, int)) -> Cursor {
    Cursor { row: p.0 as u16, col: p.1 as u16 }
}

/// Whether a newline splits the current line: there is a line under the
/// cursor and room for one more line.
pub open spec fn can_split(s: State) -> bool {
    s.pos.row < s.text.len() && s.text.len() < MAX_EXTENT
}

/// Whether a typed character fits: the line under the cursor, if any, stays
/// shorter than `MAX_EXTENT`.
pub open spec fn can_insert(s: State) -> bool {
    s.pos.row < s.text.len() ==> spec_line_length(s.text, s.pos.row as int) + 1 < MAX_EXTENT
}

/// The state after key `k` in state `s`, and what the terminal does next.
pub open spec fn spec_step(s: State, k: Key) -> (State, Action) {
    match k {
        Key::Ctrl(c) => if c == 'q' || c == 'c' {
            (s, Action::Quit)
        } else if c == 'z' {
            (spec_restore(s), Action::ClearAndRender)
        } else {
            (s, Action::Render)
        },
        Key::Up => (State { pos: cursor_at(spec_up(s.pos, s.text)), ..s }, Action::Render),
        Key::Down => (State { pos: cursor_at(spec_down(s.pos, s.text)), ..s }, Action::Render),
        Key::Left => (State { pos: cursor_at(spec_left(s.pos)), ..s }, Action::Render),
        Key::Right => (State { pos: cursor_at(spec_right(s.pos, s.text)), ..s }, Action::Render),
        Key::Char(c) => if c == '\n' {
            if can_split(s) {
                (
                    State {
                        text: spec_split(s.text, s.pos.row as int, s.pos.col as int),
                        pos: Cursor { row: (s.pos.row + 1) as u16, col: 0 },
                        history: s.history.push((s.text, s.pos)),
                    },
                    Action::ClearAndRender,
                )
            } else {
                (s, Action::Render)
            }
        } else if can_insert(s) {
            let text = spec_insert(s.text, c, s.pos.row as int, s.pos.col as int);
            (
                State {
                    text,
                    pos: cursor_at(spec_right(s.pos, text)),
                    history: s.history.push((s.text, s.pos)),
                },
                Action::Render,
            )
        } else {
            (s, Action::Render)
        },
        Key::Backspace => if s.pos.col > 0 {
            (
                State {
                    text: spec_delete(s.text, s.pos.row as int, s.pos.col - 1),
                    pos: cursor_at(spec_left(s.pos)),
                    history: s.history.push((s.text, s.pos)),
                },
                Action::ClearAndRender,
            )
        } else {
            (s, Action::Render)
        },
        Key::Other => (s, Action::Render),
    }
}

/// Undo with nothing saved changes nothing.
pub proof fn lemma_restore_empty_is_identity(s: State)
    requires
        s.history.len() == 0,
    ensures
        spec_restore(s) == s,
{
}

/// Undo right after a save gives back the state before the save.
pub proof fn lemma_restore_undoes_save(s: State)
    ensures
        spec_restore(with_snapshot(s)) == s,
{
    assert(with_snapshot(s).history.drop_last() =~= s.history);
}

pub struct Editor {
    buffer: Buffer,
    cursor: Cursor,
    history: Vec<(Buffer, Cursor)>,
}

impl Editor {
    /// The editor's state as values.
    pub closed spec fn state(&self) -> State {
        State {
            text: self.buffer@,
            pos: self.cursor,
            history: self.history@.map_values(|p: (Buffer, Cursor)| (p.0@, p.1)),
        }
    }

    /// The cursor addresses the current text, and every saved pair is one the
    /// editor could hold.
    pub open spec fn wf(&self) -> bool {
        &&& pair_valid(self.state().text, self.state().pos)
        &&& history_valid(self.state().history)
    }

    /// An editor on `lines`, with the cursor at the start and nothing saved.
    pub fn new(lines: Vec<String>) -> (r: Self)
        requires
            lines_fit(lines@.map_values(|s: String| s@)),
        ensures
            r.wf(),
            r.state().text == lines@.map_values(|s: String| s@),
            r.state().pos == (Cursor { row: 0, col: 0 }),
            r.state().history.len() == 0,
    {
        let buffer = Buffer::new(lines);
        let cursor = Cursor { row: 0, col: 0 };
        let r = Editor { buffer, cursor, history: Vec::new() };
        proof {
            assert(r.state().history =~= Seq::empty());
        }
        r
    }

    /// Applies one keystroke: moves the cursor, edits the buffer after saving
    /// the state before the edit, undoes the last edit, or asks to quit.
    pub fn handle_input(&mut self, key: Key) -> (r: Action)
        requires
            old(self).wf(),
        ensures
            final(self).wf(),
            (final(self).state(), r) == spec_step(old(self).state(), key),
    {
        match key {
            Key::Ctrl(c) => {
                if c == 'q' || c == 'c' {
                    return Action::Quit;
                } else if c == 'z' {
                    self.restore_snapshot();
                    return Action::ClearAndRender;
                }
                Action::Render
            },
            Key::Up => {
                self.cursor = self.cursor.up(&self.buffer);
                Action::Render
            },
            Key::Down => {
                self.cursor = self.cursor.down(&self.buffer);
                Action::Render
            },
            Key::Left => {
                self.cursor = self.cursor.left(&self.buffer);
                Action::Render
            },
            Key::Right => {
                self.cursor = self.cursor.right(&self.buffer);
                Action::Render
            },
            Key::Char(c) => {
                if c == '\n' {
                    if self.cursor.row < self.buffer.line_count() && self.buffer.line_count()
                        < MAX_EXTENT {
                        self.save_snapshot();
                        self.buffer = self.buffer.split_line(self.cursor.row, self.cursor.col);
                        self.cursor = Cursor { row: self.cursor.row + 1, col: 0 };
                        return Action::ClearAndRender;
                    }
                    Action::Render
                } else {
                    let row = self.cursor.row;
                    if row >= self.buffer.line_count() || self.buffer.line_length(row)
                        < MAX_EXTENT - 1 {
                        self.save_snapshot();
                        self.buffer = self.buffer.insert(c, row, self.cursor.col);
                        self.cursor = self.cursor.right(&self.buffer);
                    }
                    Action::Render
                }
            },
            Key::Backspace => {
                if self.cursor.col > 0 {
                    self.save_snapshot();
                    self.buffer = self.buffer.delete(self.cursor.row, self.cursor.col - 1);
                    self.cursor = self.cursor.left(&self.buffer);
                    return Action::ClearAndRender;
                }
                Action::Render
            },
            Key::Other => Action::Render,
        }
    }

    /// The current buffer.
    pub fn buffer(&self) -> (r: &Buffer)
        ensures
            r@ == self.state().text,
    {
        &self.buffer
    }

    /// The current cursor.
    pub fn cursor(&self) -> (r: Cursor)
        ensures
            r == self.state().pos,
    {
        self.cursor
    }

    /// Number of saved states that undo can go back through.
    pub fn history_len(&self) -> (r: usize)
        ensures
            r == self.state().history.len(),
    {
        self.history.len()
    }

    /// The cursor's place on the screen, one-based, as (column, row).
    pub fn screen_position(&self) -> (r: (u16, u16))
        requires
            self.wf(),
        ensures
            r.0 == self.state().pos.col + 1,
            r.1 == self.state().pos.row + 1,
    {
        (self.cursor.col + 1, self.cursor.row + 1)
    }

    /// Saves the current buffer and cursor on top of the history.
    pub fn save_snapshot(&mut self)
        requires
            old(self).wf(),
        ensures
            final(self).wf(),
            final(self).state() == with_snapshot(old(self).state()),
    {
        let copy = self.buffer.duplicate();
        self.history.push((copy, self.cursor));
        proof {
            assert(self.state().history =~= old(self).state().history.push(
                (old(self).state().text, old(self).state().pos),
            ));
        }
    }

    /// Puts the most recently saved buffer and cursor back and drops them
    /// from the history; does nothing when the history is empty.
    pub fn restore_snapshot(&mut self)
        requires
            old(self).wf(),
        ensures
            final(self).wf(),
            final(self).state() == spec_restore(old(self).state()),
    {
        if let Some(pair) = self.history.pop() {
            self.buffer = pair.0;
            self.cursor = pair.1;
            proof {
                let h = old(self).state().history;
                assert(pair_valid(h[h.len() - 1].0, h[h.len() - 1].1));
                assert(self.state().history =~= h.drop_last());
            }
        }
    }
}

} // verus!
