//! The document as an ordered sequence of lines. Every edit produces a new
//! buffer value and leaves the old one as it was.
use vstd::prelude::*;

verus! {

/// The largest number of lines, and the bound on a line's length in
/// characters, that positions of type `u16` can address.
pub const MAX_EXTENT: u16 = 65535;

/// Length of line `row` of `lines`, or 0 when `row` is not a line of it.
pub open spec fn spec_line_length(lines: Seq<Seq<char>>, row: int) -> nat {
    if 0 <= row < lines.len() {
        lines[row].len()
    } else {
        0
    }
}

/// Lines that coordinates of type `u16` can address: at most `MAX_EXTENT`
/// lines, each shorter than `MAX_EXTENT`, so that one position past the end
/// of a line, and its one-based screen column, still fit.
pub open spec fn lines_fit(lines: Seq<Seq<char>>) -> bool {
    &&& lines.len() <= MAX_EXTENT
    &&& forall|i: int| 0 <= i < lines.len() ==> #[trigger] lines[i].len() < MAX_EXTENT
}

/// `line` with `c` placed before its character at `col`.
pub open spec fn line_insert(line: Seq<char>, c: char, col: int) -> Seq<char> {
    line.take(col) + seq![c] + line.skip(col)
}

/// `line` without its character at `col`.
pub open spec fn line_remove(line: Seq<char>, col: int) -> Seq<char> {
    line.take(col) + line.skip(col + 1)
}

/// `lines` after inserting `c` at (`row`, `col`); unchanged when `row` is not
/// a line.
pub open spec fn spec_insert(lines: Seq<Seq<char>>, c: char, row: int, col: int) -> Seq<
    Seq<char>,
> {
    if 0 <= row < lines.len() {
        lines.update(row, line_insert(lines[row], c, col))
    } else {
        lines
    }
}

/// `lines` after deleting the character at (`row`, `col`); unchanged when
/// there is no character there.
pub open spec fn spec_delete(lines: Seq<Seq<char>>, row: int, col: int) -> Seq<Seq<char>> {
    if 0 <= row < lines.len() && 0 <= col < lines[row].len() {
        lines.update(row, line_remove(lines[row], col))
    } else {
        lines
    }
}

/// `lines` with line `row` cut in two at `col`: the text before `col` stays
/// at `row`, the rest becomes line `row + 1`, and later lines move down one.
pub open spec fn spec_split(lines: Seq<Seq<char>>, row: int, col: int) -> Seq<Seq<char>> {
    lines.take(row) + seq![lines[row].take(col), lines[row].skip(col)] + lines.skip(row + 1)
}

/// The terminal text of `lines`: each line followed by a carriage return and
/// a line feed, so that raw mode starts the next one at the left edge.
pub open spec fn spec_render(lines: Seq<Seq<char>>) -> Seq<char>
    decreases lines.len(),
{
    if lines.len() == 0 {
        Seq::empty()
    } else {
        spec_render(lines.drop_last()) + lines.last() + seq!['\r', '\n']
    }
}

/// Deleting at the place of an insertion gives back the lines from before
/// the insertion.
pub proof fn lemma_insert_delete_round_trip(lines: Seq<Seq<char>>, c: char, row: int, col: int)
    requires
        0 <= row < lines.len(),
        0 <= col <= lines[row].len(),
    ensures
        spec_delete(spec_insert(lines, c, row, col), row, col) == lines,
{
    let line = lines[row];
    assert(line_remove(line_insert(line, c, col), col) =~= line);
    assert(spec_delete(spec_insert(lines, c, row, col), row, col) =~= lines);
}

/// Splitting a line leaves one more line, and the two halves joined give back
/// the line that was split; the lines before and after it are kept in order.
pub proof fn lemma_split_rejoin(lines: Seq<Seq<char>>, row: int, col: int)
    requires
        0 <= row < lines.len(),
        0 <= col <= lines[row].len(),
    ensures
        spec_split(lines, row, col).len() == lines.len() + 1,
        spec_split(lines, row, col)[row] + spec_split(lines, row, col)[row + 1] == lines[row],
        forall|i: int| 0 <= i < row ==> #[trigger] spec_split(lines, row, col)[i] == lines[i],
        forall|i: int|
            row < i < lines.len() ==> #[trigger] spec_split(lines, row, col)[i + 1] == lines[i],
{
    let split = spec_split(lines, row, col);
    assert(split[row] + split[row + 1] =~= lines[row]);
}

#[derive(Clone)]
pub struct Buffer {
    lines: Vec<String>,
}

impl View for Buffer {
    type V = Seq<Seq<char>>;

    closed spec fn view(&self) -> Seq<Seq<char>> {
        self.lines@.map_values(|s: String| s@)
    }
}

impl Buffer {
    /// Whether every position of the buffer fits in a `u16`.
    pub open spec fn wf(&self) -> bool {
        lines_fit(self@)
    }

    /// A buffer holding `lines`, in order.
    pub fn new(lines: Vec<String>) -> (r: Self)
        requires
            lines_fit(lines@.map_values(|s: String| s@)),
        ensures
            r@ == lines@.map_values(|s: String| s@),
            r.wf(),
    {
        Buffer { lines }
    }

    /// Number of lines.
    pub fn line_count(&self) -> (r: u16)
        requires
            self.wf(),
        ensures
            r == self@.len(),
    {
        self.lines.len() as u16
    }

    /// Number of characters of line `row`; 0 when there is no such line.
    pub fn line_length(&self, row: u16) -> (r: u16)
        requires
            self.wf(),
        ensures
            row < self@.len() ==> r == self@[row as int].len(),
            row >= self@.len() ==> r == 0,
    {
        if (row as usize) < self.lines.len() {
            let n = self.lines[row as usize].as_str().unicode_len();
            proof {
                assert(self@[row as int] == self.lines@[row as int]@);
                assert(self@[row as int].len() < MAX_EXTENT);
            }
            n as u16
        } else {
            0
        }
    }
}

/// Relies on String::push: appends `c` to the end of `s`.
#[verifier::external_body]
fn push_char(s: &mut String, c: char)
    ensures
        final(s)@ == old(s)@.push(c),
{
    s.push(c)
}

impl Buffer {
    /// The buffer with `c` inserted before the character at `col` of line
    /// `row`, or unchanged when there is no line `row`. `col` may be one past
    /// the line's end, which appends.
    pub fn insert(&self, c: char, row: u16, col: u16) -> (r: Self)
        requires
            self.wf(),
            row < self@.len() ==> col <= self@[row as int].len(),
            row < self@.len() ==> self@[row as int].len() + 1 < MAX_EXTENT,
        ensures
            r@ == spec_insert(self@, c, row as int, col as int),
            r.wf(),
    {
        let mut lines = self.copy_lines();
        if (row as usize) < lines.len() {
            let line: &str = lines[row as usize].as_str();
            let len = line.unicode_len();
            let mut s = String::from_str(line.substring_char(0, col as usize));
            push_char(&mut s, c);
            s.append(line.substring_char(col as usize, len));
            proof {
                assert(s@ =~= line_insert(self@[row as int], c, col as int));
            }
            lines.set(row as usize, s);
        }
        let r = Buffer { lines };
        proof {
            assert(r@ =~= spec_insert(self@, c, row as int, col as int));
            assert(lines_fit(r@));
        }
        r
    }

    /// The buffer without the character at `col` of line `row`, or unchanged
    /// when there is no such character.
    pub fn delete(&self, row: u16, col: u16) -> (r: Self)
        requires
            self.wf(),
        ensures
            r@ == spec_delete(self@, row as int, col as int),
            r.wf(),
    {
        let mut lines = self.copy_lines();
        if (row as usize) < lines.len() {
            let line: &str = lines[row as usize].as_str();
            let len = line.unicode_len();
            if (col as usize) < len {
                let mut s = String::from_str(line.substring_char(0, col as usize));
                s.append(line.substring_char(col as usize + 1, len));
                proof {
                    assert(s@ =~= line_remove(self@[row as int], col as int));
                }
                lines.set(row as usize, s);
            }
        }
        let r = Buffer { lines };
        proof {
            assert(r@ =~= spec_delete(self@, row as int, col as int));
            assert(lines_fit(r@));
        }
        r
    }

    /// The buffer with line `row` split at `col`: the text before `col` stays
    /// as line `row`, the text from `col` on becomes line `row + 1`.
    pub fn split_line(&self, row: u16, col: u16) -> (r: Self)
        requires
            self.wf(),
            row < self@.len(),
            col <= self@[row as int].len(),
            self@.len() < MAX_EXTENT,
        ensures
            r@ == spec_split(self@, row as int, col as int),
            r.wf(),
    {
        let n = self.lines.len();
        let ghost split = spec_split(self@, row as int, col as int);
        let mut lines: Vec<String> = Vec::with_capacity(n + 1);
        let mut i: usize = 0;
        while i < n
            invariant
                n == self.lines@.len(),
                n == self@.len(),
                row < n,
                col <= self@[row as int].len(),
                split == spec_split(self@, row as int, col as int),
                0 <= i <= n,
                lines@.len() == if i <= row {
                    i as int
                } else {
                    i + 1
                },
                forall|j: int| 0 <= j < lines@.len() ==> #[trigger] lines@[j]@ == split[j],
            decreases n - i,
        {
            let line: &str = self.lines[i].as_str();
            proof {
                assert(line@ == self@[i as int]);
            }
            if i == row as usize {
                let len = line.unicode_len();
                lines.push(String::from_str(line.substring_char(0, col as usize)));
                lines.push(String::from_str(line.substring_char(col as usize, len)));
            } else {
                proof {
                    if i > row {
                        assert(split[i + 1] == self@[i as int]);
                    } else {
                        assert(split[i as int] == self@[i as int]);
                    }
                }
                lines.push(String::from_str(line));
            }
            i = i + 1;
        }
        let r = Buffer { lines };
        proof {
            assert(r@ =~= spec_split(self@, row as int, col as int));
            assert(lines_fit(r@));
        }
        r
    }

    /// The text that draws the buffer on a raw terminal, one line per row.
    pub fn render(&self) -> (r: String)
        ensures
            r@ == spec_render(self@),
    {
        let mut out = String::new();
        let n = self.lines.len();
        let mut i: usize = 0;
        while i < n
            invariant
                n == self@.len(),
                0 <= i <= n,
                out@ == spec_render(self@.take(i as int)),
            decreases n - i,
        {
            let line: &str = self.lines[i].as_str();
            out.append(line);
            out.append("\r\n");
            proof {
                reveal_strlit("\r\n");
                assert(self@.take(i as int + 1).drop_last() =~= self@.take(i as int));
                assert(line@ == self@[i as int]);
            }
            i = i + 1;
        }
        proof {
            assert(self@.take(n as int) =~= self@);
        }
        out
    }

    /// The lines, in order.
    pub fn lines(&self) -> (r: &Vec<String>)
        ensures
            r@.map_values(|s: String| s@) == self@,
    {
        &self.lines
    }

    /// A copy of this buffer.
    pub fn duplicate(&self) -> (r: Self)
        ensures
            r@ == self@,
    {
        Buffer { lines: self.copy_lines() }
    }

    /// A copy of the lines.
    fn copy_lines(&self) -> (r: Vec<String>)
        ensures
            r@.map_values(|s: String| s@) == self@,
    {
        let r = self.lines.clone();
        proof {
            assert forall|i: int| 0 <= i < r@.len() implies r@[i] == self.lines@[i] by {
                assert(cloned::<String>(self.lines[i], r[i]));
            }
            assert(r@ =~= self.lines@);
        }
        r
    }
}

} // verus!
