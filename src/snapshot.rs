//! Point-in-time screen snapshots and their textual rendering, with the
//! cursor drawn into the text and described in a footer line.

use vstd::prelude::*;

use crate::text::{
    decimal, escape_default, push_char, push_chars, push_decimal, push_escape_default,
    trim_end_chars, trim_end_ws,
};

verus! {

/// The glyph drawn in place of the character under the cursor.
pub const CURSOR_MARKER: char = '\u{25AE}';

/// The footer of a snapshot whose cursor is hidden.
pub open spec fn hidden_cursor_footer() -> Seq<char> {
    "Cursor info: row=-, col=-, char=\"\""@
}

/// The rows of the screen with their trailing whitespace removed.
pub open spec fn trimmed_rows(lines: Seq<Seq<char>>) -> Seq<Seq<char>> {
    lines.map_values(|l: Seq<char>| trim_end_ws(l))
}

/// `n` spaces.
pub open spec fn spaces(n: nat) -> Seq<char> {
    Seq::new(n, |i: int| ' ')
}

/// `n` empty rows.
pub open spec fn blank_rows(n: nat) -> Seq<Seq<char>> {
    Seq::new(n, |i: int| Seq::<char>::empty())
}

/// `row` padded with spaces up to column `col`, with the marker at `col`.
pub open spec fn with_marker(row: Seq<char>, col: nat) -> Seq<char> {
    let padded = if col < row.len() {
        row
    } else {
        row + spaces((col + 1 - row.len()) as nat)
    };
    padded.update(col as int, CURSOR_MARKER)
}

/// The trimmed rows, padded with empty rows down to `row`, with the marker
/// drawn at (`col`, `row`).
pub open spec fn marked_rows(lines: Seq<Seq<char>>, col: nat, row: nat) -> Seq<Seq<char>> {
    let t = trimmed_rows(lines);
    let padded = if row < t.len() {
        t
    } else {
        t + blank_rows((row + 1 - t.len()) as nat)
    };
    padded.update(row as int, with_marker(padded[row as int], col))
}

/// The character of the screen at (`col`, `row`) before trimming; a space
/// where the screen holds none.
pub open spec fn char_at_cursor(lines: Seq<Seq<char>>, col: nat, row: nat) -> char {
    if row < lines.len() && col < lines[row as int].len() {
        lines[row as int][col as int]
    } else {
        ' '
    }
}

/// The rows joined by line feeds.
pub open spec fn join_lines(rows: Seq<Seq<char>>) -> Seq<char>
    decreases rows.len(),
{
    if rows.len() == 0 {
        Seq::empty()
    } else if rows.len() == 1 {
        rows[0]
    } else {
        join_lines(rows.drop_last()) + seq!['\n'] + rows.last()
    }
}

/// The rows that a snapshot shows: trimmed, and marked where the cursor is.
pub open spec fn screen_rows(lines: Seq<Seq<char>>, cursor: Option<(usize, usize)>) -> Seq<
    Seq<char>,
> {
    match cursor {
        Some((col, row)) => marked_rows(lines, col as nat, row as nat),
        None => trimmed_rows(lines),
    }
}

/// The footer line that reports the cursor.
pub open spec fn cursor_footer(lines: Seq<Seq<char>>, cursor: Option<(usize, usize)>) -> Seq<
    char,
> {
    match cursor {
        Some((col, row)) => "Cursor info: row="@ + decimal(row as nat) + ", col="@ + decimal(
            col as nat,
        ) + ", char=\""@ + escape_default(char_at_cursor(lines, col as nat, row as nat))
            + "\""@,
        None => hidden_cursor_footer(),
    }
}

/// The rows joined by line feeds, followed by one more line feed when that
/// text is not empty.
pub open spec fn screen_body(rows: Seq<Seq<char>>) -> Seq<char> {
    let body = join_lines(rows);
    if body.len() > 0 {
        body.push('\n')
    } else {
        body
    }
}

/// The full rendering of a screen: its rows, then the cursor footer.
pub open spec fn rendered_screen(lines: Seq<Seq<char>>, cursor: Option<(usize, usize)>) -> Seq<
    char,
> {
    screen_body(screen_rows(lines, cursor)) + cursor_footer(lines, cursor)
}

/// The texts held by a sequence of character vectors.
pub open spec fn char_rows(rows: Seq<Vec<char>>) -> Seq<Seq<char>> {
    rows.map_values(|r: Vec<char>| r@)
}

/// What the terminal showed at one moment: its size, the cursor as
/// (column, row) when it is visible, and the text of each row.
#[derive(Debug, Clone)]
pub struct TerminalSnapshot {
    pub cols: usize,
    pub rows: usize,
    pub cursor: Option<(usize, usize)>,
    pub lines: Vec<String>,
}

impl TerminalSnapshot {
    /// The text of each row.
    pub open spec fn lines_view(&self) -> Seq<Seq<char>> {
        self.lines@.map_values(|l: String| l@)
    }

    /// The text that [`TerminalSnapshot::render`] gives.
    pub open spec fn rendered(&self) -> Seq<char> {
        rendered_screen(self.lines_view(), self.cursor)
    }

    /// The character at (`col`, `row`) before trimming, a space past the text.
    fn char_at(&self, col: usize, row: usize) -> (c: char)
        ensures
            c == char_at_cursor(self.lines_view(), col as nat, row as nat),
    {
        if row < self.lines.len() {
            let line = self.lines[row].as_str();
            if col < line.unicode_len() {
                return line.get_char(col);
            }
        }
        ' '
    }

    /// Renders the snapshot: each row without trailing whitespace, the cursor
    /// cell replaced by a marker (rows and columns padded with blanks until it
    /// fits), the rows joined by line feeds with one more after them when
    /// there is any text, then a footer with the cursor's row, column and
    /// the escaped character that the marker covers.
    pub fn render(&self) -> (r: String)
        ensures
            r@ == self.rendered(),
    {
        let n = self.lines.len();
        let mut rows: Vec<Vec<char>> = Vec::new();
        let ghost lines = self.lines_view();
        for i in 0..n
            invariant
                n == self.lines.len(),
                lines == self.lines_view(),
                rows.len() == i,
                forall|j: int| 0 <= j < i ==> #[trigger] rows@[j]@ == trim_end_ws(lines[j]),
        {
            let t = trim_end_chars(self.lines[i].as_str());
            rows.push(t);
        }
        assert(char_rows(rows@) =~= trimmed_rows(lines));
        let mut footer = String::new();
        match self.cursor {
            Some((col, row)) => {
                let cursor_char = self.char_at(col, row);
                let ghost t = trimmed_rows(lines);
                while rows.len() <= row
                    invariant
                        t.len() <= rows.len(),
                        rows.len() == t.len() || rows.len() <= row + 1,
                        t == trimmed_rows(lines),
                        forall|j: int| 0 <= j < t.len() ==> #[trigger] rows@[j]@ == t[j],
                        forall|j: int|
                            t.len() <= j < rows.len() ==> #[trigger] rows@[j]@ == Seq::<char>::empty(),
                    decreases row + 1 - rows.len(),
                {
                    let empty: Vec<char> = Vec::new();
                    assert(empty@ =~= Seq::<char>::empty());
                    rows.push(empty);
                }
                let ghost padded = char_rows(rows@);
                assert(padded =~= t + blank_rows((rows.len() - t.len()) as nat));
                assert(padded =~= if row < t.len() {
                    t
                } else {
                    t + blank_rows((row + 1 - t.len()) as nat)
                });
                let mut line: Vec<char> = Vec::new();
                rows.set_and_swap(row, &mut line);
                let ghost start = line@;
                while line.len() <= col
                    invariant
                        start.len() <= line.len(),
                        line.len() == start.len() || line.len() <= col + 1,
                        line@ =~= start + spaces((line.len() - start.len()) as nat),
                    decreases col + 1 - line.len(),
                {
                    line.push(' ');
                    assert(line@ =~= start + spaces((line.len() - start.len()) as nat));
                }
                line.set(col, CURSOR_MARKER);
                assert(line@ =~= with_marker(start, col as nat));
                rows.set(row, line);
                assert(char_rows(rows@) =~= marked_rows(lines, col as nat, row as nat));
                footer.append("Cursor info: row=");
                push_decimal(&mut footer, row as u64);
                footer.append(", col=");
                push_decimal(&mut footer, col as u64);
                footer.append(", char=\"");
                push_escape_default(&mut footer, cursor_char);
                footer.append("\"");
            },
            None => {
                footer.append("Cursor info: row=-, col=-, char=\"\"");
            },
        }
        assert(footer@ =~= cursor_footer(lines, self.cursor));
        let ghost shown = char_rows(rows@);
        assert(shown == screen_rows(lines, self.cursor));
        let mut out = String::new();
        for i in 0..rows.len()
            invariant
                shown == char_rows(rows@),
                out@ == join_lines(shown.subrange(0, i as int)),
        {
            if i > 0 {
                push_char(&mut out, '\n');
            }
            push_chars(&mut out, &rows[i]);
            assert(shown.subrange(0, i + 1).drop_last() =~= shown.subrange(0, i as int));
            assert(out@ =~= join_lines(shown.subrange(0, i + 1)));
        }
        assert(shown.subrange(0, rows.len() as int) =~= shown);
        if !out.as_str().is_empty() {
            push_char(&mut out, '\n');
        }
        out.append(footer.as_str());
        out
    }
}

/// The escaped form of `ch` shown in the footer: `\"` for a double quote, a
/// doubled backslash, `\n` for a line feed, `\u{..}` for what is not printable.
pub fn escape_display_char(ch: char) -> (r: String)
    ensures
        r@ == escape_default(ch),
{
    let mut r = String::new();
    push_escape_default(&mut r, ch);
    assert(r@ =~= escape_default(ch));
    r
}

/// The row that the cursor lands on once trimmed; an empty row below the text.
pub open spec fn row_before_marker(lines: Seq<Seq<char>>, row: nat) -> Seq<char> {
    if row < lines.len() {
        trim_end_ws(lines[row as int])
    } else {
        Seq::empty()
    }
}

/// Rendering is a function of the rows and the cursor alone: two snapshots
/// that agree on them render to the same text, however often it is done.
pub proof fn lemma_render_deterministic(a: &TerminalSnapshot, b: &TerminalSnapshot)
    requires
        a.lines_view() == b.lines_view(),
        a.cursor == b.cursor,
    ensures
        a.rendered() == b.rendered(),
{
}

/// With the cursor hidden, the rendering is the trimmed rows followed by the
/// footer `Cursor info: row=-, col=-, char=""`.
pub proof fn lemma_hidden_cursor_footer(s: &TerminalSnapshot)
    requires
        s.cursor is None,
    ensures
        s.rendered() == screen_body(trimmed_rows(s.lines_view())) + hidden_cursor_footer(),
        cursor_footer(s.lines_view(), s.cursor) == hidden_cursor_footer(),
{
}

/// A cursor at or past the end of its trimmed row: the row is padded with
/// spaces up to the cursor's column and the marker is drawn there, and where
/// the cell held a space or nothing the footer reports a space.
pub proof fn lemma_cursor_past_row_end(s: &TerminalSnapshot, col: usize, row: usize)
    requires
        s.cursor == Some((col, row)),
        col >= row_before_marker(s.lines_view(), row as nat).len(),
        row < s.lines.len() && col < s.lines_view()[row as int].len() ==> s.lines_view()[row as int][col as int] == ' ',
    ensures
        screen_rows(s.lines_view(), s.cursor)[row as int] == row_before_marker(
            s.lines_view(),
            row as nat,
        ) + spaces((col - row_before_marker(s.lines_view(), row as nat).len()) as nat) + seq![
            CURSOR_MARKER,
        ],
        char_at_cursor(s.lines_view(), col as nat, row as nat) == ' ',
        cursor_footer(s.lines_view(), s.cursor) == "Cursor info: row="@ + decimal(row as nat)
            + ", col="@ + decimal(col as nat) + ", char=\""@ + seq![' '] + "\""@,
{
    let lines = s.lines_view();
    let t = trimmed_rows(lines);
    let padded = if row < t.len() {
        t
    } else {
        t + blank_rows((row + 1 - t.len()) as nat)
    };
    let before = row_before_marker(lines, row as nat);
    assert(padded[row as int] == before);
    assert(with_marker(before, col as nat) =~= before + spaces((col - before.len()) as nat)
        + seq![CURSOR_MARKER]);
    assert(escape_default(' ') == seq![' ']);
}

/// The character under the cursor stands escaped in the footer: a double
/// quote as a backslash and a quote, a backslash doubled.
pub proof fn lemma_cursor_char_escaped(s: &TerminalSnapshot, col: usize, row: usize)
    requires
        s.cursor == Some((col, row)),
    ensures
        cursor_footer(s.lines_view(), s.cursor) == "Cursor info: row="@ + decimal(row as nat)
            + ", col="@ + decimal(col as nat) + ", char=\""@ + escape_default(
            char_at_cursor(s.lines_view(), col as nat, row as nat),
        ) + "\""@,
        char_at_cursor(s.lines_view(), col as nat, row as nat) == '"' ==> escape_default(
            char_at_cursor(s.lines_view(), col as nat, row as nat),
        ) == seq!['\\', '"'],
        char_at_cursor(s.lines_view(), col as nat, row as nat) == '\\' ==> escape_default(
            char_at_cursor(s.lines_view(), col as nat, row as nat),
        ) == seq!['\\', '\\'],
{
}

} // verus!
