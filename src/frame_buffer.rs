use crate::span::Span;
use crate::text::{decimal, push_decimal, spaces};
use crate::text_buffer::{
    edited, extended, inserted, joined, line_or_empty, line_views, min, rows_text,
    span_removable, split_lines, TextBuffer,
};
use vstd::prelude::*;
use vstd::string::*;

verus! {

/// Width of the left margin that holds line numbers: four digits and a space.
pub const GUTTER_WIDTH: usize = 5;

/// A line named relative to the cursor, or by its row.
#[derive(Debug, Clone, Copy, PartialEq, Eq, Structural)]
pub enum Line {
    Previous,
    Current,
    Next,
    Index(usize),
}

/// The row that `line` names when the cursor is on row `cursor_row`; none for
/// the line before row zero or after the largest row.
pub open spec fn row_of(cursor_row: int, line: Line) -> Option<int> {
    match line {
        Line::Previous => if cursor_row > 0 {
            Some(cursor_row - 1)
        } else {
            None
        },
        Line::Current => Some(cursor_row),
        Line::Next => if cursor_row < usize::MAX {
            Some(cursor_row + 1)
        } else {
            None
        },
        Line::Index(i) => Some(i as int),
    }
}

/// The number shown in the gutter for row `row`: right-aligned in four
/// columns, wider only when it has more digits.
pub open spec fn row_label(row: nat) -> Seq<char> {
    let digits = decimal(row);
    if digits.len() < 4 {
        spaces((4 - digits.len()) as nat) + digits
    } else {
        digits
    }
}

/// The text of the viewport rows `[start, end)`: each row's label, a space,
/// the line (empty when missing) and `"\r\n"`.
pub open spec fn viewable_text(lines: Seq<Seq<char>>, start: int, end: int) -> Seq<char>
    decreases end - start,
{
    if end <= start {
        Seq::empty()
    } else {
        viewable_text(lines, start, end - 1) + row_label((end - 1) as nat) + seq![' ']
            + line_or_empty(lines, end - 1) + seq!['\r', '\n']
    }
}

/// Appends the gutter label of row `row` to `s`.
fn push_row_label(s: &mut String, row: usize)
    ensures
        final(s)@ == old(s)@ + row_label(row as nat),
{
    let mut digits = String::new();
    push_decimal(&mut digits, row);
    let count = digits.as_str().unicode_len();
    if count < 4 {
        crate::text::push_spaces(s, 4 - count);
    }
    s.append(digits.as_str());
    assert(s@ =~= old(s)@ + row_label(row as nat));
}

/// The text being edited, the cursor on it and the rows on screen.
pub struct FrameBuffer {
    /// The lines.
    pub text_buffer: TextBuffer,
    /// Where the text is kept, as shown to the user; none for a scratch buffer.
    pub entry: Option<String>,
    /// The cursor, `(column, row)` in buffer space.
    pub position: (usize, usize),
    /// The rows on screen, `[start, end)`.
    pub viewable_rows: Span,
}

impl FrameBuffer {
    /// The lines, each as its characters.
    pub open spec fn lines(&self) -> Seq<Seq<char>> {
        self.text_buffer@
    }

    /// The row that `line` names from the cursor.
    pub open spec fn row_spec(&self, line: Line) -> Option<int> {
        row_of(self.position.1 as int, line)
    }

    /// Line `line` when it names an existing row.
    pub open spec fn line_spec(&self, line: Line) -> Option<Seq<char>> {
        match self.row_spec(line) {
            Some(row) => if 0 <= row < self.lines().len() {
                Some(self.lines()[row])
            } else {
                None
            },
            None => None,
        }
    }

    /// A buffer over `text_buffer`, with the cursor at the origin.
    pub fn new(text_buffer: Vec<String>, entry: Option<String>, viewable_rows: Span) -> (r: Self)
        ensures
            r.lines() == line_views(text_buffer@),
            r.entry == entry,
            r.position == (0usize, 0usize),
            r.viewable_rows == viewable_rows,
    {
        FrameBuffer { text_buffer: TextBuffer::new(text_buffer), entry, position: (0, 0), viewable_rows }
    }

    /// The lines of `data`, which `'\n'` separates.
    pub fn text_buffer_from_str(data: &str) -> (r: Vec<String>)
        ensures
            line_views(r@) == split_lines(data@),
    {
        TextBuffer::from_text(data).into_inner()
    }

    /// The lines joined by `'\n'`, as the text is persisted.
    pub fn format(&self) -> (r: String)
        ensures
            r@ == joined(self.lines()),
    {
        self.text_buffer.format()
    }

    /// The row that `line` names; none for the line before row zero.
    pub fn get_row(&self, line: Line) -> (r: Option<usize>)
        ensures
            r matches Some(row) ==> self.row_spec(line) == Some(row as int),
            r is None ==> self.row_spec(line) is None,
    {
        let row = self.position.1;
        match line {
            Line::Previous => if row > 0 {
                Some(row - 1)
            } else {
                None
            },
            Line::Current => Some(row),
            Line::Next => if row < usize::MAX {
                Some(row + 1)
            } else {
                None
            },
            Line::Index(i) => Some(i),
        }
    }

    /// Line `line`, if it exists.
    pub fn get(&self, line: Line) -> (r: Option<&String>)
        ensures
            r is Some <==> self.line_spec(line) is Some,
            r matches Some(text) ==> self.line_spec(line) == Some(text@),
    {
        match self.get_row(line) {
            Some(row) => self.text_buffer.get(row),
            None => None,
        }
    }

    /// Line `line` for changing in place, if it exists.
    pub fn get_mut(&mut self, line: Line) -> (r: Option<&mut String>)
        ensures
            old(self).line_spec(line) matches Some(text) ==> r is Some && (*r.unwrap())@ == text
                && final(self).lines() == old(self).lines().update(
                old(self).row_spec(line)->0,
                (*final(r.unwrap()))@,
            ),
            old(self).line_spec(line) is None ==> r is None && final(self).lines() == old(
                self,
            ).lines(),
            old(self).same_frame(final(self)),
    {
        match self.get_row(line) {
            Some(row) => self.text_buffer.get_mut(row),
            None => None,
        }
    }

    /// The line before the cursor's, if it exists.
    pub fn get_previous(&self) -> (r: Option<&String>)
        ensures
            r is Some <==> self.line_spec(Line::Previous) is Some,
            r matches Some(text) ==> self.line_spec(Line::Previous) == Some(text@),
    {
        self.get(Line::Previous)
    }

    /// The cursor's line, if it exists.
    pub fn get_current(&self) -> (r: Option<&String>)
        ensures
            r is Some <==> self.line_spec(Line::Current) is Some,
            r matches Some(text) ==> self.line_spec(Line::Current) == Some(text@),
    {
        self.get(Line::Current)
    }

    /// The line after the cursor's, if it exists.
    pub fn get_next(&self) -> (r: Option<&String>)
        ensures
            r is Some <==> self.line_spec(Line::Next) is Some,
            r matches Some(text) ==> self.line_spec(Line::Next) == Some(text@),
    {
        self.get(Line::Next)
    }

    /// The number of lines.
    pub fn len(&self) -> (r: usize)
        ensures
            r == self.lines().len(),
    {
        self.text_buffer.len()
    }

    /// Whether there is no line.
    pub fn is_empty(&self) -> (r: bool)
        ensures
            r == (self.lines().len() == 0),
    {
        self.text_buffer.is_empty()
    }

    /// The number of characters on line `line`; zero when it does not exist.
    pub fn line_len(&self, line: Line) -> (r: usize)
        ensures
            self.line_spec(line) matches Some(text) ==> r == text.len(),
            self.line_spec(line) is None ==> r == 0,
    {
        match self.get_row(line) {
            Some(row) => self.text_buffer.line_len(row),
            None => 0,
        }
    }

    /// Whether line `line` is missing or holds no character.
    pub fn line_is_empty(&self, line: Line) -> (r: bool)
        ensures
            r == (self.line_spec(line) matches Some(text) ==> text.len() == 0),
    {
        self.line_len(line) == 0
    }

    /// Whether `other` has the same entry, cursor and viewport as `self`.
    pub open spec fn same_frame(&self, other: &FrameBuffer) -> bool {
        &&& other.entry == self.entry
        &&& other.position == self.position
        &&& other.viewable_rows == self.viewable_rows
    }

    /// The lines after `edit` is applied at the row that `line` names;
    /// unchanged when it names none.
    pub open spec fn at_row(
        &self,
        line: Line,
        edit: spec_fn(Seq<Seq<char>>, int) -> Seq<Seq<char>>,
    ) -> Seq<Seq<char>> {
        match self.row_spec(line) {
            Some(row) => edit(self.lines(), row),
            None => self.lines(),
        }
    }

    /// Inserts `data` as line `line`, shifting later lines down; past the end,
    /// first fills the gap with empty lines.
    pub fn insert(&mut self, line: Line, data: &str)
        ensures
            final(self).lines() == old(self).at_row(
                line,
                |lines: Seq<Seq<char>>, row: int| inserted(lines, row, data@),
            ),
            old(self).same_frame(final(self)),
    {
        if let Some(row) = self.get_row(line) {
            self.text_buffer.insert(row, data);
        }
    }

    /// Adds `data` after the last line.
    pub fn append(&mut self, data: &str)
        ensures
            final(self).lines() == old(self).lines().push(data@),
            old(self).same_frame(final(self)),
    {
        self.text_buffer.append(data);
    }

    /// Removes and returns line `line`, shifting later lines up; nothing when
    /// it does not exist.
    pub fn remove(&mut self, line: Line) -> (r: Option<String>)
        ensures
            old(self).line_spec(line) matches Some(text) ==> (r matches Some(s) && s@ == text),
            old(self).line_spec(line) is None ==> r is None,
            final(self).lines() == old(self).at_row(
                line,
                |lines: Seq<Seq<char>>, row: int|
                    if row < lines.len() {
                        lines.remove(row)
                    } else {
                        lines
                    },
            ),
            old(self).same_frame(final(self)),
    {
        match self.get_row(line) {
            Some(row) => self.text_buffer.remove(row),
            None => None,
        }
    }

    /// Removes and returns rows `[span.start, span.end)`, provided that
    /// `span.start <= span.end` and `span.end` is below the number of lines;
    /// otherwise removes nothing.
    pub fn remove_span(&mut self, span: Span) -> (r: Vec<String>)
        ensures
            ({
                let lines = old(self).lines();
                span.start <= span.end < lines.len() ==> line_views(r@) == lines.subrange(
                    span.start as int,
                    span.end as int,
                ) && final(self).lines() == lines.subrange(0, span.start as int)
                    + lines.subrange(span.end as int, lines.len() as int)
            }),
            !(span.start <= span.end < old(self).lines().len()) ==> r@.len() == 0
                && final(self).lines() == old(self).lines(),
            old(self).same_frame(final(self)),
    {
        self.text_buffer.remove_span(span)
    }

    /// Places `character` at `column` of line `line`: inserted when `column`
    /// lies within the line, else appended after padding with spaces up to
    /// `column`; a missing line is created as `column` spaces followed by it.
    pub fn line_insert(&mut self, line: Line, column: usize, character: char)
        ensures
            final(self).lines() == old(self).at_row(
                line,
                |lines: Seq<Seq<char>>, row: int| edited(lines, row, column as int, seq![character]),
            ),
            old(self).same_frame(final(self)),
    {
        if let Some(row) = self.get_row(line) {
            self.text_buffer.line_insert(row, column, character);
        }
    }

    /// Places `segment` at `column` of line `line`, as `line_insert` places a
    /// character.
    pub fn line_insert_str(&mut self, line: Line, column: usize, segment: &str)
        ensures
            final(self).lines() == old(self).at_row(
                line,
                |lines: Seq<Seq<char>>, row: int| edited(lines, row, column as int, segment@),
            ),
            old(self).same_frame(final(self)),
    {
        if let Some(row) = self.get_row(line) {
            self.text_buffer.line_insert_str(row, column, segment);
        }
    }

    /// Adds `character` at the end of line `line`; a missing line is inserted
    /// holding it.
    pub fn line_append(&mut self, line: Line, character: char)
        ensures
            final(self).lines() == old(self).at_row(
                line,
                |lines: Seq<Seq<char>>, row: int| extended(lines, row, seq![character]),
            ),
            old(self).same_frame(final(self)),
    {
        if let Some(row) = self.get_row(line) {
            self.text_buffer.line_append(row, character);
        }
    }

    /// Adds `segment` at the end of line `line`; a missing line is inserted
    /// holding it.
    pub fn line_append_str(&mut self, line: Line, segment: &str)
        ensures
            final(self).lines() == old(self).at_row(
                line,
                |lines: Seq<Seq<char>>, row: int| extended(lines, row, segment@),
            ),
            old(self).same_frame(final(self)),
    {
        if let Some(row) = self.get_row(line) {
            self.text_buffer.line_append_str(row, segment);
        }
    }

    /// Removes and returns the character at `column` of line `line`; nothing
    /// when there is no such character.
    pub fn line_remove(&mut self, line: Line, column: usize) -> (r: Option<char>)
        ensures
            ({
                let found = old(self).line_spec(line);
                let text = found->0;
                if found is Some && column < text.len() {
                    r == Some(text[column as int]) && final(self).lines() == old(self).lines().update(
                        old(self).row_spec(line)->0,
                        text.remove(column as int),
                    )
                } else {
                    r is None && final(self).lines() == old(self).lines()
                }
            }),
            old(self).same_frame(final(self)),
    {
        match self.get_row(line) {
            Some(row) => self.text_buffer.line_remove(row, column),
            None => None,
        }
    }

    /// Removes and returns the characters `[span.start, span.end)` of line
    /// `line`, with `span.end` clamped to the line's length; nothing when the
    /// line is missing or empty, or `span.start` is past its end or past
    /// `span.end`.
    pub fn line_remove_span(&mut self, line: Line, span: Span) -> (r: Option<String>)
        ensures
            ({
                let found = old(self).line_spec(line);
                let text = found->0;
                let end = min(span.end as int, text.len() as int);
                if found is Some && span_removable(text, span.start as int, span.end as int) {
                    (r matches Some(removed) && removed@ == text.subrange(span.start as int, end))
                        && final(self).lines() == old(self).lines().update(
                        old(self).row_spec(line)->0,
                        text.subrange(0, span.start as int) + text.subrange(end, text.len() as int),
                    )
                } else {
                    r is None && final(self).lines() == old(self).lines()
                }
            }),
            old(self).same_frame(final(self)),
    {
        match self.get_row(line) {
            Some(row) => self.text_buffer.line_remove_span(row, span),
            None => None,
        }
    }

    /// The text of rows `[span.start, span.end)`, each ended by `"\r\n"`.
    pub fn format_span(&self, span: Span) -> (r: String)
        ensures
            r@ == rows_text(self.lines(), span.start as int, span.end as int),
    {
        self.text_buffer.format_span(span)
    }

    /// The viewport's rows as drawn: each with its gutter label, a space, the
    /// line and `"\r\n"`.
    pub fn format_viewable(&self) -> (r: String)
        ensures
            r@ == viewable_text(
                self.lines(),
                self.viewable_rows.start as int,
                self.viewable_rows.end as int,
            ),
    {
        let start = self.viewable_rows.start;
        let end = self.viewable_rows.end;
        let mut r = String::new();
        let mut i = start;
        while i < end
            invariant
                start <= i <= end || (i == start && end < start),
                start == self.viewable_rows.start,
                end == self.viewable_rows.end,
                r@ == viewable_text(self.lines(), start as int, i as int),
            decreases end - i,
        {
            push_row_label(&mut r, i);
            r.push(' ');
            if let Some(line) = self.text_buffer.get(i) {
                r.append(line.as_str());
            }
            r.push('\r');
            r.push('\n');
            assert(r@ =~= viewable_text(self.lines(), start as int, i + 1));
            i += 1;
        }
        proof {
            if end < start {
                assert(viewable_text(self.lines(), start as int, end as int) =~= Seq::empty());
            }
        }
        r
    }
}

} // verus!
