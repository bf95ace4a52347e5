use crate::text::{chars_of, splice, spliced, string_of};
use vstd::prelude::*;
use vstd::string::*;

verus! {

/// The characters of each line, in order.
pub open spec fn line_views(lines: Seq<String>) -> Seq<Seq<char>> {
    lines.map_values(|s: String| s@)
}

/// `count` empty lines.
pub open spec fn empty_lines(count: nat) -> Seq<Seq<char>> {
    Seq::new(count, |j: int| Seq::<char>::empty())
}

/// `lines` with `text` inserted at `row`: later lines shift down when `row`
/// is in range; otherwise the gap up to `row` is filled with empty lines and
/// `text` becomes the last line.
pub open spec fn inserted(lines: Seq<Seq<char>>, row: int, text: Seq<char>) -> Seq<Seq<char>> {
    if row < lines.len() {
        lines.insert(row, text)
    } else {
        lines + empty_lines((row - lines.len()) as nat) + seq![text]
    }
}

/// `lines` with `segment` placed at `(column, row)`: spliced into the line
/// when it exists, else a new line at `row` holding `column` spaces and then
/// `segment`.
pub open spec fn edited(lines: Seq<Seq<char>>, row: int, column: int, segment: Seq<char>) -> Seq<
    Seq<char>,
> {
    if row < lines.len() {
        lines.update(row, spliced(lines[row], column, segment))
    } else {
        inserted(lines, row, spliced(Seq::empty(), column, segment))
    }
}

/// `lines` with `segment` added at the end of line `row`, or inserted as a
/// new line `row` when there is none.
pub open spec fn extended(lines: Seq<Seq<char>>, row: int, segment: Seq<char>) -> Seq<Seq<char>> {
    if row < lines.len() {
        lines.update(row, lines[row] + segment)
    } else {
        inserted(lines, row, segment)
    }
}

/// Line `row`, or nothing when there is no such line.
pub open spec fn line_or_empty(lines: Seq<Seq<char>>, row: int) -> Seq<char> {
    if 0 <= row < lines.len() {
        lines[row]
    } else {
        Seq::empty()
    }
}

/// The smaller of two bounds.
pub open spec fn min(a: int, b: int) -> int {
    if a <= b {
        a
    } else {
        b
    }
}

/// Whether `[start, end)` selects characters of `line`: `start` lies inside
/// the line and not past `end`.
pub open spec fn span_removable(line: Seq<char>, start: int, end: int) -> bool {
    start < line.len() && start <= end
}

/// The text that rows `[start, end)` show, each row ended by `"\r\n"` and a
/// missing row shown empty.
pub open spec fn rows_text(lines: Seq<Seq<char>>, start: int, end: int) -> Seq<char>
    decreases end - start,
{
    if end <= start {
        Seq::empty()
    } else {
        rows_text(lines, start, end - 1) + line_or_empty(lines, end - 1) + seq!['\r', '\n']
    }
}

/// Rows `[start, end)` run together: each line, or `'\n'` for a missing row.
pub open spec fn run_together(lines: Seq<Seq<char>>, start: int, end: int) -> Seq<char>
    decreases end - start,
{
    if end <= start {
        Seq::empty()
    } else {
        run_together(lines, start, end - 1) + if 0 <= end - 1 < lines.len() {
            lines[end - 1]
        } else {
            seq!['\n']
        }
    }
}

/// Lines joined by `'\n'`, with no newline after the last one.
pub open spec fn joined(lines: Seq<Seq<char>>) -> Seq<char>
    decreases lines.len(),
{
    if lines.len() == 0 {
        Seq::empty()
    } else if lines.len() == 1 {
        lines[0]
    } else {
        joined(lines.drop_last()) + seq!['\n'] + lines.last()
    }
}

/// The lines of `s`, which `'\n'` separates: one line more than `s` holds
/// newlines.
pub open spec fn split_lines(s: Seq<char>) -> Seq<Seq<char>>
    decreases s.len(),
{
    if s.len() == 0 {
        seq![Seq::empty()]
    } else {
        let init = split_lines(s.drop_last());
        if s.last() == '\n' {
            init.push(Seq::empty())
        } else {
            init.update(init.len() - 1, init.last().push(s.last()))
        }
    }
}

/// Splitting text into lines always gives at least one line.
pub proof fn lemma_split_lines_nonempty(s: Seq<char>)
    ensures
        split_lines(s).len() >= 1,
    decreases s.len(),
{
    if s.len() > 0 {
        lemma_split_lines_nonempty(s.drop_last());
    }
}

/// Joining the lines that text splits into gives the text back.
pub proof fn lemma_join_split(s: Seq<char>)
    ensures
        joined(split_lines(s)) == s,
    decreases s.len(),
{
    if s.len() == 0 {
        return;
    }
    let t = s.drop_last();
    let c = s.last();
    let init = split_lines(t);
    lemma_split_lines_nonempty(t);
    lemma_join_split(t);
    assert(s =~= t.push(c));
    if c == '\n' {
        let all = init.push(Seq::<char>::empty());
        assert(all.drop_last() =~= init);
        assert(joined(all) =~= s);
    } else {
        let all = init.update(init.len() - 1, init.last().push(c));
        if init.len() == 1 {
            assert(joined(all) =~= s);
        } else {
            assert(all.drop_last() =~= init.drop_last());
            assert(joined(all) =~= s);
        }
    }
}

/// An ordered store of text lines addressed by row. Rows are contiguous from
/// zero: inserting past the end fills the gap with empty lines.
pub struct TextBuffer(Vec<String>);

impl View for TextBuffer {
    type V = Seq<Seq<char>>;

    closed spec fn view(&self) -> Seq<Seq<char>> {
        line_views(self.0@)
    }
}

impl Default for TextBuffer {
    /// A store with no line.
    fn default() -> (r: Self)
        ensures
            r@ == Seq::<Seq<char>>::empty(),
    {
        let r = TextBuffer(Vec::new());
        assert(r@ =~= Seq::<Seq<char>>::empty());
        r
    }
}

impl TextBuffer {
    /// A store holding `inner`, one line each.
    pub fn new(inner: Vec<String>) -> (r: Self)
        ensures
            r@ == line_views(inner@),
    {
        TextBuffer(inner)
    }

    /// The number of lines.
    pub fn len(&self) -> (r: usize)
        ensures
            r == self@.len(),
    {
        self.0.len()
    }

    /// Whether the store holds no line.
    pub fn is_empty(&self) -> (r: bool)
        ensures
            r == (self@.len() == 0),
    {
        self.0.len() == 0
    }

    /// Line `i`, if there is one.
    pub fn get(&self, i: usize) -> (r: Option<&String>)
        ensures
            r is Some <==> i < self@.len(),
            r matches Some(line) ==> line@ == self@[i as int],
    {
        if i < self.0.len() {
            Some(&self.0[i])
        } else {
            None
        }
    }

    /// Line `i` for changing in place, if there is one.
    pub fn get_mut(&mut self, i: usize) -> (r: Option<&mut String>)
        ensures
            i < old(self)@.len() ==> r is Some && (*r.unwrap())@ == old(self)@[i as int]
                && final(self)@ == old(self)@.update(i as int, (*final(r.unwrap()))@),
            i >= old(self)@.len() ==> r is None && final(self)@ == old(self)@,
    {
        if i < self.0.len() {
            let ghost lines = self.0@;
            let line = &mut self.0[i];
            assert(line_views(after_borrow(self.0)@) =~= line_views(lines).update(
                i as int,
                (*final(line))@,
            ));
            Some(line)
        } else {
            None
        }
    }

    /// The number of characters on line `i`; zero when there is no line `i`.
    pub fn line_len(&self, i: usize) -> (r: usize)
        ensures
            r == line_or_empty(self@, i as int).len(),
    {
        if i < self.0.len() {
            let chars = chars_of(self.0[i].as_str());
            chars.len()
        } else {
            0
        }
    }

    /// Inserts `line` at row `i`, shifting later lines down; past the end,
    /// first fills the gap with empty lines.
    pub fn insert(&mut self, i: usize, line: &str)
        ensures
            final(self)@ == inserted(old(self)@, i as int, line@),
            i < old(self)@.len() ==> final(self)@.len() == old(self)@.len() + 1,
            i < old(self)@.len() ==> forall|j: int|
                0 <= j < i ==> #[trigger] final(self)@[j] == old(self)@[j],
            i < old(self)@.len() ==> forall|j: int|
                i < j < final(self)@.len() ==> #[trigger] final(self)@[j] == old(self)@[j - 1],
            final(self)@[i as int] == line@,
    {
        let len = self.0.len();
        if i < len {
            self.0.insert(i, line.to_owned());
            assert(self@ =~= old(self)@.insert(i as int, line@));
            return;
        }
        let mut k = len;
        while k < i
            invariant
                len == old(self)@.len(),
                len <= k <= i,
                self@ == old(self)@ + empty_lines((k - len) as nat),
            decreases i - k,
        {
            let ghost before = self@;
            let blank = String::new();
            self.0.push(blank);
            assert(self@ =~= before.push(blank@));
            assert(self@ =~= old(self)@ + empty_lines((k + 1 - len) as nat));
            k += 1;
        }
        self.0.push(line.to_owned());
        assert(self@ =~= inserted(old(self)@, i as int, line@));
    }

    /// Adds `line` after the last line.
    pub fn append(&mut self, line: &str)
        ensures
            final(self)@ == old(self)@.push(line@),
    {
        self.0.push(line.to_owned());
        assert(self@ =~= old(self)@.push(line@));
    }

    /// Removes and returns line `i`, shifting later lines up; nothing when
    /// there is no line `i`.
    pub fn remove(&mut self, i: usize) -> (r: Option<String>)
        ensures
            i < old(self)@.len() ==> (r matches Some(line) && line@ == old(self)@[i as int]
                && final(self)@ == old(self)@.remove(i as int)),
            i < old(self)@.len() ==> final(self)@.len() == old(self)@.len() - 1,
            i < old(self)@.len() ==> forall|j: int|
                0 <= j < i ==> #[trigger] final(self)@[j] == old(self)@[j],
            i < old(self)@.len() ==> forall|j: int|
                i <= j < final(self)@.len() ==> #[trigger] final(self)@[j] == old(self)@[j + 1],
            i >= old(self)@.len() ==> r is None && final(self)@ == old(self)@,
    {
        if i < self.0.len() {
            let line = self.0.remove(i);
            assert(self@ =~= old(self)@.remove(i as int));
            Some(line)
        } else {
            None
        }
    }

    /// Replaces line `i` with `line`.
    fn set_line(&mut self, i: usize, line: String)
        requires
            i < old(self)@.len(),
        ensures
            final(self)@ == old(self)@.update(i as int, line@),
    {
        self.0[i] = line;
        assert(self@ =~= old(self)@.update(i as int, line@));
    }

    /// Places `segment` at `(column, row)`: inserted when `column` lies
    /// within the line, else appended after padding the line with spaces up
    /// to `column`; a missing line is created as `column` spaces followed by
    /// `segment`.
    pub fn line_insert_str(&mut self, row: usize, column: usize, segment: &str)
        ensures
            final(self)@ == edited(old(self)@, row as int, column as int, segment@),
    {
        if row < self.0.len() {
            let line = splice(self.0[row].as_str(), column, segment);
            self.set_line(row, line);
        } else {
            let line = splice("", column, segment);
            proof {
                reveal_strlit("");
                assert(""@ =~= Seq::<char>::empty());
            }
            self.insert(row, line.as_str());
        }
    }

    /// Places `character` at `(column, row)` as `line_insert_str` places a
    /// segment.
    pub fn line_insert(&mut self, row: usize, column: usize, character: char)
        ensures
            final(self)@ == edited(old(self)@, row as int, column as int, seq![character]),
            row < old(self)@.len() && column > old(self)@[row as int].len() ==> ({
                let old_line = old(self)@[row as int];
                let new_line = final(self)@[row as int];
                &&& new_line.len() == column + 1
                &&& new_line.subrange(0, old_line.len() as int) == old_line
                &&& forall|k: int| old_line.len() <= k < column ==> #[trigger] new_line[k] == ' '
                &&& new_line[column as int] == character
            }),
    {
        let mut segment = String::new();
        segment.push(character);
        proof {
            assert(segment@ =~= seq![character]);
        }
        self.line_insert_str(row, column, segment.as_str());
        proof {
            if row < old(self)@.len() && column > old(self)@[row as int].len() {
                let old_line = old(self)@[row as int];
                let new_line = self@[row as int];
                assert(new_line.subrange(0, old_line.len() as int) =~= old_line);
            }
        }
    }

    /// Adds `segment` at the end of line `row`; a missing line is inserted
    /// holding `segment`.
    pub fn line_append_str(&mut self, row: usize, segment: &str)
        ensures
            final(self)@ == extended(old(self)@, row as int, segment@),
    {
        if row < self.0.len() {
            let mut line = self.0[row].clone();
            line.append(segment);
            self.set_line(row, line);
        } else {
            self.insert(row, segment);
        }
    }

    /// Adds `character` at the end of line `row`; a missing line is inserted
    /// holding it.
    pub fn line_append(&mut self, row: usize, character: char)
        ensures
            final(self)@ == extended(old(self)@, row as int, seq![character]),
    {
        let mut segment = String::new();
        segment.push(character);
        proof {
            assert(segment@ =~= seq![character]);
        }
        self.line_append_str(row, segment.as_str());
    }

    /// Removes and returns the character at `(column, row)`; nothing when
    /// there is no such character.
    pub fn line_remove(&mut self, row: usize, column: usize) -> (r: Option<char>)
        ensures
            row < old(self)@.len() && column < old(self)@[row as int].len() ==> r == Some(
                old(self)@[row as int][column as int],
            ) && final(self)@ == old(self)@.update(
                row as int,
                old(self)@[row as int].remove(column as int),
            ),
            !(row < old(self)@.len() && column < old(self)@[row as int].len()) ==> r is None
                && final(self)@ == old(self)@,
    {
        if row >= self.0.len() {
            return None;
        }
        let chars = chars_of(self.0[row].as_str());
        let len = chars.len();
        if column >= len {
            return None;
        }
        let removed = chars[column];
        let mut line = string_of(&chars, 0, column);
        let tail = string_of(&chars, column + 1, len);
        line.append(tail.as_str());
        assert(line@ =~= old(self)@[row as int].remove(column as int));
        self.set_line(row, line);
        Some(removed)
    }

    /// Removes and returns the characters `[span.start, span.end)` of line
    /// `row`, with `span.end` clamped to the line's length; nothing when the
    /// line is missing or empty, or `span.start` is past its end or past
    /// `span.end`.
    pub fn line_remove_span(&mut self, row: usize, span: crate::Span) -> (r: Option<String>)
        ensures
            ({
                let line = old(self)@[row as int];
                let end = min(span.end as int, line.len() as int);
                row < old(self)@.len() && span_removable(line, span.start as int, span.end as int)
                    ==> (r matches Some(removed) && removed@ == line.subrange(
                    span.start as int,
                    end,
                ) && final(self)@ == old(self)@.update(
                    row as int,
                    line.subrange(0, span.start as int) + line.subrange(end, line.len() as int),
                ))
            }),
            !(row < old(self)@.len() && span_removable(
                old(self)@[row as int],
                span.start as int,
                span.end as int,
            )) ==> r is None && final(self)@ == old(self)@,
    {
        if row >= self.0.len() {
            return None;
        }
        let chars = chars_of(self.0[row].as_str());
        let len = chars.len();
        if span.start >= len || span.start > span.end {
            return None;
        }
        let end = if span.end < len {
            span.end
        } else {
            len
        };
        let removed = string_of(&chars, span.start, end);
        let mut line = string_of(&chars, 0, span.start);
        let tail = string_of(&chars, end, len);
        line.append(tail.as_str());
        self.set_line(row, line);
        Some(removed)
    }

    /// The text of rows `[span.start, span.end)`, each ended by `"\r\n"`; a
    /// missing row shows as an empty line.
    pub fn format_span(&self, span: crate::Span) -> (r: String)
        ensures
            r@ == rows_text(self@, span.start as int, span.end as int),
    {
        let mut r = String::new();
        let mut i = span.start;
        while i < span.end
            invariant
                span.start <= i <= span.end || (i == span.start && span.end < span.start),
                r@ == rows_text(self@, span.start as int, i as int),
            decreases span.end - i,
        {
            if i < self.0.len() {
                r.append(self.0[i].as_str());
            }
            r.push('\r');
            r.push('\n');
            assert(r@ =~= rows_text(self@, span.start as int, i + 1));
            i += 1;
        }
        proof {
            if span.end < span.start {
                assert(rows_text(self@, span.start as int, span.end as int) =~= Seq::empty());
            }
        }
        r
    }

    /// The store read from text: one line per `'\n'`-separated part.
    pub fn from_text(data: &str) -> (r: Self)
        ensures
            r@ == split_lines(data@),
    {
        let chars = chars_of(data);
        let mut lines: Vec<String> = Vec::new();
        let mut current = String::new();
        let mut i: usize = 0;
        while i < chars.len()
            invariant
                i <= chars.len(),
                chars@ == data@,
                line_views(lines@).push(current@) == split_lines(chars@.take(i as int)),
            decreases chars.len() - i,
        {
            let c = chars[i];
            let ghost before = line_views(lines@).push(current@);
            assert(chars@.take(i + 1).drop_last() =~= chars@.take(i as int));
            if c == '\n' {
                lines.push(current);
                current = String::new();
                assert(line_views(lines@).push(current@) =~= before.push(Seq::empty()));
            } else {
                current.push(c);
                assert(line_views(lines@).push(current@) =~= before.update(
                    before.len() - 1,
                    before.last().push(c),
                ));
            }
            i += 1;
        }
        let ghost before = line_views(lines@).push(current@);
        lines.push(current);
        assert(line_views(lines@) =~= before);
        assert(chars@.take(chars.len() as int) =~= data@);
        TextBuffer(lines)
    }

    /// The lines joined by `'\n'`: the text that `from_text` reads back.
    pub fn format(&self) -> (r: String)
        ensures
            r@ == joined(self@),
    {
        let mut r = String::new();
        let mut i: usize = 0;
        while i < self.0.len()
            invariant
                i <= self@.len(),
                r@ == joined(self@.take(i as int)),
            decreases self@.len() - i,
        {
            if i > 0 {
                r.push('\n');
            }
            r.append(self.0[i].as_str());
            assert(self@.take(i + 1).drop_last() =~= self@.take(i as int));
            assert(r@ =~= joined(self@.take(i + 1)));
            i += 1;
        }
        assert(self@.take(i as int) =~= self@);
        r
    }

    /// Removes and returns rows `[span.start, span.end)`, provided that
    /// `span.start <= span.end` and `span.end` is below the number of lines;
    /// otherwise removes nothing.
    pub fn remove_span(&mut self, span: crate::Span) -> (r: Vec<String>)
        ensures
            span.start <= span.end < old(self)@.len() ==> line_views(r@) == old(self)@.subrange(
                span.start as int,
                span.end as int,
            ) && final(self)@ == old(self)@.subrange(0, span.start as int) + old(self)@.subrange(
                span.end as int,
                old(self)@.len() as int,
            ),
            !(span.start <= span.end < old(self)@.len()) ==> r@.len() == 0 && final(self)@ == old(
                self,
            )@,
    {
        if span.start <= span.end && span.end < self.0.len() {
            let ghost all = self.0@;
            let mut tail = self.0.split_off(span.end);
            let removed = self.0.split_off(span.start);
            self.0.append(&mut tail);
            assert(line_views(removed@) =~= old(self)@.subrange(span.start as int, span.end as int));
            assert(self@ =~= old(self)@.subrange(0, span.start as int) + old(self)@.subrange(
                span.end as int,
                old(self)@.len() as int,
            ));
            removed
        } else {
            Vec::new()
        }
    }

    /// The lines, given up by the store.
    pub fn into_inner(self) -> (r: Vec<String>)
        ensures
            line_views(r@) == self@,
    {
        self.0
    }

    /// Rows `[span.start, span.end)` run together: each line's text, or a
    /// single `'\n'` for a row with no line.
    pub fn display_range(&self, span: &crate::Span) -> (r: String)
        ensures
            r@ == run_together(self@, span.start as int, span.end as int),
    {
        let mut r = String::new();
        let mut i = span.start;
        while i < span.end
            invariant
                span.start <= i <= span.end || (i == span.start && span.end < span.start),
                r@ == run_together(self@, span.start as int, i as int),
            decreases span.end - i,
        {
            if i < self.0.len() {
                r.append(self.0[i].as_str());
            } else {
                r.push('\n');
            }
            assert(r@ =~= run_together(self@, span.start as int, i + 1));
            i += 1;
        }
        proof {
            if span.end < span.start {
                assert(run_together(self@, span.start as int, span.end as int) =~= Seq::empty());
            }
        }
        r
    }
}

} // verus!
