use vstd::prelude::*;

verus! {

/// A half-open range `[start, end)` of row (or column) indices.
#[derive(Debug, Clone, Copy, PartialEq, Eq, Structural)]
pub struct Span {
    pub start: usize,
    pub end: usize,
}

/// The end bound of a viewport after the terminal went from `old_rows` to
/// `new_rows` rows: shifted by the signed difference, never below `start`.
pub open spec fn resized_end(start: int, end: int, old_rows: int, new_rows: int) -> int {
    let shifted = end + (new_rows - old_rows);
    if shifted < start {
        start
    } else {
        shifted
    }
}

impl Span {
    /// Adjusts the end bound of a viewport to a terminal that went from
    /// `old_rows` to `new_rows` rows.
    pub fn resize(&mut self, old_rows: u16, new_rows: u16)
        requires
            old(self).start <= old(self).end,
            new_rows > old_rows ==> old(self).end + (new_rows - old_rows) <= usize::MAX,
        ensures
            final(self).start == old(self).start,
            final(self).end == resized_end(
                old(self).start as int,
                old(self).end as int,
                old_rows as int,
                new_rows as int,
            ),
            final(self).start <= final(self).end,
            new_rows >= old_rows ==> final(self).end == old(self).end + (new_rows - old_rows),
            new_rows < old_rows ==> final(self).end == if old(self).end - (old_rows - new_rows)
                < old(self).start {
                old(self).start as int
            } else {
                old(self).end - (old_rows - new_rows)
            },
    {
        if new_rows >= old_rows {
            self.end = self.end + (new_rows - old_rows) as usize;
        } else {
            let shrink = (old_rows - new_rows) as usize;
            if self.end - self.start < shrink {
                self.end = self.start;
            } else {
                self.end = self.end - shrink;
            }
        }
    }
}

} // verus!
