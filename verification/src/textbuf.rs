//! The multi-line compose buffer used to draft replies: an ordered,
//! never-empty list of character rows plus a cursor row.  There is no
//! horizontal cursor; characters are appended to the end of the cursor row.

use vstd::prelude::*;
use crate::text::{
    insertable, insertable_char, joined_rows, string_from_chars, trim_chars, trimmed,
};

verus! {

/// Ordered rows of characters with a cursor row index.  Invariant (`wf`):
/// the buffer holds at least one row and the cursor points at a row.
#[derive(Clone, Debug)]
pub struct TextEditBuffer {
    pub rows: Vec<Vec<char>>,
    pub cursor: usize,
}

impl TextEditBuffer {
    pub open spec fn wf(self) -> bool {
        &&& self.rows@.len() >= 1
        &&& self.cursor < self.rows@.len()
    }

    /// The rows as a mathematical sequence of character sequences.
    pub open spec fn row_views(self) -> Seq<Seq<char>> {
        Seq::new(self.rows@.len(), |i: int| self.rows@[i]@)
    }

    /// The text a submission of this buffer produces: the rows joined by
    /// newlines, leading and trailing whitespace removed.
    pub open spec fn submitted(self) -> Seq<char> {
        trimmed(joined_rows(self.row_views()))
    }

    /// A buffer holding a single empty row.
    pub fn new() -> (b: TextEditBuffer)
        ensures
            b.wf(),
            b.row_views() =~= seq![Seq::<char>::empty()],
            b.cursor == 0,
    {
        let mut rows: Vec<Vec<char>> = Vec::new();
        rows.push(Vec::new());
        TextEditBuffer { rows, cursor: 0 }
    }

    /// Append `c` to the end of the cursor row if the buffer accepts it
    /// (printable ASCII); any other character is silently dropped.
    pub fn insert_char(&mut self, c: char)
        requires
            old(self).wf(),
        ensures
            final(self).wf(),
            final(self).cursor == old(self).cursor,
            insertable(c) ==> final(self).row_views() =~= old(self).row_views().update(
                old(self).cursor as int,
                old(self).row_views()[old(self).cursor as int].push(c),
            ),
            !insertable(c) ==> final(self).row_views() =~= old(self).row_views(),
    {
        if insertable_char(c) {
            let at = self.cursor;
            self.rows[at].push(c);
        }
    }

    /// Insert a new empty row immediately after the cursor row (appending at
    /// the end when the cursor is on the last row) and move the cursor into
    /// it.
    pub fn newline(&mut self)
        requires
            old(self).wf(),
        ensures
            final(self).wf(),
            final(self).cursor == old(self).cursor + 1,
            final(self).row_views() =~= old(self).row_views().insert(
                old(self).cursor + 1,
                Seq::<char>::empty(),
            ),
    {
        proof {
            vstd::std_specs::vec::axiom_spec_len(&self.rows);
        }
        let at = self.cursor + 1;
        self.rows.insert(at, Vec::new());
        self.cursor = at;
    }

    /// Delete the entire cursor row and move the cursor to `max(row - 1, 0)`;
    /// if this empties the buffer, one empty row is re-seeded.  On a buffer
    /// holding a single empty row this is a no-op.
    pub fn backspace(&mut self)
        requires
            old(self).wf(),
        ensures
            final(self).wf(),
            final(self).cursor == if old(self).cursor > 0 {
                (old(self).cursor - 1) as usize
            } else {
                0usize
            },
            old(self).rows@.len() > 1 ==> final(self).row_views() =~= old(self).row_views().remove(old(self).cursor as int),
            old(self).rows@.len() == 1 ==> final(self).row_views() =~= seq![Seq::<char>::empty()],
    {
        self.rows.remove(self.cursor);
        if self.rows.len() == 0 {
            self.rows.push(Vec::new());
        }
        if self.cursor > 0 {
            self.cursor = self.cursor - 1;
        }
    }

    /// Move the cursor one row down, stopping at the last row.
    pub fn cursor_down(&mut self)
        requires
            old(self).wf(),
        ensures
            final(self).wf(),
            final(self).rows == old(self).rows,
            old(self).cursor + 1 < old(self).rows@.len() ==> final(self).cursor == old(self).cursor + 1,
            old(self).cursor + 1 >= old(self).rows@.len() ==> final(self).cursor == old(self).cursor,
    {
        if self.cursor < self.rows.len() - 1 {
            self.cursor = self.cursor + 1;
        }
    }

    /// Move the cursor one row up, stopping at the first row.
    pub fn cursor_up(&mut self)
        requires
            old(self).wf(),
        ensures
            final(self).wf(),
            final(self).rows == old(self).rows,
            final(self).cursor == if old(self).cursor > 0 {
                (old(self).cursor - 1) as usize
            } else {
                0usize
            },
    {
        if self.cursor > 0 {
            self.cursor = self.cursor - 1;
        }
    }

    /// Put the cursor back on the first row, as happens when the messages
    /// widget re-enters edit mode.
    pub fn cursor_to_start(&mut self)
        requires
            old(self).wf(),
        ensures
            final(self).wf(),
            final(self).rows == old(self).rows,
            final(self).cursor == 0,
    {
        self.cursor = 0;
    }

    /// Truncate every row to `width - 2` characters, the room left inside
    /// the drawn frame when the drawing area is `width` columns wide.
    #[verifier::loop_isolation(false)]
    pub fn resize(&mut self, width: usize)
        requires
            old(self).wf(),
            width >= 2,
        ensures
            final(self).wf(),
            final(self).cursor == old(self).cursor,
            final(self).row_views() =~= Seq::new(
                old(self).row_views().len(),
                |i: int|
                    {
                        let r = old(self).row_views()[i];
                        if r.len() <= width - 2 {
                            r
                        } else {
                            r.take((width - 2) as int)
                        }
                    },
            ),
    {
        let cap = width - 2;
        let ghost orig = self.row_views();
        let mut i: usize = 0;
        while i < self.rows.len()
            invariant
                self.rows@.len() == orig.len(),
                self.cursor == old(self).cursor,
                i <= orig.len(),
                forall|j: int|
                    0 <= j < i ==> #[trigger] self.rows@[j]@ == {
                        let r = orig[j];
                        if r.len() <= cap {
                            r
                        } else {
                            r.take(cap as int)
                        }
                    },
                forall|j: int| i <= j < orig.len() ==> #[trigger] self.rows@[j]@ == orig[j],
            decreases self.rows@.len() - i,
        {
            let ghost prev = self.rows@;
            if self.rows[i].len() > cap {
                let mut row = self.rows.remove(i);
                row.truncate(cap);
                self.rows.insert(i, row);
                proof {
                    assert(self.rows@ =~= prev.update(i as int, self.rows@[i as int]));
                    assert(self.rows@[i as int]@ =~= orig[i as int].take(cap as int));
                }
            }
            i = i + 1;
        }
    }

    /// The drafted reply: rows joined with newline separators, leading and
    /// trailing whitespace trimmed away.  An empty result means there is
    /// nothing to submit.
    pub fn submit_text(&self) -> (r: String)
        requires
            self.wf(),
        ensures
            r@ == self.submitted(),
    {
        let mut acc: Vec<char> = Vec::new();
        let mut i: usize = 0;
        while i < self.rows.len()
            invariant
                i <= self.rows@.len(),
                acc@ =~= joined_rows(self.row_views().take(i as int)),
            decreases self.rows@.len() - i,
        {
            let mut j: usize = 0;
            while j < self.rows[i].len()
                invariant
                    i < self.rows@.len(),
                    j <= self.rows@[i as int]@.len(),
                    acc@ =~= joined_rows(self.row_views().take(i as int)) + self.row_views()[
                        i as int
                    ].take(j as int),
                decreases self.rows@[i as int]@.len() - j,
            {
                acc.push(self.rows[i][j]);
                proof {
                    assert(self.row_views()[i as int].take(j + 1) =~= self.row_views()[
                        i as int
                    ].take(j as int).push(self.row_views()[i as int][j as int]));
                }
                j = j + 1;
            }
            acc.push('\n');
            proof {
                assert(self.row_views().take(i + 1).drop_last() =~= self.row_views().take(i as int));
                assert(self.row_views()[i as int].take(self.rows@[i as int]@.len() as int)
                    =~= self.row_views()[i as int]);
                assert(acc@ =~= joined_rows(self.row_views().take(i + 1)));
            }
            i = i + 1;
        }
        proof {
            assert(self.row_views().take(self.rows@.len() as int) =~= self.row_views());
        }
        let trimmed_chars = trim_chars(&acc);
        string_from_chars(&trimmed_chars)
    }
}

} // verus!
