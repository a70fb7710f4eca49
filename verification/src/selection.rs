//! The list of entries and the cursor into it.

use vstd::prelude::*;
use crate::entry::Entry;

verus! {

/// The entries of the feed and the position of the selected one. The cursor
/// moves by one step and stops at both ends: it never wraps around.
pub struct SelectionStore {
    entries: Vec<Entry>,
    cursor: usize,
}

/// The position after a step towards the end of a list of `len` entries.
pub open spec fn step_next(cursor: nat, len: nat) -> nat {
    if cursor + 1 < len {
        cursor + 1
    } else {
        cursor
    }
}

/// The position after a step towards the start of the list.
pub open spec fn step_previous(cursor: nat) -> nat {
    if cursor > 0 {
        (cursor - 1) as nat
    } else {
        0
    }
}

impl SelectionStore {
    /// The entries, in the order of the feed.
    pub closed spec fn entries(&self) -> Seq<Entry> {
        self.entries@
    }

    /// The position of the cursor.
    pub closed spec fn position(&self) -> nat {
        self.cursor as nat
    }

    /// The cursor points at an entry; in an empty list it rests at zero.
    pub open spec fn wf(&self) -> bool {
        if self.entries().len() == 0 {
            self.position() == 0
        } else {
            self.position() < self.entries().len()
        }
    }

    /// The selected entry, if the list has any.
    pub open spec fn selected(&self) -> Option<Entry> {
        if self.entries().len() == 0 {
            None
        } else {
            Some(self.entries()[self.position() as int])
        }
    }

    /// A store over `entries`, with the cursor on the first of them.
    pub fn new(entries: Vec<Entry>) -> (r: SelectionStore)
        ensures
            r.wf(),
            r.entries() == entries@,
            r.position() == 0,
    {
        SelectionStore { entries, cursor: 0 }
    }

    /// Moves the cursor one entry towards the end, and leaves it where it is
    /// on the last entry.
    pub fn move_next(&mut self)
        requires
            old(self).wf(),
        ensures
            final(self).wf(),
            final(self).entries() == old(self).entries(),
            final(self).position() == step_next(old(self).position(), old(self).entries().len()),
    {
        let len: usize = self.entries.len();
        if len > 0 && self.cursor < len - 1 {
            self.cursor = self.cursor + 1;
        }
    }

    /// Moves the cursor one entry towards the start, and leaves it where it
    /// is on the first entry.
    pub fn move_previous(&mut self)
        requires
            old(self).wf(),
        ensures
            final(self).wf(),
            final(self).entries() == old(self).entries(),
            final(self).position() == step_previous(old(self).position()),
    {
        if self.cursor > 0 {
            self.cursor = self.cursor - 1;
        }
    }

    /// The selected entry, or nothing in an empty list.
    pub fn current(&self) -> (r: Option<&Entry>)
        requires
            self.wf(),
        ensures
            match r {
                Some(e) => self.selected() == Some(*e),
                None => self.selected().is_none(),
            },
    {
        if self.entries.len() == 0 {
            None
        } else {
            Some(&self.entries[self.cursor])
        }
    }

    /// The position of the cursor.
    pub fn cursor(&self) -> (r: usize)
        ensures
            r == self.position(),
    {
        self.cursor
    }

    /// The number of entries.
    pub fn len(&self) -> (r: usize)
        ensures
            r == self.entries().len(),
    {
        self.entries.len()
    }

    /// The entry at `index`, if there is one.
    pub fn get(&self, index: usize) -> (r: Option<&Entry>)
        ensures
            match r {
                Some(e) => index < self.entries().len() && *e == self.entries()[index as int],
                None => index >= self.entries().len(),
            },
    {
        if index < self.entries.len() {
            Some(&self.entries[index])
        } else {
            None
        }
    }
}

/// One kind of step of the cursor.
#[derive(Clone, Copy, Debug, PartialEq, Eq, Structural)]
pub enum Step {
    Next,
    Previous,
}

/// The position to which a sequence of steps takes the cursor.
pub open spec fn after_steps(cursor: nat, len: nat, steps: Seq<Step>) -> nat
    decreases steps.len(),
{
    if steps.len() == 0 {
        cursor
    } else {
        let before = after_steps(cursor, len, steps.drop_last());
        match steps.last() {
            Step::Next => step_next(before, len),
            Step::Previous => step_previous(before),
        }
    }
}

/// Whatever steps are taken, in whatever order, the cursor stays on an entry
/// of a list that is not empty.
pub proof fn lemma_cursor_stays_in_range(cursor: nat, len: nat, steps: Seq<Step>)
    requires
        cursor < len,
    ensures
        after_steps(cursor, len, steps) < len,
    decreases steps.len(),
{
    if steps.len() > 0 {
        lemma_cursor_stays_in_range(cursor, len, steps.drop_last());
    }
}

} // verus!
