//! The selection model: an ordered list of items with an optional cursor.
//!
//! One abstraction serves both the file list and the content view. The model
//! owns its item sequence by value and is replaced wholesale whenever the
//! underlying data changes. The cursor is either unset (no highlighted item)
//! or a valid index; navigation wraps around at both ends, and an unset
//! cursor moves to index 0 on the first step in either direction, while
//! reads treat it as an implicit first item.

use vstd::prelude::*;

verus! {

/// Cursor after one forward step: an unset cursor selects index 0; a set one
/// advances circularly, the last index wrapping to the first.
pub open spec fn next_index(cursor: Option<int>, len: int) -> int {
    match cursor {
        None => 0,
        Some(i) => if i >= len - 1 {
            0
        } else {
            i + 1
        },
    }
}

/// Cursor after one backward step: an unset cursor selects index 0; a set one
/// retreats circularly, the first index wrapping to the last.
pub open spec fn prev_index(cursor: Option<int>, len: int) -> int {
    match cursor {
        None => 0,
        Some(i) => if i == 0 {
            len - 1
        } else {
            i - 1
        },
    }
}

/// The index a read goes to: the cursor where set, the first item otherwise.
pub open spec fn read_index(cursor: Option<int>) -> int {
    match cursor {
        None => 0,
        Some(i) => i,
    }
}

/// An ordered item list with an optional cursor over it.
pub struct StatefulList {
    items: Vec<String>,
    cursor: Option<usize>,
}

impl StatefulList {
    /// The item sequence, as sequences of characters.
    pub closed spec fn items_view(self) -> Seq<Seq<char>> {
        self.items.deep_view()
    }

    /// The raw cursor: unset, or an index into the items.
    pub closed spec fn cursor_view(self) -> Option<int> {
        match self.cursor {
            None => None,
            Some(i) => Some(i as int),
        }
    }

    /// A set cursor always points inside the item sequence.
    pub open spec fn wf(self) -> bool {
        match self.cursor_view() {
            None => true,
            Some(i) => 0 <= i < self.items_view().len(),
        }
    }

    /// A fresh model over `items`; the cursor starts at index 0 when
    /// `set_first` asks for it and unset otherwise.
    pub fn new(items: Vec<String>, set_first: bool) -> (r: StatefulList)
        requires
            set_first ==> items@.len() > 0,
        ensures
            r.wf(),
            r.items_view() == items.deep_view(),
            r.cursor_view() == if set_first {
                Some(0int)
            } else {
                None::<int>
            },
    {
        let cursor: Option<usize> = if set_first {
            Some(0)
        } else {
            None
        };
        StatefulList { items, cursor }
    }

    /// Swap in a new item sequence; the cursor resets to unset.
    pub fn set_items(&mut self, items: Vec<String>)
        ensures
            final(self).wf(),
            final(self).items_view() == items.deep_view(),
            final(self).cursor_view() is None,
    {
        self.items = items;
        self.cursor = None;
    }

    /// Swap in a new item sequence and place the cursor at `index`, so a
    /// just-edited item stays highlighted.
    pub fn set_items_with_index(&mut self, items: Vec<String>, index: usize)
        requires
            index < items@.len(),
        ensures
            final(self).wf(),
            final(self).items_view() == items.deep_view(),
            final(self).cursor_view() == Some(index as int),
    {
        self.items = items;
        self.cursor = Some(index);
    }

    /// The raw cursor, unset or the highlighted index.
    pub fn get_current_index(&self) -> (r: Option<usize>)
        ensures
            match r {
                None => self.cursor_view() is None,
                Some(i) => self.cursor_view() == Some(i as int),
            },
    {
        self.cursor
    }

    /// The item under the cursor, or the first item when the cursor is
    /// unset: no explicit selection reads as the default first item.
    pub fn get_current(&self) -> (r: String)
        requires
            self.wf(),
            self.items_view().len() > 0,
        ensures
            r@ == self.items_view()[read_index(self.cursor_view())],
    {
        match self.cursor {
            Some(i) => self.items[i].clone(),
            None => self.items[0].clone(),
        }
    }

    /// One forward step; afterwards the cursor is always set.
    pub fn next(&mut self)
        requires
            old(self).wf(),
            old(self).items_view().len() > 0,
        ensures
            final(self).wf(),
            final(self).items_view() == old(self).items_view(),
            final(self).cursor_view() == Some(
                next_index(old(self).cursor_view(), old(self).items_view().len() as int),
            ),
    {
        let i: usize = match self.cursor {
            Some(i) => if i >= self.items.len() - 1 {
                0
            } else {
                i + 1
            },
            None => 0,
        };
        self.cursor = Some(i);
    }

    /// One backward step; afterwards the cursor is always set.
    pub fn previous(&mut self)
        requires
            old(self).wf(),
            old(self).items_view().len() > 0,
        ensures
            final(self).wf(),
            final(self).items_view() == old(self).items_view(),
            final(self).cursor_view() == Some(
                prev_index(old(self).cursor_view(), old(self).items_view().len() as int),
            ),
    {
        let i: usize = match self.cursor {
            Some(i) => if i == 0 {
                self.items.len() - 1
            } else {
                i - 1
            },
            None => 0,
        };
        self.cursor = Some(i);
    }

    /// Clear the cursor, dropping the highlight but keeping the items.
    pub fn unselect(&mut self)
        ensures
            final(self).wf(),
            final(self).items_view() == old(self).items_view(),
            final(self).cursor_view() is None,
    {
        self.cursor = None;
    }

    /// Read access to the item sequence, for rendering.
    pub fn items(&self) -> (r: &Vec<String>)
        ensures
            r.deep_view() == self.items_view(),
    {
        &self.items
    }
}

/// The cursor index after `k` further forward steps from a set cursor.
pub open spec fn next_steps(start: int, len: int, k: nat) -> int
    decreases k,
{
    if k == 0 {
        start
    } else {
        next_index(Some(next_steps(start, len, (k - 1) as nat)), len)
    }
}

/// Within one lap of the list, stepping forward adds one per step and wraps
/// at most once.
proof fn lemma_next_steps_one_lap(start: int, len: int, k: nat)
    requires
        0 <= start < len,
        k <= len,
    ensures
        next_steps(start, len, k) == if start + k < len {
            start + k
        } else {
            start + k - len
        },
    decreases k,
{
    if k > 0 {
        lemma_next_steps_one_lap(start, len, (k - 1) as nat);
    }
}

/// Law (wraparound closure): in a non-empty list, exactly `len` forward
/// steps return a set cursor to the index it started from.
pub proof fn lemma_next_full_cycle(start: int, len: int)
    requires
        0 <= start < len,
    ensures
        next_steps(start, len, len as nat) == start,
{
    lemma_next_steps_one_lap(start, len, len as nat);
}

/// Law: from a set cursor, one forward step then one backward step restores
/// the original index, and one backward step then one forward step does too.
pub proof fn lemma_next_previous_inverse(i: int, len: int)
    requires
        0 <= i < len,
    ensures
        prev_index(Some(next_index(Some(i), len)), len) == i,
        next_index(Some(prev_index(Some(i), len)), len) == i,
{
}

/// Law: with the cursor unset, the first step selects index 0 in both
/// directions — stepping backward does not wrap to the last index.
pub proof fn lemma_unset_moves_to_first(len: int)
    ensures
        next_index(None, len) == 0,
        prev_index(None, len) == 0,
{
}

/// Law: with the cursor unset, reads default to the first item even though
/// the raw cursor stays unset.
pub proof fn lemma_unset_reads_first(items: Seq<Seq<char>>)
    requires
        items.len() > 0,
    ensures
        items[read_index(None)] == items[0],
{
}

} // verus!
