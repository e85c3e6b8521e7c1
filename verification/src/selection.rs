//! The selection cursor over one directory listing: an optional index into
//! the listing's logical order, moved with wrap-around.

use vstd::prelude::*;
use crate::dir_list::{DirList, total_len};

verus! {

/// The index after `i` in a cycle of the given length.
pub open spec fn wrap_next(len: int, i: int) -> int {
    if i + 1 == len {
        0
    } else {
        i + 1
    }
}

/// The index before `i` in a cycle of the given length.
pub open spec fn wrap_prev(len: int, i: int) -> int {
    if i == 0 {
        len - 1
    } else {
        i - 1
    }
}

/// Where the cursor stands after one forward step: nowhere in an empty
/// listing, else one onward with wrap-around.
pub open spec fn next_state(s: Option<usize>, len: int) -> Option<usize> {
    match s {
        None => None,
        Some(i) => Some(wrap_next(len, i as int) as usize),
    }
}

/// Where the cursor stands after one backward step: nowhere in an empty
/// listing, else one back with wrap-around.
pub open spec fn prev_state(s: Option<usize>, len: int) -> Option<usize> {
    match s {
        None => None,
        Some(i) => Some(wrap_prev(len, i as int) as usize),
    }
}

/// Where the cursor stands when a listing is first shown: at the first item
/// when there is one, else nowhere.
pub open spec fn initial_state(len: int) -> Option<usize> {
    if len > 0 {
        Some(0usize)
    } else {
        None
    }
}

/// The cursor after `n` forward steps.
pub open spec fn iterate_next(s: Option<usize>, len: int, n: nat) -> Option<usize>
    decreases n,
{
    if n == 0 {
        s
    } else {
        next_state(iterate_next(s, len, (n - 1) as nat), len)
    }
}

/// A listing with a cursor. The cursor is `None` exactly when the listing
/// has no selectable items, and in range otherwise.
pub struct DirSelectionList {
    pub state: Option<usize>,
    pub items: DirList,
}

impl DirSelectionList {
    /// The cursor is placed exactly when the listing is non-empty, and then
    /// in range; and the listing itself is one a machine can hold.
    pub open spec fn wf(&self) -> bool {
        &&& self.items.wf()
        &&& match self.state {
            None => total_len(self.items@) == 0,
            Some(i) => i < total_len(self.items@),
        }
    }

    /// A freshly shown listing: the cursor rests on the first item of a
    /// non-empty listing and nowhere in an empty one.
    pub fn from(items: DirList) -> (r: DirSelectionList)
        requires
            items.wf(),
        ensures
            r.wf(),
            r.items == items,
            r.state == initial_state(total_len(items@)),
    {
        let state: Option<usize> = if items.len() > 0 {
            Some(0)
        } else {
            None
        };
        DirSelectionList { state, items }
    }

    /// Put the cursor on the given item.
    pub fn select(&mut self, index: usize)
        requires
            old(self).wf(),
            index < total_len(old(self).items@),
        ensures
            final(self).wf(),
            final(self).items == old(self).items,
            final(self).state == Some(index),
    {
        self.state = Some(index);
    }

    /// One forward step with wrap-around; a cursor past the last item
    /// returns to the first. In an empty listing the cursor stays nowhere.
    pub fn select_next(&mut self)
        requires
            old(self).wf(),
        ensures
            final(self).wf(),
            final(self).items == old(self).items,
            final(self).state == next_state(old(self).state, total_len(old(self).items@)),
    {
        match self.state {
            None => {},
            Some(i) => {
                let len: usize = self.items.len();
                if i + 1 == len {
                    self.state = Some(0);
                } else {
                    self.state = Some(i + 1);
                }
            },
        }
    }

    /// One backward step with wrap-around; a cursor before the first item
    /// moves to the last. In an empty listing the cursor stays nowhere.
    pub fn select_previous(&mut self)
        requires
            old(self).wf(),
        ensures
            final(self).wf(),
            final(self).items == old(self).items,
            final(self).state == prev_state(old(self).state, total_len(old(self).items@)),
    {
        match self.state {
            None => {},
            Some(i) => {
                if i == 0 {
                    let len: usize = self.items.len();
                    self.state = Some(len - 1);
                } else {
                    self.state = Some(i - 1);
                }
            },
        }
    }
}

/// After fewer forward steps than the listing holds items, a cursor started
/// on the first item stands exactly that many items along.
proof fn lemma_iterate_next_partial(len: int, k: nat)
    requires
        k < len <= usize::MAX,
    ensures
        iterate_next(Some(0usize), len, k) == Some(k as usize),
    decreases k,
{
    if k > 0 {
        lemma_iterate_next_partial(len, (k - 1) as nat);
    }
}

/// Selection wrap-around law: in a listing of N items, N forward steps from
/// the first item return the cursor to the first item, and one backward step
/// from the first item puts it on the last.
pub proof fn lemma_selection_wrap_around(len: int)
    requires
        1 <= len <= usize::MAX,
    ensures
        iterate_next(Some(0usize), len, len as nat) == Some(0usize),
        prev_state(Some(0usize), len) == Some((len - 1) as usize),
{
    lemma_iterate_next_partial(len, (len - 1) as nat);
}

/// Empty listing law: a well-formed cursor over an empty listing stands
/// nowhere, and neither a forward nor a backward step places it anywhere.
pub proof fn lemma_empty_selection(s: DirSelectionList)
    requires
        s.wf(),
        total_len(s.items@) == 0,
    ensures
        s.state is None,
        next_state(s.state, 0) is None,
        prev_state(s.state, 0) is None,
{
}

} // verus!
