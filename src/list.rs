use vstd::prelude::*;

use crate::error::StatefulListStateInfoError;

verus! {

/// Index that follows `i` in a list of `len` items, wrapping to the start.
pub open spec fn next_index(i: int, len: int) -> int {
    if i >= len - 1 {
        0
    } else {
        i + 1
    }
}

/// Index that precedes `i` in a list of `len` items, wrapping to the end.
pub open spec fn previous_index(i: int, len: int) -> int {
    if i == 0 {
        len - 1
    } else {
        i - 1
    }
}

/// Movement fails only when something is selected and there is nothing to move over.
pub open spec fn movement_fails(selected: Option<usize>, len: nat) -> bool {
    selected is Some && len == 0
}

/// Selection after `next` on a list of `len` items.
pub open spec fn next_selected(selected: Option<usize>, len: nat) -> Option<usize> {
    match selected {
        None => Some(0usize),
        Some(i) => if len == 0 {
            Some(i)
        } else {
            Some(next_index(i as int, len as int) as usize)
        },
    }
}

/// Selection after `previous` on a list of `len` items.
pub open spec fn previous_selected(selected: Option<usize>, len: nat) -> Option<usize> {
    match selected {
        None => Some(0usize),
        Some(i) => if len == 0 {
            Some(i)
        } else {
            Some(previous_index(i as int, len as int) as usize)
        },
    }
}

/// Selection after `k` calls of `next` on a list of `len` items.
pub open spec fn next_selected_times(selected: Option<usize>, len: nat, k: nat) -> Option<usize>
    decreases k,
{
    if k == 0 {
        selected
    } else {
        next_selected(next_selected_times(selected, len, (k - 1) as nat), len)
    }
}

/// An ordered sequence of items with at most one selected position.
pub struct StatefulList<T> {
    pub selected: Option<usize>,
    pub items: Vec<T>,
}

impl<T> StatefulList<T> {
    /// The selection points at an item, or at the start of a list still empty.
    pub open spec fn wf(&self) -> bool {
        match self.selected {
            None => true,
            Some(i) => i == 0 || i < self.items@.len(),
        }
    }

    pub fn new() -> (r: Self)
        ensures
            r.items@ == Seq::<T>::empty(),
            r.selected is None,
            r.wf(),
    {
        StatefulList { selected: None, items: Vec::new() }
    }

    pub fn add_item(&mut self, item: T)
        ensures
            final(self).items@ == old(self).items@.push(item),
            final(self).selected == old(self).selected,
            old(self).wf() ==> final(self).wf(),
    {
        self.items.push(item);
    }

    /// The selected position, if any.
    pub fn selected(&self) -> (r: Option<usize>)
        ensures
            r == self.selected,
    {
        self.selected
    }

    /// Moves the selection one item forward, from the last item back to the first.
    pub fn next(&mut self) -> (r: Result<(), StatefulListStateInfoError>)
        ensures
            r is Err <==> movement_fails(old(self).selected, old(self).items@.len()),
            final(self).selected == next_selected(old(self).selected, old(self).items@.len()),
            final(self).items@ == old(self).items@,
            old(self).wf() ==> final(self).wf(),
    {
        let i: usize = match self.selected {
            Some(i) => {
                let len: usize = self.items.len();
                let last: usize = match len.checked_sub(1) {
                    Some(number) => number,
                    None => {
                        return Err(StatefulListStateInfoError);
                    },
                };
                if i >= last {
                    0
                } else {
                    i + 1
                }
            },
            None => 0,
        };
        self.selected = Some(i);
        Ok(())
    }

    /// Moves the selection one item back, from the first item round to the last.
    pub fn previous(&mut self) -> (r: Result<(), StatefulListStateInfoError>)
        ensures
            r is Err <==> movement_fails(old(self).selected, old(self).items@.len()),
            final(self).selected == previous_selected(old(self).selected, old(self).items@.len()),
            final(self).items@ == old(self).items@,
            old(self).wf() ==> final(self).wf(),
    {
        let i: usize = match self.selected {
            Some(i) => {
                let len: usize = self.items.len();
                let last: usize = match len.checked_sub(1) {
                    Some(number) => number,
                    None => {
                        return Err(StatefulListStateInfoError);
                    },
                };
                if i == 0 {
                    last
                } else {
                    i - 1
                }
            },
            None => 0,
        };
        self.selected = Some(i);
        Ok(())
    }
}

/// Calling `next` as many times as a non-empty list has items, starting at
/// the first item, comes back to the first item.
pub proof fn lemma_next_full_cycle(len: nat)
    requires
        0 < len <= usize::MAX,
    ensures
        next_selected_times(Some(0usize), len, len) == Some(0usize),
{
    lemma_next_steps(len, (len - 1) as nat);
    assert(next_selected_times(Some(0usize), len, len) == next_selected(
        next_selected_times(Some(0usize), len, (len - 1) as nat),
        len,
    ));
}

/// After `k` steps forward from the first item, with `k` short of the end,
/// the selection is at position `k`.
proof fn lemma_next_steps(len: nat, k: nat)
    requires
        0 < len <= usize::MAX,
        k < len,
    ensures
        next_selected_times(Some(0usize), len, k) == Some(k as usize),
    decreases k,
{
    if k > 0 {
        lemma_next_steps(len, (k - 1) as nat);
    }
}

/// On a fresh list, with nothing selected, `previous` selects the first
/// item, just as `next` does, and neither fails.
pub proof fn lemma_first_move_selects_first(len: nat)
    ensures
        previous_selected(None, len) == Some(0usize),
        previous_selected(None, len) == next_selected(None, len),
        !movement_fails(None, len),
{
}

/// On an empty list with a selection, `previous` fails and keeps the selection.
pub proof fn lemma_previous_on_empty(selected: Option<usize>)
    requires
        selected is Some,
    ensures
        movement_fails(selected, 0),
        previous_selected(selected, 0) == selected,
{
}

} // verus!
