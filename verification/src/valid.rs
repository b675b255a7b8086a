//! The invariant of a session as a test that can be run.

use crate::apphistory::AppHistory;
use crate::index::{index_view, selectable_index};
use crate::session::{hover_in, selected_in, App};
use crate::states::State;
use vstd::prelude::*;

verus! {

/// Tests whether two rows of coordinates are equal.
pub fn same_row(a: &Vec<(usize, usize)>, b: &Vec<(usize, usize)>) -> (same: bool)
    ensures
        same == (a@ == b@),
{
    if a.len() != b.len() {
        return false;
    }
    let mut i: usize = 0;
    while i < a.len()
        invariant
            i <= a@.len(),
            a@.len() == b@.len(),
            forall|j: int| 0 <= j < i ==> a@[j] == b@[j],
        decreases a.len() - i,
    {
        if a[i].0 != b[i].0 || a[i].1 != b[i].1 {
            return false;
        }
        i = i + 1;
    }
    assert(a@ =~= b@);
    true
}

/// Tests whether two selectable indexes are equal.
pub fn same_index(a: &Vec<Vec<(usize, usize)>>, b: &Vec<Vec<(usize, usize)>>) -> (same: bool)
    ensures
        same == (index_view(*a) == index_view(*b)),
{
    if a.len() != b.len() {
        assert(index_view(*a).len() != index_view(*b).len());
        return false;
    }
    let mut i: usize = 0;
    while i < a.len()
        invariant
            i <= a@.len(),
            a@.len() == b@.len(),
            forall|j: int| 0 <= j < i ==> a@[j]@ == b@[j]@,
        decreases a.len() - i,
    {
        if !same_row(&a[i], &b[i]) {
            assert(index_view(*a)[i as int] != index_view(*b)[i as int]);
            return false;
        }
        i = i + 1;
    }
    assert(index_view(*a) =~= index_view(*b));
    true
}

/// Tests the part of the invariant that speaks of one grid: the index is
/// that of the grid, the cursor points into the index, and the selected
/// widget is one that can take focus.
pub fn grid_valid(
    state: &State,
    selectable: &Vec<Vec<(usize, usize)>>,
    hover: Option<(usize, usize)>,
    selected: Option<(usize, usize)>,
) -> (valid: bool)
    ensures
        valid == (index_view(*selectable) == selectable_index(state@) && hover_in(
            index_view(*selectable),
            hover,
        ) && selected_in(state@, selected)),
{
    let index = App::selectable(state);
    if !same_index(selectable, &index) {
        return false;
    }
    if let Some((x, y)) = hover {
        if y >= selectable.len() {
            return false;
        }
        if x >= selectable[y].len() {
            return false;
        }
    }
    if let Some((x, y)) = selected {
        if y >= state.0.len() {
            return false;
        }
        if x >= state.0[y].items.len() {
            return false;
        }
        if !state.0[y].items[x].item.selectable() {
            return false;
        }
    }
    true
}

impl AppHistory {
    /// Tests the invariant of a kept session.
    pub fn valid(&self) -> (valid: bool)
        ensures
            valid == self@.wf(),
    {
        proof {
            self.state.lemma_fits();
        }
        grid_valid(&self.state, &self.selectable, self.hover, self.selected)
    }
}

impl App {
    /// Tests the invariant of the session.
    pub fn valid(&self) -> (valid: bool)
        ensures
            valid == self.wf(),
    {
        proof {
            self.state.lemma_fits();
        }
        if !grid_valid(&self.state, &self.selectable, self.hover, self.selected) {
            return false;
        }
        let mut i: usize = 0;
        while i < self.history.len()
            invariant
                i <= self.history@.len(),
                forall|j: int| 0 <= j < i ==> (#[trigger] self@.history[j]).wf(),
            decreases self.history.len() - i,
        {
            if !self.history[i].valid() {
                assert(!self@.history[i as int].wf());
                return false;
            }
            i = i + 1;
        }
        true
    }
}

} // verus!
