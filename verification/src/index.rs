//! The selectable index: which widgets of a grid the cursor can reach, and
//! in which order.

use crate::keys::KeyCode;
use crate::session::App;
use crate::states::{fresh_grid, grid_fits, grid_with, in_grid, Item, RowItem, RowView, State};
use vstd::prelude::*;

verus! {

/// A selectable index as a mathematical value.
pub open spec fn index_view(index: Vec<Vec<(usize, usize)>>) -> Seq<Seq<(usize, usize)>> {
    Seq::new(index@.len(), |y: int| index@[y]@)
}

/// The coordinates of the first `n` columns of row `y`.
pub open spec fn columns(n: nat, y: int) -> Seq<(usize, usize)> {
    Seq::new(n, |x: int| (x as usize, y as usize))
}

/// The test of a coordinate against a row's mask.
pub open spec fn picked(mask: Seq<bool>) -> spec_fn((usize, usize)) -> bool {
    |cell: (usize, usize)| mask[cell.0 as int]
}

/// The test that keeps the rows that hold a coordinate.
pub open spec fn occupied() -> spec_fn(Seq<(usize, usize)>) -> bool {
    |row: Seq<(usize, usize)>| row.len() > 0
}

/// The coordinates of row `y` whose column the mask marks, in column order.
pub open spec fn row_cells(mask: Seq<bool>, y: int) -> Seq<(usize, usize)> {
    columns(mask.len(), y).filter(picked(mask))
}

/// The marked coordinates of each of the first `n` rows.
pub open spec fn rows_cells(masks: Seq<Seq<bool>>, n: nat) -> Seq<Seq<(usize, usize)>> {
    Seq::new(n, |y: int| row_cells(masks[y], y))
}

/// For each row that has a marked column, in row order, its marked
/// coordinates.
pub open spec fn grid_cells(masks: Seq<Seq<bool>>) -> Seq<Seq<(usize, usize)>> {
    rows_cells(masks, masks.len()).filter(occupied())
}

/// Which widgets of a row can take focus.
pub open spec fn row_mask(items: Seq<RowItem>) -> Seq<bool> {
    Seq::new(items.len(), |x: int| items[x].item.can_focus())
}

/// Which widgets of a grid can take focus.
pub open spec fn grid_mask(grid: Seq<RowView>) -> Seq<Seq<bool>> {
    Seq::new(grid.len(), |y: int| row_mask(grid[y].items))
}

/// The selectable index of a grid: for each row that has a widget that can
/// take focus, in row order, the coordinates of those widgets, in column
/// order.
pub open spec fn selectable_index(grid: Seq<RowView>) -> Seq<Seq<(usize, usize)>> {
    grid_cells(grid_mask(grid))
}

impl App {
    /// Builds the selectable index of a grid.
    pub fn selectable(state: &State) -> (index: Vec<Vec<(usize, usize)>>)
        ensures
            index_view(index) == selectable_index(state@),
    {
        let mut selectable: Vec<Vec<(usize, usize)>> = Vec::new();
        let ghost masks = grid_mask(state@);
        let mut y: usize = 0;
        while y < state.0.len()
            invariant
                y <= state.0@.len(),
                masks == grid_mask(state@),
                index_view(selectable) == rows_cells(masks, y as nat).filter(occupied()),
            decreases state.0.len() - y,
        {
            let row = &state.0[y];
            let ghost mask = masks[y as int];
            let mut row_vec: Vec<(usize, usize)> = Vec::new();
            let mut x: usize = 0;
            assert(columns(0, y as int).filter(picked(mask)) =~= Seq::empty()) by {
                reveal(Seq::filter);
            }
            while x < row.items.len()
                invariant
                    x <= row.items@.len(),
                    mask == row_mask(row.items@),
                    row_vec@ == columns(x as nat, y as int).filter(picked(mask)),
                decreases row.items.len() - x,
            {
                proof {
                    assert(columns((x + 1) as nat, y as int) =~= columns(x as nat, y as int).push(
                        (x, y),
                    ));
                    columns(x as nat, y as int).lemma_filter_push((x, y), picked(mask));
                }
                if row.items[x].item.selectable() {
                    row_vec.push((x, y));
                }
                x = x + 1;
            }
            proof {
                assert(row_vec@ == row_cells(mask, y as int));
                assert(rows_cells(masks, (y + 1) as nat) =~= rows_cells(masks, y as nat).push(
                    row_vec@,
                ));
                rows_cells(masks, y as nat).lemma_filter_push(row_vec@, occupied());
            }
            if row_vec.len() != 0 {
                let ghost before = index_view(selectable);
                selectable.push(row_vec);
                assert(index_view(selectable) =~= before.push(row_vec@));
            }
            y = y + 1;
        }
        assert(rows_cells(masks, 0).filter(occupied()) =~= Seq::empty()) by {
            reveal(Seq::filter);
        }
        selectable
    }
}

/// Every entry of the selectable index names a widget of the grid that can
/// take focus, and the index has no empty row: a widget that cannot take
/// focus is out of the cursor's reach.
pub proof fn lemma_index_sound(grid: Seq<RowView>, hx: int, hy: int)
    requires
        grid_fits(grid),
        0 <= hy < selectable_index(grid).len(),
    ensures
        selectable_index(grid)[hy].len() > 0,
        0 <= hx < selectable_index(grid)[hy].len() ==> ({
            let (x, y) = selectable_index(grid)[hy][hx];
            in_grid(grid, x as int, y as int) && grid[y as int].items[x as int].item.can_focus()
        }),
{
    let masks = grid_mask(grid);
    let rows = rows_cells(masks, masks.len());
    let index = rows.filter(occupied());
    rows.lemma_filter_pred(occupied(), hy);
    if 0 <= hx < index[hy].len() {
        assert(index.contains(index[hy]));
        rows.lemma_filter_contains_rev(occupied(), index[hy]);
        let j = choose|j: int| 0 <= j < rows.len() && rows[j] == index[hy];
        let cols = columns(masks[j].len(), j);
        cols.lemma_filter_pred(picked(masks[j]), hx);
        let cell = index[hy][hx];
        assert(cols.filter(picked(masks[j])).contains(cell));
        cols.lemma_filter_contains_rev(picked(masks[j]), cell);
        let i = choose|i: int| 0 <= i < cols.len() && cols[i] == cell;
        assert(grid[j].items.len() <= usize::MAX);
        assert(cell == (i as usize, j as usize));
    }
}

/// Every widget of the grid that can take focus has an entry in the
/// selectable index: the cursor can reach it.
pub proof fn lemma_index_complete(grid: Seq<RowView>, x: int, y: int)
    requires
        grid_fits(grid),
        in_grid(grid, x, y),
        grid[y].items[x].item.can_focus(),
    ensures
        exists|hx: int, hy: int|
            0 <= hy < selectable_index(grid).len() && 0 <= hx < selectable_index(grid)[hy].len()
                && #[trigger] selectable_index(grid)[hy][hx] == (x as usize, y as usize),
{
    let masks = grid_mask(grid);
    let rows = rows_cells(masks, masks.len());
    let index = rows.filter(occupied());
    let cols = columns(masks[y].len(), y);
    let row = cols.filter(picked(masks[y]));
    assert(cols[x] == (x as usize, y as usize));
    assert(picked(masks[y])(cols[x]));
    cols.lemma_filter_contains(picked(masks[y]), x);
    assert(row.contains(cols[x]));
    let hx = choose|hx: int| 0 <= hx < row.len() && row[hx] == cols[x];
    assert(rows[y] == row);
    assert(occupied()(rows[y]));
    rows.lemma_filter_contains(occupied(), y);
    assert(index.contains(rows[y]));
    let hy = choose|hy: int| 0 <= hy < index.len() && index[hy] == rows[y];
    assert(selectable_index(grid)[hy][hx] == (x as usize, y as usize));
}

/// Putting a widget in place of one that can take focus just as well leaves
/// the selectable index as it is.
pub proof fn lemma_index_kept(grid: Seq<RowView>, x: int, y: int, item: Item)
    requires
        in_grid(grid, x, y),
        item.can_focus() == grid[y].items[x].item.can_focus(),
    ensures
        selectable_index(grid_with(grid, x, y, item)) == selectable_index(grid),
{
    let after = grid_with(grid, x, y, item);
    assert forall|j: int| 0 <= j < grid.len() implies row_mask(after[j].items) == row_mask(
        grid[j].items,
    ) by {
        assert(row_mask(after[j].items) =~= row_mask(grid[j].items));
    }
    assert(grid_mask(after) =~= grid_mask(grid));
}

/// Dropping what the widgets have loaded leaves the selectable index as it
/// is.
pub proof fn lemma_index_fresh(grid: Seq<RowView>)
    ensures
        selectable_index(fresh_grid(grid)) == selectable_index(grid),
{
    let after = fresh_grid(grid);
    assert forall|j: int| 0 <= j < grid.len() implies row_mask(after[j].items) == row_mask(
        grid[j].items,
    ) by {
        assert forall|i: int| 0 <= i < grid[j].items.len() implies row_mask(after[j].items)[i]
            == row_mask(grid[j].items)[i] by {
            grid[j].items[i].item.lemma_focus_kept(KeyCode::Other);
        }
        assert(row_mask(after[j].items) =~= row_mask(grid[j].items));
    }
    assert(grid_mask(after) =~= grid_mask(grid));
}

/// The marked coordinates of the first `n` columns of a row are in row
/// `y`, left of column `n`, and in column order.
proof fn lemma_row_ordered(mask: Seq<bool>, y: int, n: nat)
    requires
        n <= usize::MAX,
        0 <= y <= usize::MAX,
    ensures
        ({
            let row = columns(n, y).filter(picked(mask));
            &&& forall|a: int| 0 <= a < row.len() ==> (#[trigger] row[a]).0 < n && row[a].1 == y
            &&& forall|a: int, b: int|
                0 <= a < b < row.len() ==> (#[trigger] row[a]).0 < (#[trigger] row[b]).0
        }),
    decreases n,
{
    if n == 0 {
        assert(columns(0, y).filter(picked(mask)) =~= Seq::empty()) by {
            reveal(Seq::filter);
        }
    } else {
        let before = columns((n - 1) as nat, y);
        lemma_row_ordered(mask, y, (n - 1) as nat);
        assert(columns(n, y) =~= before.push(((n - 1) as usize, y as usize)));
        before.lemma_filter_push(((n - 1) as usize, y as usize), picked(mask));
    }
}

/// The rows of the index that come from the first `m` rows of a grid hold
/// coordinates of those rows, and are in row order.
proof fn lemma_rows_ordered(masks: Seq<Seq<bool>>, m: nat)
    requires
        m <= masks.len(),
        m <= usize::MAX,
        forall|j: int| 0 <= j < masks.len() ==> (#[trigger] masks[j]).len() <= usize::MAX,
    ensures
        ({
            let index = rows_cells(masks, m).filter(occupied());
            &&& forall|p: int|
                0 <= p < index.len() ==> (#[trigger] index[p]).len() > 0 && index[p][0].1 < m
            &&& forall|p: int, q: int|
                0 <= p < q < index.len() ==> (#[trigger] index[p])[0].1 < (#[trigger] index[q])[0].1
            &&& forall|p: int, a: int, b: int|
                0 <= p < index.len() && 0 <= a < b < index[p].len() ==> (#[trigger] index[p][a]).0
                    < (#[trigger] index[p][b]).0 && index[p][a].1 == index[p][b].1
        }),
    decreases m,
{
    if m == 0 {
        assert(rows_cells(masks, 0).filter(occupied()) =~= Seq::empty()) by {
            reveal(Seq::filter);
        }
    } else {
        let before = rows_cells(masks, (m - 1) as nat);
        let row = row_cells(masks[m - 1], m - 1);
        lemma_rows_ordered(masks, (m - 1) as nat);
        lemma_row_ordered(masks[m - 1], m - 1, masks[m - 1].len());
        assert(rows_cells(masks, m) =~= before.push(row));
        before.lemma_filter_push(row, occupied());
    }
}

/// The selectable index keeps the order of the grid: from row to row of the
/// index the row of the grid grows, and within a row of the index all
/// entries are of one row of the grid and their columns grow.
pub proof fn lemma_index_ordered(grid: Seq<RowView>)
    requires
        grid_fits(grid),
    ensures
        ({
            let index = selectable_index(grid);
            &&& forall|p: int, q: int|
                0 <= p < q < index.len() ==> (#[trigger] index[p])[0].1 < (#[trigger] index[q])[0].1
            &&& forall|p: int, a: int, b: int|
                0 <= p < index.len() && 0 <= a < b < index[p].len() ==> (#[trigger] index[p][a]).0
                    < (#[trigger] index[p][b]).0 && index[p][a].1 == index[p][b].1
        }),
{
    let masks = grid_mask(grid);
    assert forall|j: int| 0 <= j < masks.len() implies (#[trigger] masks[j]).len()
        <= usize::MAX by {
        assert(grid[j].items.len() <= usize::MAX);
    }
    lemma_rows_ordered(masks, masks.len());
}

} // verus!
