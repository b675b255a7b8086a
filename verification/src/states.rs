//! The grid of a page: rows of widgets, and the index of the widgets that
//! can take focus.

use crate::layout::Constraint;
use crate::page::Page;
use crate::pages::channel::{Channel, ChannelItem};
use crate::pages::global::GlobalItem;
use crate::pages::item_info::{ItemInfo, ItemInfoItem};
use crate::pages::main_menu::{MainMenu, MainMenuItem};
use crate::pages::search::{Search, SearchItem};
use crate::render::Popup;
use vstd::prelude::*;

verus! {

/// A widget of any page.
#[derive(Clone, Debug, PartialEq, Eq)]
pub enum Item {
    Global(GlobalItem),
    MainMenu(MainMenuItem),
    ItemInfo(ItemInfoItem),
    Search(SearchItem),
    Channel(ChannelItem),
}

/// What a widget answers when it is selected.
#[derive(Clone, Debug, PartialEq, Eq)]
pub enum Selection {
    /// The widget takes the keys from now on.
    Enter,
    /// The widget takes the keys and opens its popup.
    Popup,
    /// Nothing changes.
    Stay,
    /// The session moves on to another page.
    Open(Page),
}

/// A widget with the width it asks for.
#[derive(Clone, Debug, PartialEq, Eq)]
pub struct RowItem {
    pub item: Item,
    pub constraint: Constraint,
}

/// A row of widgets.
#[derive(Clone, Debug, PartialEq, Eq)]
pub struct Row {
    pub items: Vec<RowItem>,
    pub centered: bool,
    pub height: Constraint,
}

/// The grid: everything that a page shows.
#[derive(Clone, Debug, PartialEq, Eq)]
pub struct State(pub Vec<Row>);

/// A row as a mathematical value.
#[verifier::ext_equal]
pub struct RowView {
    pub items: Seq<RowItem>,
    pub centered: bool,
    pub height: Constraint,
}

impl View for Row {
    type V = RowView;

    open spec fn view(&self) -> RowView {
        RowView { items: self.items@, centered: self.centered, height: self.height }
    }
}

impl View for State {
    type V = Seq<RowView>;

    open spec fn view(&self) -> Seq<RowView> {
        Seq::new(self.0@.len(), |y: int| self.0@[y]@)
    }
}

/// The rows of a vector as mathematical values.
pub open spec fn rows_view(rows: Seq<Row>) -> Seq<RowView> {
    Seq::new(rows.len(), |y: int| rows[y]@)
}

/// Whether `(x, y)` names a widget of the grid.
pub open spec fn in_grid(grid: Seq<RowView>, x: int, y: int) -> bool {
    0 <= y < grid.len() && 0 <= x < grid[y].items.len()
}

/// Whether the numbers of rows and of columns fit the coordinates.
pub open spec fn grid_fits(grid: Seq<RowView>) -> bool {
    &&& grid.len() <= usize::MAX
    &&& forall|y: int| 0 <= y < grid.len() ==> (#[trigger] grid[y]).items.len() <= usize::MAX
}

/// The grid with `item` in column `x` of row `y`.
pub open spec fn grid_with(grid: Seq<RowView>, x: int, y: int, item: Item) -> Seq<RowView> {
    grid.update(
        y,
        RowView {
            items: grid[y].items.update(
                x,
                RowItem { item, constraint: grid[y].items[x].constraint },
            ),
            centered: grid[y].centered,
            height: grid[y].height,
        },
    )
}

/// The widgets of a row without what they have loaded.
pub open spec fn fresh_items(items: Seq<RowItem>) -> Seq<RowItem> {
    Seq::new(
        items.len(),
        |x: int| RowItem { item: items[x].item.fresh(), constraint: items[x].constraint },
    )
}

/// A grid whose widgets have loaded nothing.
pub open spec fn fresh_grid(grid: Seq<RowView>) -> Seq<RowView> {
    Seq::new(
        grid.len(),
        |y: int|
            RowView {
                items: fresh_items(grid[y].items),
                centered: grid[y].centered,
                height: grid[y].height,
            },
    )
}

impl State {
    /// Builds the grid that `rows` describe, with widgets that have loaded
    /// nothing.
    pub fn fresh(rows: &Vec<Row>) -> (state: State)
        ensures
            state@ == fresh_grid(rows_view(rows@)),
    {
        let mut grid: Vec<Row> = Vec::new();
        let mut y: usize = 0;
        while y < rows.len()
            invariant
                y <= rows@.len(),
                grid@.len() == y,
                forall|j: int|
                    0 <= j < y ==> (#[trigger] grid@[j])@ == fresh_grid(rows_view(rows@))[j],
            decreases rows.len() - y,
        {
            let row = &rows[y];
            let mut items: Vec<RowItem> = Vec::new();
            let mut x: usize = 0;
            while x < row.items.len()
                invariant
                    x <= row.items@.len(),
                    items@.len() == x,
                    forall|i: int|
                        0 <= i < x ==> #[trigger] items@[i] == fresh_items(row.items@)[i],
                decreases row.items.len() - x,
            {
                let cell = &row.items[x];
                items.push(RowItem { item: cell.item.blank(), constraint: cell.constraint });
                x = x + 1;
            }
            assert(items@ =~= fresh_items(row.items@));
            grid.push(Row { items, centered: row.centered, height: row.height });
            y = y + 1;
        }
        let state = State(grid);
        assert(state@ =~= fresh_grid(rows_view(rows@)));
        state
    }

    /// Drops what the widgets have loaded.
    pub fn reset(&mut self)
        ensures
            final(self)@ == fresh_grid(old(self)@),
    {
        let state = State::fresh(&self.0);
        assert(rows_view(self.0@) =~= self@);
        *self = state;
    }

    /// The grid of a session fits the coordinates.
    pub proof fn lemma_fits(self)
        ensures
            grid_fits(self@),
    {
        assert(self.0@.len() == self.0.len());
        assert forall|y: int| 0 <= y < self@.len() implies (#[trigger] self@[y]).items.len()
            <= usize::MAX by {
            assert(self.0@[y].items@.len() == self.0@[y].items.len());
        }
    }
}

} // verus!
