//! The widgets that every page shares.

use crate::items::SearchSettings;
use crate::keys::KeyCode;
use crate::layout::{Constraint, Rect};
use crate::page::Page;
use crate::session::AppNoState;
use crate::shape::{Color, Shape};
use crate::states::{Item, Row, RowItem, RowView, Selection};
use crate::text::{type_key, typed_text};
use vstd::prelude::*;

verus! {

/// A widget that appears on every page.
#[derive(Clone, Copy, Debug, PartialEq, Eq, Structural)]
pub enum GlobalItem {
    SearchBar,
    SearchSettings,
    MessageBar,
}

impl GlobalItem {
    /// The search bar and the search settings can take focus; the message
    /// bar only shows.
    pub open spec fn can_focus(self) -> bool {
        self != GlobalItem::MessageBar
    }

    /// Says whether the cursor can rest on the widget.
    pub fn selectable(&self) -> (focus: bool)
        ensures
            focus == self.can_focus(),
    {
        match self {
            GlobalItem::SearchBar => true,
            GlobalItem::SearchSettings => true,
            GlobalItem::MessageBar => false,
        }
    }

    /// The search bar takes the keys, the search settings take them and
    /// open their popup, the message bar does nothing.
    pub open spec fn selection(self) -> Selection {
        match self {
            GlobalItem::SearchBar => Selection::Enter,
            GlobalItem::SearchSettings => Selection::Popup,
            GlobalItem::MessageBar => Selection::Stay,
        }
    }

    /// What the widget answers when it is selected.
    pub fn select(&self, app: &AppNoState) -> (answer: Selection)
        ensures
            answer == self.selection(),
    {
        match self {
            GlobalItem::SearchBar => Selection::Enter,
            GlobalItem::SearchSettings => Selection::Popup,
            GlobalItem::MessageBar => Selection::Stay,
        }
    }

    /// Enter in the search bar opens the search page.
    pub open spec fn key_target(self, key: KeyCode) -> Option<Page> {
        if self == GlobalItem::SearchBar && key == KeyCode::Enter {
            Some(Page::Search)
        } else {
            None
        }
    }

    /// The search text after the widget got `key`: the search bar types
    /// into it, the other widgets leave it.
    pub open spec fn typed(self, text: Seq<char>, key: KeyCode) -> Seq<char> {
        if self == GlobalItem::SearchBar {
            typed_text(text, key)
        } else {
            text
        }
    }

    /// Handles a key while the widget is selected. Where a page is
    /// returned, the session is to move on to it. Only the search text of
    /// the session can change.
    pub fn key_input(&mut self, key: KeyCode, app: &mut AppNoState) -> (target: Option<Page>)
        ensures
            target == old(self).key_target(key),
            *final(self) == *old(self),
            final(app).search_text@ == old(self).typed(old(app).search_text@, key),
            *final(app) == (AppNoState { search_text: final(app).search_text, ..*old(app) }),
    {
        match self {
            GlobalItem::SearchBar => {
                if key == KeyCode::Enter {
                    Some(Page::Search)
                } else {
                    type_key(&mut app.search_text, key);
                    None
                }
            },
            _ => None,
        }
    }

    /// Whether the widget asks to be drawn once more on top of the others:
    /// the search settings do while they are selected.
    pub open spec fn wants_popup(self, selected: bool) -> bool {
        self == GlobalItem::SearchSettings && selected
    }

    /// What the widget draws into `rect`: the search bar the search text,
    /// the message bar the message, the search settings their border and,
    /// when drawn on top, the settings.
    pub open spec fn drawn(
        self,
        rect: Rect,
        selected: bool,
        hover: bool,
        popup_pass: bool,
    ) -> Seq<Shape> {
        let color = Color::frame(selected, hover);
        match self {
            GlobalItem::SearchBar => seq![Shape::Input { area: rect, color }],
            GlobalItem::SearchSettings => if popup_pass {
                seq![Shape::Settings { area: rect, color }]
            } else {
                seq![Shape::Border { area: rect, color }]
            },
            GlobalItem::MessageBar => seq![Shape::Message { area: rect, color }],
        }
    }

    /// Draws the widget into `rect`: adds its shapes to `shapes`, and says
    /// whether it asks to be drawn once more on top of the others.
    pub fn render_item(
        &self,
        rect: Rect,
        selected: bool,
        hover: bool,
        popup_pass: bool,
        shapes: &mut Vec<Shape>,
    ) -> (popup: bool)
        ensures
            popup == self.wants_popup(selected),
            final(shapes)@ == old(shapes)@ + self.drawn(rect, selected, hover, popup_pass),
    {
        let ghost before = shapes@;
        let color = Color::border(selected, hover);
        let popup = match self {
            GlobalItem::SearchBar => {
                shapes.push(Shape::Input { area: rect, color });
                false
            },
            GlobalItem::SearchSettings => {
                if popup_pass {
                    shapes.push(Shape::Settings { area: rect, color });
                } else {
                    shapes.push(Shape::Border { area: rect, color });
                }
                selected
            },
            GlobalItem::MessageBar => {
                shapes.push(Shape::Message { area: rect, color });
                false
            },
        };
        assert(shapes@ =~= before + self.drawn(rect, selected, hover, popup_pass));
        popup
    }
}

/// The row that every page starts with: the search bar and the search
/// settings.
pub open spec fn search_row() -> RowView {
    RowView {
        items: seq![
            RowItem { item: Item::Global(GlobalItem::SearchBar), constraint: Constraint::Min(16) },
            RowItem {
                item: Item::Global(GlobalItem::SearchSettings),
                constraint: Constraint::Length(5),
            },
        ],
        centered: false,
        height: Constraint::Length(3),
    }
}

/// The row that every page ends with: the message bar.
pub open spec fn message_row() -> RowView {
    RowView {
        items: seq![
            RowItem {
                item: Item::Global(GlobalItem::MessageBar),
                constraint: Constraint::Percentage(100),
            },
        ],
        centered: false,
        height: Constraint::Length(3),
    }
}

/// A row that one widget fills.
pub open spec fn wide_row(item: Item) -> RowView {
    RowView {
        items: seq![RowItem { item, constraint: Constraint::Percentage(100) }],
        centered: false,
        height: Constraint::Min(6),
    }
}

/// A centred row of three tabs.
pub open spec fn tab_row(first: Item, second: Item, third: Item) -> RowView {
    RowView {
        items: seq![
            RowItem { item: first, constraint: Constraint::Length(15) },
            RowItem { item: second, constraint: Constraint::Length(15) },
            RowItem { item: third, constraint: Constraint::Length(15) },
        ],
        centered: true,
        height: Constraint::Length(3),
    }
}

/// Builds the row that every page starts with.
pub fn top_row() -> (row: Row)
    ensures
        row@ == search_row(),
{
    let mut items: Vec<RowItem> = Vec::new();
    items.push(
        RowItem { item: Item::Global(GlobalItem::SearchBar), constraint: Constraint::Min(16) },
    );
    items.push(
        RowItem {
            item: Item::Global(GlobalItem::SearchSettings),
            constraint: Constraint::Length(5),
        },
    );
    let row = Row { items, centered: false, height: Constraint::Length(3) };
    assert(row@.items =~= search_row().items);
    row
}

/// Builds the row that every page ends with.
pub fn bottom_row() -> (row: Row)
    ensures
        row@ == message_row(),
{
    let mut items: Vec<RowItem> = Vec::new();
    items.push(
        RowItem {
            item: Item::Global(GlobalItem::MessageBar),
            constraint: Constraint::Percentage(100),
        },
    );
    let row = Row { items, centered: false, height: Constraint::Length(3) };
    assert(row@.items =~= message_row().items);
    row
}

/// Builds a row that `item` fills.
pub fn filling_row(item: Item) -> (row: Row)
    ensures
        row@ == wide_row(item),
{
    let mut items: Vec<RowItem> = Vec::new();
    items.push(RowItem { item, constraint: Constraint::Percentage(100) });
    let row = Row { items, centered: false, height: Constraint::Min(6) };
    assert(row@.items =~= wide_row(item).items);
    row
}

/// Builds a centred row of three tabs.
pub fn tabs_row(first: Item, second: Item, third: Item) -> (row: Row)
    ensures
        row@ == tab_row(first, second, third),
{
    let mut items: Vec<RowItem> = Vec::new();
    items.push(RowItem { item: first, constraint: Constraint::Length(15) });
    items.push(RowItem { item: second, constraint: Constraint::Length(15) });
    items.push(RowItem { item: third, constraint: Constraint::Length(15) });
    let row = Row { items, centered: true, height: Constraint::Length(3) };
    assert(row@.items =~= tab_row(first, second, third).items);
    row
}

} // verus!
