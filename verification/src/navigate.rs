//! The navigator: what a key does to a session.

use crate::index::{lemma_index_fresh, lemma_index_kept, lemma_index_sound, selectable_index};
use crate::items::MiniVideo;
use crate::keys::{Action, Key, KeyCode};
use crate::page::Page;
use crate::pages::channel::{ChannelDisplayItem, ChannelItem};
use crate::pages::item_info::DisplayItem;
use crate::pages::main_menu::{MainMenuItem, MainMenuSelector};
use crate::session::{hover_in, lemma_opened_wf, App, AppNoState, AppView};
use crate::states::{
    fresh_grid, grid_fits, grid_with, in_grid, rows_view, Item, RowView, Selection,
};
use crate::text_list::TextList;
use vstd::prelude::*;

verus! {

/// The column in a row of `width` entries that is nearest to column `x`.
pub open spec fn clamped(x: usize, width: nat) -> usize {
    if x < width {
        x
    } else {
        (width - 1) as usize
    }
}

/// The cursor after a move. Without a cursor, Up and Left put it on the
/// first entry of the first row, Down and Right on the first entry of the
/// last row; an empty index has no place for it. With a cursor, Left and
/// Right move it within its row and stop at the ends; Up and Down move it
/// to the next row and, where that row is shorter, to its last entry.
pub open spec fn hover_after(
    index: Seq<Seq<(usize, usize)>>,
    hover: Option<(usize, usize)>,
    action: Action,
) -> Option<(usize, usize)> {
    match hover {
        None => if index.len() == 0 {
            None
        } else {
            match action {
                Action::Up => Some((0usize, 0usize)),
                Action::Left => Some((0usize, 0usize)),
                Action::Down => Some((0usize, (index.len() - 1) as usize)),
                Action::Right => Some((0usize, (index.len() - 1) as usize)),
                _ => None,
            }
        },
        Some((x, y)) => match action {
            Action::Up => if y > 0 {
                Some((clamped(x, index[y - 1].len()), (y - 1) as usize))
            } else {
                hover
            },
            Action::Down => if y + 1 < index.len() {
                Some((clamped(x, index[y + 1].len()), (y + 1) as usize))
            } else {
                hover
            },
            Action::Left => if x > 0 {
                Some(((x - 1) as usize, y))
            } else {
                hover
            },
            Action::Right => if x + 1 < index[y as int].len() {
                Some(((x + 1) as usize, y))
            } else {
                hover
            },
            _ => hover,
        },
    }
}

impl AppView {
    /// The session after Refresh: the widgets drop what they have loaded,
    /// and the page is to be loaded and drawn again.
    pub open spec fn refreshed(self) -> AppView {
        AppView { state: fresh_grid(self.state), load: true, render: true, ..self }
    }

    /// The session after Deselect while a widget is selected.
    pub open spec fn deselected(self) -> AppView {
        AppView { selected: None, popup_focus: false, render: true, ..self }
    }

    /// The session after a move: the cursor moves, and the page is to be
    /// drawn again where it did.
    pub open spec fn moved(self, action: Action) -> AppView {
        let hover = hover_after(self.selectable, self.hover, action);
        AppView { hover, render: self.render || hover != self.hover, ..self }
    }

    /// The coordinate in the grid of the widget under the cursor.
    pub open spec fn under_cursor(self) -> (usize, usize) {
        let (hx, hy) = self.hover.unwrap();
        self.selectable[hy as int][hx as int]
    }

    /// The session after Select with the cursor on a widget and no widget
    /// selected: what the widget under the cursor answers decides.
    pub open spec fn picked(self) -> AppView {
        let (x, y) = self.under_cursor();
        match self.state[y as int].items[x as int].item.selection(self.page) {
            Selection::Enter => AppView { selected: Some((x, y)), render: true, ..self },
            Selection::Popup => AppView {
                selected: Some((x, y)),
                popup_focus: true,
                render: true,
                ..self
            },
            Selection::Stay => AppView { render: true, ..self },
            Selection::Open(page) => self.opened(page),
        }
    }

    /// The session after the selected widget got a key: either the page
    /// that the widget asks for is opened, or the widget changes in its
    /// place, and with it the search text.
    pub open spec fn keyed(self, code: KeyCode) -> AppView {
        let (x, y) = self.selected.unwrap();
        let item = self.state[y as int].items[x as int].item;
        match item.key_target(code) {
            Some(page) => self.opened(page),
            None => AppView {
                state: grid_with(self.state, x as int, y as int, item.after_key(code)),
                search_text: item.typed(self.search_text, code),
                ..self
            },
        }
    }

    /// The session after a key. While a widget is selected, every key but
    /// the one bound to Deselect goes to that widget. Otherwise the action
    /// that the key is bound to decides, and an unbound key does nothing.
    pub open spec fn step(self, key: Key) -> AppView {
        let action = self.config.keybindings.action(key);
        if self.selected.is_some() && action != Some(Action::Deselect) {
            self.keyed(key.code)
        } else {
            match action {
                None => self,
                Some(Action::Refresh) => self.refreshed(),
                Some(Action::Select) => if self.hover.is_some() && self.selected.is_none() {
                    self.picked()
                } else {
                    self
                },
                Some(Action::Deselect) => if self.selected.is_some() {
                    self.deselected()
                } else {
                    self
                },
                Some(action) => self.moved(action),
            }
        }
    }
}

impl App {
    /// Moves the cursor.
    pub fn travel(&mut self, action: Action)
        requires
            old(self).wf(),
        ensures
            final(self)@ == old(self)@.moved(action),
            final(self).wf(),
    {
        proof {
            lemma_hover_stays(self@.state, self@.hover, action);
            assert forall|y: int| 0 <= y < self@.selectable.len() implies (
            #[trigger] self@.selectable[y]).len() > 0 by {
                lemma_index_sound(self@.state, 0, y);
            }
        }
        let rows: usize = self.selectable.len();
        let next: Option<(usize, usize)> = match self.hover {
            None => {
                if rows == 0 {
                    None
                } else {
                    match action {
                        Action::Up => Some((0, 0)),
                        Action::Left => Some((0, 0)),
                        Action::Down => Some((0, rows - 1)),
                        Action::Right => Some((0, rows - 1)),
                        _ => None,
                    }
                }
            },
            Some((x, y)) => match action {
                Action::Up => {
                    if y > 0 {
                        let width: usize = self.selectable[y - 1].len();
                        Some((if x < width { x } else { width - 1 }, y - 1))
                    } else {
                        Some((x, y))
                    }
                },
                Action::Down => {
                    if y + 1 < rows {
                        let width: usize = self.selectable[y + 1].len();
                        Some((if x < width { x } else { width - 1 }, y + 1))
                    } else {
                        Some((x, y))
                    }
                },
                Action::Left => {
                    if x > 0 {
                        Some((x - 1, y))
                    } else {
                        Some((x, y))
                    }
                },
                Action::Right => {
                    let width: usize = self.selectable[y].len();
                    if x < width && x + 1 < width {
                        Some((x + 1, y))
                    } else {
                        Some((x, y))
                    }
                },
                _ => Some((x, y)),
            },
        };
        let changed: bool = match (next, self.hover) {
            (Some((a, b)), Some((c, d))) => a != c || b != d,
            (None, None) => false,
            _ => true,
        };
        if changed {
            self.render = true;
        }
        self.hover = next;
    }

    /// Hands a key to the selected widget, and opens the page that the
    /// widget asks for, if it asks for one.
    fn forward(self, x: usize, y: usize, code: KeyCode) -> (next: App)
        requires
            self.wf(),
            self.selected == Some((x, y)),
        ensures
            next@ == self@.keyed(code),
            next.wf(),
    {
        let ghost before = self@;
        let ghost item = before.state[y as int].items[x as int].item;
        let (mut rest, mut state) = AppNoState::split(self);
        let target = state.0[y].items[x].item.key_input(code, &mut rest);
        let app = AppNoState::join(rest, state);
        proof {
            item.lemma_focus_kept(code);
            lemma_index_kept(before.state, x as int, y as int, item.after_key(code));
            app.state.lemma_fits();
            assert(app@.state =~= grid_with(
                before.state,
                x as int,
                y as int,
                item.after_key(code),
            ));
        }
        match target {
            Some(page) => {
                assert(item.after_key(code) == item);
                assert(app@.state[y as int].items =~= before.state[y as int].items);
                assert(app@.state =~= before.state);
                assert(app@ == before);
                app.open(page)
            },
            None => app,
        }
    }

    /// Selects the widget under the cursor.
    fn pick(self, hx: usize, hy: usize) -> (next: App)
        requires
            self.wf(),
            self.hover == Some((hx, hy)),
            self.selected.is_none(),
        ensures
            next@ == self@.picked(),
            next.wf(),
    {
        proof {
            lemma_index_sound(self@.state, hx as int, hy as int);
        }
        let (x, y) = self.selectable[hy][hx];
        let (rest, state) = AppNoState::split(self);
        let answer = state.0[y].items[x].item.select(&rest);
        let mut app = AppNoState::join(rest, state);
        match answer {
            Selection::Enter => {
                app.selected = Some((x, y));
                app.render = true;
                app
            },
            Selection::Popup => {
                app.selected = Some((x, y));
                app.popup_focus = true;
                app.render = true;
                app
            },
            Selection::Stay => {
                app.render = true;
                app
            },
            Selection::Open(page) => app.open(page),
        }
    }

    /// Handles a key: lets the navigator act on it, or hands it to the
    /// selected widget.
    pub fn key_input(self, key: Key) -> (next: App)
        requires
            self.wf(),
        ensures
            next@ == self@.step(key),
            next.wf(),
    {
        let action = self.config.keybindings.get(key);
        let deselect: bool = match action {
            Some(Action::Deselect) => true,
            _ => false,
        };
        if let Some((x, y)) = self.selected {
            if !deselect {
                return self.forward(x, y, key.code);
            }
        }
        let mut app = self;
        match action {
            None => app,
            Some(Action::Refresh) => {
                proof {
                    lemma_index_fresh(app@.state);
                    if let Some((x, y)) = app.selected {
                        app@.state[y as int].items[x as int].item.lemma_focus_kept(KeyCode::Other);
                    }
                }
                app.state.reset();
                proof {
                    app.state.lemma_fits();
                }
                app.load = true;
                app.render = true;
                app
            },
            Some(Action::Select) => {
                match app.hover {
                    Some((hx, hy)) => {
                        if app.selected.is_none() {
                            app.pick(hx, hy)
                        } else {
                            app
                        }
                    },
                    None => app,
                }
            },
            Some(Action::Deselect) => {
                if app.selected.is_some() {
                    app.selected = None;
                    app.popup_focus = false;
                    app.render = true;
                }
                app
            },
            Some(other) => {
                app.travel(other);
                app
            },
        }
    }
}

/// A move leaves the cursor inside the index.
pub proof fn lemma_hover_stays(grid: Seq<RowView>, hover: Option<(usize, usize)>, action: Action)
    requires
        grid_fits(grid),
        hover_in(selectable_index(grid), hover),
    ensures
        hover_in(selectable_index(grid), hover_after(selectable_index(grid), hover, action)),
{
    let index = selectable_index(grid);
    assert forall|y: int| 0 <= y < index.len() implies (#[trigger] index[y]).len() > 0 by {
        lemma_index_sound(grid, 0, y);
    }
}

/// A widget that cannot take focus is never selected: the coordinate under
/// the cursor of a well-formed session names a widget that can.
pub proof fn lemma_cursor_on_focusable(app: AppView)
    requires
        app.wf(),
        app.hover.is_some(),
    ensures
        ({
            let (x, y) = app.under_cursor();
            in_grid(app.state, x as int, y as int) && app.state[y as int].items[x
                as int].item.can_focus()
        }),
{
    let (hx, hy) = app.hover.unwrap();
    lemma_index_sound(app.state, hx as int, hy as int);
}

/// Whatever key a well-formed session gets, the session after it is well
/// formed: the cursor points into the selectable index, the selected widget
/// is one that can take focus, and the index is that of the grid. The stack
/// either stays as it is or gains the session that the key was given to.
pub proof fn lemma_step_wf(app: AppView, key: Key)
    requires
        app.wf(),
    ensures
        app.step(key).wf(),
        app.step(key).history == app.history || app.step(key).history == app.history.push(
            app.kept(),
        ),
{
    let action = app.config.keybindings.action(key);
    if app.selected.is_some() && action != Some(Action::Deselect) {
        let (x, y) = app.selected.unwrap();
        let item = app.state[y as int].items[x as int].item;
        match item.key_target(key.code) {
            Some(page) => {
                lemma_opened_wf(app, page);
            },
            None => {
                item.lemma_focus_kept(key.code);
                lemma_index_kept(app.state, x as int, y as int, item.after_key(key.code));
            },
        }
    } else {
        match action {
            None => {},
            Some(Action::Refresh) => {
                lemma_index_fresh(app.state);
                if let Some((x, y)) = app.selected {
                    app.state[y as int].items[x as int].item.lemma_focus_kept(KeyCode::Other);
                }
            },
            Some(Action::Select) => {
                if let Some((hx, hy)) = app.hover {
                    if app.selected.is_none() {
                        lemma_index_sound(app.state, hx as int, hy as int);
                        let (x, y) = app.under_cursor();
                        match app.state[y as int].items[x as int].item.selection(app.page) {
                            Selection::Open(page) => {
                                lemma_opened_wf(app, page);
                            },
                            _ => {},
                        }
                    }
                }
            },
            Some(Action::Deselect) => {},
            Some(other) => {
                lemma_hover_stays(app.state, app.hover, other);
            },
        }
    }
}

/// Select on a tab of the main menu opens the main menu on that tab: the
/// session that was selected in goes on the stack, and the new one is to be
/// loaded.
pub proof fn lemma_select_opens_tab(app: AppView, key: Key, tab: MainMenuSelector)
    requires
        app.wf(),
        app.hover.is_some(),
        app.selected.is_none(),
        app.config.keybindings.action(key) == Some(Action::Select),
        ({
            let (x, y) = app.under_cursor();
            app.state[y as int].items[x as int].item == Item::MainMenu(
                MainMenuItem::SeletorTab(tab),
            )
        }),
    ensures
        app.step(key).page == Page::MainMenu(tab),
        app.step(key).history == app.history.push(app.kept()),
        app.step(key).load,
        app.step(key).selected.is_none(),
{
}

/// Enter on the picked video of a selected list of a channel opens the page
/// of that video: the session that held the list goes on the stack, and the
/// new one starts from the grid that is configured for the page of an item.
pub proof fn lemma_enter_opens_video(
    app: AppView,
    key: Key,
    videos: Vec<MiniVideo>,
    list: TextList,
)
    requires
        app.wf(),
        app.selected.is_some(),
        app.config.keybindings.action(key) != Some(Action::Deselect),
        key.code == KeyCode::Enter,
        list.selected < videos@.len(),
        ({
            let (x, y) = app.selected.unwrap();
            app.state[y as int].items[x as int].item == Item::Channel(
                ChannelItem::InfoDisplay(ChannelDisplayItem::Videos(videos, list)),
            )
        }),
    ensures
        app.step(key).page == Page::ItemDisplay(
            DisplayItem::Video(videos@[list.selected as int].video_id),
        ),
        app.step(key).history == app.history.push(app.kept()),
        app.step(key).state == fresh_grid(rows_view(app.config.layouts.item_info.rows@)),
        app.step(key).load,
{
}

} // verus!
