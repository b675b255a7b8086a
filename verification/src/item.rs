//! What every widget can be asked: whether it takes focus, what selecting
//! it does, what a key does to it, what it loads and what it draws.

use crate::config::MainConfig;
use crate::items::{LoadError, SearchSettings};
use crate::keys::KeyCode;
use crate::layout::Rect;
use crate::loader::{load_outcome, Fetch, Fetched, Thumbnail};
use crate::page::Page;
use crate::pages::channel::{ChannelDisplayItem, ChannelItem};
use crate::pages::item_info::ItemInfoItem;
use crate::pages::main_menu::MainMenuItem;
use crate::pages::search::SearchItem;
use crate::session::AppNoState;
use crate::shape::{lemma_display_within, lemma_listing_within, shapes_within, Shape};
use crate::states::{Item, Selection};
use vstd::prelude::*;

verus! {

impl Item {
    /// Whether the cursor can rest on the widget.
    pub open spec fn can_focus(self) -> bool {
        match self {
            Item::Global(item) => item.can_focus(),
            Item::MainMenu(item) => item.can_focus(),
            Item::ItemInfo(item) => item.can_focus(),
            Item::Search(item) => item.can_focus(),
            Item::Channel(item) => item.can_focus(),
        }
    }

    /// Asks the widget whether the cursor can rest on it.
    pub fn selectable(&self) -> (focus: bool)
        ensures
            focus == self.can_focus(),
    {
        match self {
            Item::Global(item) => item.selectable(),
            Item::MainMenu(item) => item.selectable(),
            Item::ItemInfo(item) => item.selectable(),
            Item::Search(item) => item.selectable(),
            Item::Channel(item) => item.selectable(),
        }
    }

    /// What the widget answers when it is selected on `page`.
    pub open spec fn selection(self, page: Page) -> Selection {
        match self {
            Item::Global(item) => item.selection(),
            Item::MainMenu(item) => item.selection(),
            Item::ItemInfo(item) => item.selection(),
            Item::Search(item) => item.selection(),
            Item::Channel(item) => item.selection(page),
        }
    }

    /// Asks the widget what selecting it does.
    pub fn select(&self, app: &AppNoState) -> (answer: Selection)
        ensures
            answer == self.selection(app.page),
    {
        match self {
            Item::Global(item) => item.select(app),
            Item::MainMenu(item) => item.select(app),
            Item::ItemInfo(item) => item.select(app),
            Item::Search(item) => item.select(app),
            Item::Channel(item) => item.select(app),
        }
    }

    /// The page that the widget opens on `key`, if any.
    pub open spec fn key_target(self, key: KeyCode) -> Option<Page> {
        match self {
            Item::Global(item) => item.key_target(key),
            Item::MainMenu(item) => item.key_target(key),
            Item::ItemInfo(item) => item.key_target(key),
            Item::Search(item) => item.key_target(key),
            Item::Channel(item) => item.key_target(key),
        }
    }

    /// The widget after `key`.
    pub open spec fn after_key(self, key: KeyCode) -> Item {
        match self {
            Item::Global(item) => self,
            Item::MainMenu(item) => Item::MainMenu(item.after_key(key)),
            Item::ItemInfo(item) => Item::ItemInfo(item.after_key(key)),
            Item::Search(item) => Item::Search(item.after_key(key)),
            Item::Channel(item) => Item::Channel(item.after_key(key)),
        }
    }

    /// The search text after the widget got `key`.
    pub open spec fn typed(self, text: Seq<char>, key: KeyCode) -> Seq<char> {
        match self {
            Item::Global(item) => item.typed(text, key),
            _ => text,
        }
    }

    /// Hands a key to the widget. Where a page is returned, the session is
    /// to move on to it, and neither the widget nor the session has changed.
    /// Otherwise the widget may have changed, and of the session only the
    /// search text.
    pub fn key_input(&mut self, key: KeyCode, app: &mut AppNoState) -> (target: Option<Page>)
        ensures
            target == old(self).key_target(key),
            *final(self) == old(self).after_key(key),
            final(app).search_text@ == old(self).typed(old(app).search_text@, key),
            *final(app) == (AppNoState { search_text: final(app).search_text, ..*old(app) }),
            target.is_some() ==> *final(self) == *old(self) && final(app).search_text@ == old(
                app,
            ).search_text@,
    {
        match self {
            Item::Global(item) => item.key_input(key, app),
            Item::MainMenu(item) => item.key_input(key, app),
            Item::ItemInfo(item) => item.key_input(key, app),
            Item::Search(item) => item.key_input(key, app),
            Item::Channel(item) => item.key_input(key, app),
        }
    }

    /// The widget without what it has loaded.
    pub open spec fn fresh(self) -> Item {
        match self {
            Item::Global(item) => self,
            Item::MainMenu(item) => Item::MainMenu(item.fresh()),
            Item::ItemInfo(item) => Item::ItemInfo(ItemInfoItem::Unknown),
            Item::Search(item) => Item::Search(SearchItem::Unknown),
            Item::Channel(item) => Item::Channel(item.fresh()),
        }
    }

    /// A widget of the same kind that has loaded nothing.
    pub fn blank(&self) -> (item: Item)
        ensures
            item == self.fresh(),
    {
        match self {
            Item::Global(item) => Item::Global(*item),
            Item::MainMenu(item) => Item::MainMenu(item.blank()),
            Item::ItemInfo(_) => Item::ItemInfo(ItemInfoItem::Unknown),
            Item::Search(_) => Item::Search(SearchItem::Unknown),
            Item::Channel(item) => Item::Channel(item.blank()),
        }
    }

    /// What the widget asks of the content service in a session on `page`
    /// with the search text `query`, the search settings `settings` and the
    /// page number `page_no`.
    pub open spec fn request(
        self,
        page: Page,
        query: String,
        settings: SearchSettings,
        page_no: usize,
    ) -> Option<Fetch> {
        match self {
            Item::Global(_) => None,
            Item::MainMenu(item) => item.request(page),
            Item::ItemInfo(item) => item.request(page),
            Item::Search(item) => item.request(page, query, settings, page_no),
            Item::Channel(item) => item.request(page),
        }
    }

    /// Asks the widget what it wants of the content service.
    pub fn load_request(
        &self,
        page: &Page,
        query: &String,
        settings: SearchSettings,
        page_no: usize,
    ) -> (fetch: Option<Fetch>)
        ensures
            fetch == self.request(*page, *query, settings, page_no),
    {
        match self {
            Item::Global(_) => None,
            Item::MainMenu(item) => item.load_request(page),
            Item::ItemInfo(item) => item.load_request(page),
            Item::Search(item) => item.load_request(page, query, settings, page_no),
            Item::Channel(item) => item.load_request(page),
        }
    }

    /// Whether the widget shows `fetched`, and nothing else.
    pub open spec fn shows(self, fetched: Fetched) -> bool {
        match self {
            Item::Global(_) => false,
            Item::MainMenu(item) => item.shows(fetched),
            Item::ItemInfo(item) => item.shows(fetched),
            Item::Search(item) => item.shows(fetched),
            Item::Channel(item) => item.shows(fetched),
        }
    }

    /// The thumbnails that belong to what the widget shows.
    pub open spec fn pictures(self, main: MainConfig) -> Seq<Thumbnail> {
        match self {
            Item::Global(_) => Seq::empty(),
            Item::MainMenu(item) => item.pictures(),
            Item::ItemInfo(item) => item.pictures(main),
            Item::Search(item) => item.pictures(),
            Item::Channel(item) => item.pictures(),
        }
    }

    /// Takes the answer of the content service to what the widget asked in
    /// the session `app`. A refused answer leaves the widget as it was and
    /// gives the error. Otherwise the widget shows the answer, and the
    /// thumbnails that are to be fetched for it are returned. Either way
    /// the widget can take focus as before.
    pub fn load_item(&mut self, app: &AppNoState, response: Result<Fetched, String>) -> (outcome:
        Result<Vec<Thumbnail>, LoadError>)
        ensures
            load_outcome(
                old(self).request(app.page, app.search_text, app.search_settings, app.page_no),
                response,
                *old(self),
                *final(self),
                outcome,
            ),
            old(self).request(
                app.page,
                app.search_text,
                app.search_settings,
                app.page_no,
            ).is_some() && outcome.is_ok() ==> final(self).shows(
                response.unwrap(),
            ) && outcome.unwrap()@ == final(self).pictures(app.config.main),
            final(self).can_focus() == old(self).can_focus(),
    {
        match self {
            Item::Global(_) => Ok(Vec::new()),
            Item::MainMenu(item) => item.load_item(&app.page, response),
            Item::ItemInfo(item) => item.load_item(&app.page, response, &app.config.main),
            Item::Search(item) => item.load_item(app, response),
            Item::Channel(item) => item.load_item(&app.page, response),
        }
    }

    /// Whether the widget asks to be drawn once more on top of the others.
    pub open spec fn wants_popup(self, selected: bool) -> bool {
        match self {
            Item::Global(item) => item.wants_popup(selected),
            _ => false,
        }
    }

    /// What the widget draws into `rect`.
    pub open spec fn drawn(
        self,
        rect: Rect,
        page: Page,
        selected: bool,
        hover: bool,
        popup_focus: bool,
        popup_pass: bool,
    ) -> Seq<Shape> {
        match self {
            Item::Global(item) => item.drawn(rect, selected, hover, popup_pass),
            Item::MainMenu(item) => item.drawn(rect, selected, hover, page),
            Item::ItemInfo(item) => item.drawn(rect, selected, hover, popup_focus),
            Item::Search(item) => item.drawn(rect, selected, hover, popup_focus),
            Item::Channel(item) => item.drawn(rect, selected, hover, popup_focus, page),
        }
    }

    /// The widget after it was drawn into `rect`.
    pub open spec fn after_draw(self, rect: Rect) -> Item {
        match self {
            Item::Global(item) => self,
            Item::MainMenu(item) => Item::MainMenu(item.after_draw(rect)),
            Item::ItemInfo(item) => Item::ItemInfo(item.after_draw(rect)),
            Item::Search(item) => Item::Search(item.after_draw(rect)),
            Item::Channel(item) => Item::Channel(item.after_draw(rect)),
        }
    }

    /// Draws the widget into `rect`: adds its shapes to `shapes`, and says
    /// whether it asks to be drawn once more on top of the others.
    pub fn render_item(
        &mut self,
        rect: Rect,
        page: &Page,
        selected: bool,
        hover: bool,
        popup_focus: bool,
        popup_pass: bool,
        shapes: &mut Vec<Shape>,
    ) -> (popup: bool)
        ensures
            popup == old(self).wants_popup(selected),
            *final(self) == old(self).after_draw(rect),
            final(shapes)@ == old(shapes)@ + old(self).drawn(
                rect,
                *page,
                selected,
                hover,
                popup_focus,
                popup_pass,
            ),
    {
        match self {
            Item::Global(item) => item.render_item(rect, selected, hover, popup_pass, shapes),
            Item::MainMenu(item) => {
                item.render_item(rect, selected, hover, page, shapes);
                false
            },
            Item::ItemInfo(item) => {
                item.render_item(rect, selected, hover, popup_focus, shapes);
                false
            },
            Item::Search(item) => {
                item.render_item(rect, selected, hover, popup_focus, shapes);
                false
            },
            Item::Channel(item) => {
                item.render_item(rect, selected, hover, popup_focus, page, shapes);
                false
            },
        }
    }

    /// Whether a widget can take focus does not depend on what it has
    /// loaded, nor on the keys it got.
    pub proof fn lemma_focus_kept(self, key: KeyCode)
        ensures
            self.fresh().can_focus() == self.can_focus(),
            self.after_key(key).can_focus() == self.can_focus(),
    {
    }

    /// Drawing a widget does not change whether it can take focus.
    pub proof fn lemma_focus_drawn(self, rect: Rect)
        ensures
            self.after_draw(rect).can_focus() == self.can_focus(),
    {
    }

    /// A widget is drawn inside the rectangle that it is given.
    pub proof fn lemma_drawn_within(
        self,
        rect: Rect,
        page: Page,
        selected: bool,
        hover: bool,
        popup_focus: bool,
        popup_pass: bool,
        outer: Rect,
    )
        requires
            rect.in_space(),
            rect.within(outer),
        ensures
            shapes_within(self.drawn(rect, page, selected, hover, popup_focus, popup_pass), outer),
    {
        lemma_display_within(rect, false, selected, hover, outer);
        lemma_display_within(rect, true, selected, hover, outer);
        match self {
            Item::MainMenu(MainMenuItem::VideoList(Some((videos, list)))) => {
                lemma_listing_within(
                    list,
                    videos@.len(),
                    rect,
                    40,
                    false,
                    selected,
                    hover,
                    false,
                    outer,
                );
            },
            Item::ItemInfo(ItemInfoItem::PlayList(playlist, list)) => {
                lemma_listing_within(
                    list,
                    playlist.videos@.len(),
                    rect,
                    60,
                    true,
                    selected,
                    hover,
                    popup_focus,
                    outer,
                );
            },
            Item::Search(SearchItem::Videos(videos, list)) => {
                lemma_listing_within(
                    list,
                    videos@.len(),
                    rect,
                    60,
                    true,
                    selected,
                    hover,
                    popup_focus,
                    outer,
                );
            },
            Item::Channel(ChannelItem::InfoDisplay(ChannelDisplayItem::Videos(videos, list))) => {
                lemma_listing_within(
                    list,
                    videos@.len(),
                    rect,
                    60,
                    true,
                    selected,
                    hover,
                    popup_focus,
                    outer,
                );
            },
            Item::Channel(
                ChannelItem::InfoDisplay(ChannelDisplayItem::Playlists(playlists, list)),
            ) => {
                lemma_listing_within(
                    list,
                    playlists@.len(),
                    rect,
                    60,
                    true,
                    selected,
                    hover,
                    popup_focus,
                    outer,
                );
            },
            _ => {},
        }
    }
}

} // verus!
