//! The main menu: its tabs and its list of videos.

use crate::items::{LoadError, MiniVideo};
use crate::keys::KeyCode;
use crate::layout::Rect;
use crate::loader::{
    load_outcome, thumbnails_of_videos, video_thumbnails, Fetch, Fetched, Thumbnail,
};
use crate::page::Page;
use crate::pages::global::{
    bottom_row, filling_row, message_row, search_row, tab_row, tabs_row, top_row, wide_row,
};
use crate::session::AppNoState;
use crate::shape::{
    draw_listing, draw_tab, listing_after, listing_shapes, tab_shapes, Color, Label, Shape,
};
use crate::states::{rows_view, Item, Row, RowView, Selection};
use crate::text_list::{open_video, video_target, video_titles, TextList};
use vstd::prelude::*;

verus! {

/// The tabs of the main menu.
#[derive(Clone, Copy, Debug, PartialEq, Eq, Structural)]
pub enum MainMenuSelector {
    Trending,
    Popular,
    History,
}

/// A widget of the main menu.
#[derive(Clone, Debug, PartialEq, Eq)]
pub enum MainMenuItem {
    SeletorTab(MainMenuSelector),
    VideoList(Option<(Vec<MiniVideo>, TextList)>),
}

/// The main menu itself.
pub struct MainMenu;

impl MainMenuItem {
    /// Every widget of the main menu can take focus.
    pub open spec fn can_focus(self) -> bool {
        true
    }

    /// Says whether the cursor can rest on the widget.
    pub fn selectable(&self) -> (focus: bool)
        ensures
            focus == self.can_focus(),
    {
        true
    }

    /// A tab opens the main menu on itself; the list takes the keys.
    pub open spec fn selection(self) -> Selection {
        match self {
            MainMenuItem::SeletorTab(tab) => Selection::Open(Page::MainMenu(tab)),
            MainMenuItem::VideoList(_) => Selection::Enter,
        }
    }

    /// What the widget answers when it is selected.
    pub fn select(&self, app: &AppNoState) -> (answer: Selection)
        ensures
            answer == self.selection(),
    {
        match self {
            MainMenuItem::SeletorTab(tab) => Selection::Open(Page::MainMenu(*tab)),
            MainMenuItem::VideoList(_) => Selection::Enter,
        }
    }

    /// Enter on the list opens the page of the picked video.
    pub open spec fn key_target(self, key: KeyCode) -> Option<Page> {
        match self {
            MainMenuItem::VideoList(Some((videos, list))) => video_target(videos@, list, key),
            _ => None,
        }
    }

    /// The list moves its pick; nothing else changes.
    pub open spec fn after_key(self, key: KeyCode) -> MainMenuItem {
        match self {
            MainMenuItem::VideoList(Some((videos, list))) => MainMenuItem::VideoList(
                Some((videos, list.after_key(key))),
            ),
            _ => self,
        }
    }

    /// Handles a key while the widget is selected. Where a page is
    /// returned, the session is to move on to it; the widget is then as it
    /// was.
    pub fn key_input(&mut self, key: KeyCode, app: &mut AppNoState) -> (target: Option<Page>)
        ensures
            target == old(self).key_target(key),
            *final(self) == old(self).after_key(key),
            *final(app) == *old(app),
            target.is_some() ==> *final(self) == *old(self),
    {
        match self {
            MainMenuItem::VideoList(Some((videos, list))) => {
                let target = open_video(videos, list, key);
                list.key_input(key);
                target
            },
            _ => None,
        }
    }

    /// The list without its videos; a tab as it is.
    pub open spec fn fresh(self) -> MainMenuItem {
        match self {
            MainMenuItem::SeletorTab(tab) => self,
            MainMenuItem::VideoList(_) => MainMenuItem::VideoList(None),
        }
    }

    /// A widget of the same kind that has loaded nothing.
    pub fn blank(&self) -> (item: MainMenuItem)
        ensures
            item == self.fresh(),
    {
        match self {
            MainMenuItem::SeletorTab(tab) => MainMenuItem::SeletorTab(*tab),
            MainMenuItem::VideoList(_) => MainMenuItem::VideoList(None),
        }
    }

    /// What the widget asks of the content service on `page`: the list of
    /// a main menu asks for the videos of the open tab, a tab for nothing.
    pub open spec fn request(self, page: Page) -> Option<Fetch> {
        match self {
            MainMenuItem::VideoList(_) => match page {
                Page::MainMenu(MainMenuSelector::Trending) => Some(Fetch::Trending),
                Page::MainMenu(MainMenuSelector::Popular) => Some(Fetch::Popular),
                Page::MainMenu(MainMenuSelector::History) => Some(Fetch::History),
                _ => None,
            },
            MainMenuItem::SeletorTab(_) => None,
        }
    }

    /// Says what the widget asks of the content service on `page`.
    pub fn load_request(&self, page: &Page) -> (fetch: Option<Fetch>)
        ensures
            fetch == self.request(*page),
    {
        match self {
            MainMenuItem::VideoList(_) => match page {
                Page::MainMenu(MainMenuSelector::Trending) => Some(Fetch::Trending),
                Page::MainMenu(MainMenuSelector::Popular) => Some(Fetch::Popular),
                Page::MainMenu(MainMenuSelector::History) => Some(Fetch::History),
                _ => None,
            },
            MainMenuItem::SeletorTab(_) => None,
        }
    }

    /// Whether the widget shows `fetched`, and nothing else: the videos
    /// with a new list of their titles.
    pub open spec fn shows(self, fetched: Fetched) -> bool {
        match fetched {
            Fetched::Videos(videos) => self matches MainMenuItem::VideoList(Some((held, list)))
                && held == videos && list.lists(video_titles(videos@)),
            _ => false,
        }
    }

    /// The thumbnails that belong to what the widget shows: those of the
    /// videos.
    pub open spec fn pictures(self) -> Seq<Thumbnail> {
        match self {
            MainMenuItem::VideoList(Some((videos, _))) => video_thumbnails(videos@),
            _ => Seq::empty(),
        }
    }

    /// Takes the answer of the content service to what the widget asked on
    /// `page`. A refused answer leaves the widget as it was and gives the
    /// error. Otherwise the widget shows the answer, and the thumbnails
    /// that are to be fetched for it are returned.
    pub fn load_item(&mut self, page: &Page, response: Result<Fetched, String>) -> (outcome: Result<
        Vec<Thumbnail>,
        LoadError,
    >)
        ensures
            load_outcome(old(self).request(*page), response, *old(self), *final(self), outcome),
            old(self).request(*page).is_some() && outcome.is_ok() ==> final(self).shows(
                response.unwrap(),
            ) && outcome.unwrap()@ == final(self).pictures(),
    {
        if self.load_request(page).is_none() {
            return Ok(Vec::new());
        }
        match response {
            Err(text) => Err(LoadError::Service(text)),
            Ok(Fetched::Videos(videos)) => {
                let list = TextList::of_videos(&videos);
                let thumbnails = thumbnails_of_videos(&videos);
                *self = MainMenuItem::VideoList(Some((videos, list)));
                Ok(thumbnails)
            },
            Ok(_) => Err(LoadError::Mismatch),
        }
    }

    /// Whether the tab `tab` is the open tab of `page`.
    pub open spec fn is_open(tab: MainMenuSelector, page: Page) -> bool {
        page == Page::MainMenu(tab)
    }

    /// What the widget draws into `rect`. A tab draws its caption. The list
    /// draws the border round its two panes, the left one 40 percent wide,
    /// and, once it has videos, the list in the left pane.
    pub open spec fn drawn(
        self,
        rect: Rect,
        selected: bool,
        hover: bool,
        page: Page,
    ) -> Seq<Shape> {
        match self {
            MainMenuItem::SeletorTab(tab) => tab_shapes(
                rect,
                Label::MainMenu(tab),
                MainMenuItem::is_open(tab, page),
                selected,
                hover,
            ),
            MainMenuItem::VideoList(Some((videos, list))) => listing_shapes(
                list,
                videos@.len(),
                rect,
                40,
                false,
                selected,
                hover,
                false,
            ),
            MainMenuItem::VideoList(None) => seq![
                Shape::Panes { area: rect, color: Color::frame(selected, hover), left: 40 },
            ],
        }
    }

    /// The widget after it was drawn into `rect`: the list has moved its
    /// window.
    pub open spec fn after_draw(self, rect: Rect) -> MainMenuItem {
        match self {
            MainMenuItem::VideoList(Some((videos, list))) => MainMenuItem::VideoList(
                Some((videos, listing_after(list, rect, 40))),
            ),
            _ => self,
        }
    }

    /// Draws the widget into `rect`: adds its shapes to `shapes`.
    pub fn render_item(
        &mut self,
        rect: Rect,
        selected: bool,
        hover: bool,
        page: &Page,
        shapes: &mut Vec<Shape>,
    )
        ensures
            *final(self) == old(self).after_draw(rect),
            final(shapes)@ == old(shapes)@ + old(self).drawn(rect, selected, hover, *page),
    {
        match self {
            MainMenuItem::SeletorTab(tab) => {
                let open = match page {
                    Page::MainMenu(open) => *open == *tab,
                    _ => false,
                };
                draw_tab(rect, Label::MainMenu(*tab), open, selected, hover, shapes)
            },
            MainMenuItem::VideoList(Some((videos, list))) => draw_listing(
                list,
                videos.len(),
                rect,
                40,
                false,
                selected,
                hover,
                false,
                shapes,
            ),
            MainMenuItem::VideoList(None) => {
                let ghost before = shapes@;
                shapes.push(
                    Shape::Panes { area: rect, color: Color::border(selected, hover), left: 40 },
                );
                assert(shapes@ =~= before + old(self).drawn(rect, selected, hover, *page));
            },
        }
    }
}

impl MainMenu {
    /// The built-in grid of the page: the search row, the three tabs, the
    /// list of videos, the message bar.
    pub open spec fn grid() -> Seq<RowView> {
        seq![
            search_row(),
            tab_row(
                Item::MainMenu(MainMenuItem::SeletorTab(MainMenuSelector::Trending)),
                Item::MainMenu(MainMenuItem::SeletorTab(MainMenuSelector::Popular)),
                Item::MainMenu(MainMenuItem::SeletorTab(MainMenuSelector::History)),
            ),
            wide_row(Item::MainMenu(MainMenuItem::VideoList(None))),
            message_row(),
        ]
    }

    /// What is shown while the page loads.
    pub fn message() -> (text: String)
        ensures
            text@ == "Loading main menu..."@,
    {
        "Loading main menu...".to_string()
    }

    /// The smallest window, width and height, in which the page is drawn.
    pub fn min() -> (least: (u16, u16))
        ensures
            least == (45u16, 15u16),
    {
        (45, 15)
    }

    /// Builds the built-in grid of the page.
    pub fn default() -> (rows: Vec<Row>)
        ensures
            rows_view(rows@) == MainMenu::grid(),
    {
        let mut rows: Vec<Row> = Vec::new();
        rows.push(top_row());
        rows.push(
            tabs_row(
                Item::MainMenu(MainMenuItem::SeletorTab(MainMenuSelector::Trending)),
                Item::MainMenu(MainMenuItem::SeletorTab(MainMenuSelector::Popular)),
                Item::MainMenu(MainMenuItem::SeletorTab(MainMenuSelector::History)),
            ),
        );
        rows.push(filling_row(Item::MainMenu(MainMenuItem::VideoList(None))));
        rows.push(bottom_row());
        assert(rows_view(rows@) =~= MainMenu::grid());
        rows
    }
}

} // verus!
