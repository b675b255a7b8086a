//! The page that lists what a search found.

use crate::items::{LoadError, MiniVideo, SearchSettings};
use crate::keys::KeyCode;
use crate::layout::Rect;
use crate::loader::{
    load_outcome, thumbnails_of_videos, video_thumbnails, Fetch, Fetched, Thumbnail,
};
use crate::page::Page;
use crate::pages::global::{bottom_row, filling_row, message_row, search_row, top_row, wide_row};
use crate::session::AppNoState;
use crate::shape::{
    display_shapes, draw_display, draw_listing, listing_after, listing_shapes, Shape,
};
use crate::states::{rows_view, Item, Row, RowView, Selection};
use crate::text_list::{open_video, video_target, video_titles, TextList};
use vstd::prelude::*;

verus! {

/// The widget that lists the results.
#[derive(Clone, Debug, PartialEq, Eq)]
pub enum SearchItem {
    Unknown,
    Videos(Vec<MiniVideo>, TextList),
}

/// The page itself.
pub struct Search;

impl SearchItem {
    /// The list of results can take focus whatever it holds.
    pub open spec fn can_focus(self) -> bool {
        true
    }

    /// Says whether the cursor can rest on the widget.
    pub fn selectable(&self) -> (focus: bool)
        ensures
            focus == self.can_focus(),
    {
        true
    }

    /// The list takes the keys.
    pub open spec fn selection(self) -> Selection {
        Selection::Enter
    }

    /// What the widget answers when it is selected.
    pub fn select(&self, app: &AppNoState) -> (answer: Selection)
        ensures
            answer == self.selection(),
    {
        Selection::Enter
    }

    /// Enter on the list opens the page of the picked video.
    pub open spec fn key_target(self, key: KeyCode) -> Option<Page> {
        match self {
            SearchItem::Videos(videos, list) => video_target(videos@, list, key),
            _ => None,
        }
    }

    /// The list moves its pick; nothing else changes.
    pub open spec fn after_key(self, key: KeyCode) -> SearchItem {
        match self {
            SearchItem::Videos(videos, list) => SearchItem::Videos(videos, list.after_key(key)),
            _ => self,
        }
    }

    /// Handles a key while the widget is selected. Where a page is
    /// returned, the session is to move on to it; the widget is then as it
    /// was.
    pub fn key_input(&mut self, key: KeyCode, app: &mut AppNoState) -> (target: Option<Page>)
        ensures
            target == old(self).key_target(key),
            *final(self) == old(self).after_key(key),
            *final(app) == *old(app),
            target.is_some() ==> *final(self) == *old(self),
    {
        match self {
            SearchItem::Videos(videos, list) => {
                let target = open_video(videos, list, key);
                list.key_input(key);
                target
            },
            _ => None,
        }
    }

    /// What the widget asks of the content service: on the search page, a
    /// search for the search text with the session's settings and page
    /// number.
    pub open spec fn request(
        self,
        page: Page,
        query: String,
        settings: SearchSettings,
        page_no: usize,
    ) -> Option<Fetch> {
        match page {
            Page::Search => Some(Fetch::Search { query, settings, page_no }),
            _ => None,
        }
    }

    /// Says what the widget asks of the content service.
    pub fn load_request(
        &self,
        page: &Page,
        query: &String,
        settings: SearchSettings,
        page_no: usize,
    ) -> (fetch: Option<Fetch>)
        ensures
            fetch == self.request(*page, *query, settings, page_no),
    {
        match page {
            Page::Search => Some(Fetch::Search { query: query.clone(), settings, page_no }),
            _ => None,
        }
    }

    /// Whether the widget shows `fetched`, and nothing else: the videos
    /// with a new list of their titles.
    pub open spec fn shows(self, fetched: Fetched) -> bool {
        match fetched {
            Fetched::Videos(videos) => self matches SearchItem::Videos(held, list) && held
                == videos && list.lists(video_titles(videos@)),
            _ => false,
        }
    }

    /// The thumbnails that belong to what the widget shows: those of the
    /// videos.
    pub open spec fn pictures(self) -> Seq<Thumbnail> {
        match self {
            SearchItem::Videos(videos, _) => video_thumbnails(videos@),
            _ => Seq::empty(),
        }
    }

    /// Takes the answer of the content service to what the widget asked. A
    /// refused answer leaves the widget as it was and gives the error.
    /// Otherwise the widget shows the answer, and the thumbnails that are
    /// to be fetched for it are returned.
    pub fn load_item(&mut self, app: &AppNoState, response: Result<Fetched, String>) -> (outcome:
        Result<Vec<Thumbnail>, LoadError>)
        ensures
            load_outcome(
                old(self).request(app.page, app.search_text, app.search_settings, app.page_no),
                response,
                *old(self),
                *final(self),
                outcome,
            ),
            old(self).request(
                app.page,
                app.search_text,
                app.search_settings,
                app.page_no,
            ).is_some() && outcome.is_ok() ==> final(self).shows(
                response.unwrap(),
            ) && outcome.unwrap()@ == final(self).pictures(),
    {
        if self.load_request(
            &app.page,
            &app.search_text,
            app.search_settings,
            app.page_no,
        ).is_none() {
            return Ok(Vec::new());
        }
        match response {
            Err(text) => Err(LoadError::Service(text)),
            Ok(Fetched::Videos(videos)) => {
                let list = TextList::of_videos(&videos);
                let thumbnails = thumbnails_of_videos(&videos);
                *self = SearchItem::Videos(videos, list);
                Ok(thumbnails)
            },
            Ok(_) => Err(LoadError::Mismatch),
        }
    }

    /// What the widget draws into `rect`: its border; or, once it has
    /// results, their list in the left 60 percent and the details of the
    /// picked one beside it.
    pub open spec fn drawn(
        self,
        rect: Rect,
        selected: bool,
        hover: bool,
        popup_focus: bool,
    ) -> Seq<Shape> {
        match self {
            SearchItem::Unknown => display_shapes(rect, false, selected, hover),
            SearchItem::Videos(videos, list) => listing_shapes(
                list,
                videos@.len(),
                rect,
                60,
                true,
                selected,
                hover,
                popup_focus,
            ),
        }
    }

    /// The widget after it was drawn into `rect`: the list has moved its
    /// window.
    pub open spec fn after_draw(self, rect: Rect) -> SearchItem {
        match self {
            SearchItem::Videos(videos, list) => SearchItem::Videos(
                videos,
                listing_after(list, rect, 60),
            ),
            _ => self,
        }
    }

    /// Draws the widget into `rect`: adds its shapes to `shapes`.
    pub fn render_item(
        &mut self,
        rect: Rect,
        selected: bool,
        hover: bool,
        popup_focus: bool,
        shapes: &mut Vec<Shape>,
    )
        ensures
            *final(self) == old(self).after_draw(rect),
            final(shapes)@ == old(shapes)@ + old(self).drawn(rect, selected, hover, popup_focus),
    {
        match self {
            SearchItem::Unknown => draw_display(rect, false, selected, hover, shapes),
            SearchItem::Videos(videos, list) => draw_listing(
                list,
                videos.len(),
                rect,
                60,
                true,
                selected,
                hover,
                popup_focus,
                shapes,
            ),
        }
    }
}

impl Search {
    /// The built-in grid of the page: the search row, the list of results,
    /// the message bar.
    pub open spec fn grid() -> Seq<RowView> {
        seq![search_row(), wide_row(Item::Search(SearchItem::Unknown)), message_row()]
    }

    /// What is shown while the page loads.
    pub fn message() -> (text: String)
        ensures
            text@ == "Loading search results..."@,
    {
        "Loading search results...".to_string()
    }

    /// The smallest window, width and height, in which the page is drawn.
    pub fn min() -> (least: (u16, u16))
        ensures
            least == (45u16, 12u16),
    {
        (45, 12)
    }

    /// Builds the built-in grid of the page.
    pub fn default() -> (rows: Vec<Row>)
        ensures
            rows_view(rows@) == Search::grid(),
    {
        let mut rows: Vec<Row> = Vec::new();
        rows.push(top_row());
        rows.push(filling_row(Item::Search(SearchItem::Unknown)));
        rows.push(bottom_row());
        assert(rows_view(rows@) =~= Search::grid());
        rows
    }
}

} // verus!
