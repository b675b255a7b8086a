//! The page that shows one video or one playlist.

use crate::config::MainConfig;
use crate::items::{FullPlayList, FullVideo, LoadError};
use crate::keys::KeyCode;
use crate::layout::Rect;
use crate::loader::{
    full_playlist_thumbnails, full_video_thumbnails, load_outcome, load_playlist, load_video, Fetch,
    Fetched, Thumbnail,
};
use crate::page::Page;
use crate::pages::global::{bottom_row, filling_row, message_row, search_row, top_row, wide_row};
use crate::session::AppNoState;
use crate::shape::{
    display_shapes, draw_display, draw_listing, listing_after, listing_shapes, Shape,
};
use crate::states::{rows_view, Item, Row, RowView, Selection};
use crate::text_list::{open_video, video_target, video_titles, TextList};
use vstd::prelude::*;

verus! {

/// Which item the page shows.
#[derive(Clone, Debug, PartialEq, Eq)]
pub enum DisplayItem {
    Video(String),
    PlayList(String),
}

/// The widget of the page.
#[derive(Clone, Debug, PartialEq, Eq)]
pub enum ItemInfoItem {
    Unknown,
    Video(FullVideo),
    PlayList(FullPlayList, TextList),
}

/// The page itself.
pub struct ItemInfo;

impl ItemInfoItem {
    /// The display can take focus whatever it holds.
    pub open spec fn can_focus(self) -> bool {
        true
    }

    /// Says whether the cursor can rest on the widget.
    pub fn selectable(&self) -> (focus: bool)
        ensures
            focus == self.can_focus(),
    {
        true
    }

    /// The display takes the keys.
    pub open spec fn selection(self) -> Selection {
        Selection::Enter
    }

    /// What the widget answers when it is selected.
    pub fn select(&self, app: &AppNoState) -> (answer: Selection)
        ensures
            answer == self.selection(),
    {
        Selection::Enter
    }

    /// Enter on the videos of a playlist opens the page of the picked video.
    pub open spec fn key_target(self, key: KeyCode) -> Option<Page> {
        match self {
            ItemInfoItem::PlayList(playlist, list) => video_target(playlist.videos@, list, key),
            _ => None,
        }
    }

    /// The list of a playlist moves its pick; nothing else changes.
    pub open spec fn after_key(self, key: KeyCode) -> ItemInfoItem {
        match self {
            ItemInfoItem::PlayList(playlist, list) => ItemInfoItem::PlayList(
                playlist,
                list.after_key(key),
            ),
            _ => self,
        }
    }

    /// Handles a key while the widget is selected. Where a page is
    /// returned, the session is to move on to it; the widget is then as it
    /// was.
    pub fn key_input(&mut self, key: KeyCode, app: &mut AppNoState) -> (target: Option<Page>)
        ensures
            target == old(self).key_target(key),
            *final(self) == old(self).after_key(key),
            *final(app) == *old(app),
            target.is_some() ==> *final(self) == *old(self),
    {
        match self {
            ItemInfoItem::PlayList(playlist, list) => {
                let target = open_video(&playlist.videos, list, key);
                list.key_input(key);
                target
            },
            _ => None,
        }
    }

    /// What the widget asks of the content service on `page`: the video or
    /// the playlist that the page shows.
    pub open spec fn request(self, page: Page) -> Option<Fetch> {
        match page {
            Page::ItemDisplay(DisplayItem::Video(id)) => Some(Fetch::Video(id)),
            Page::ItemDisplay(DisplayItem::PlayList(id)) => Some(Fetch::PlayList(id)),
            _ => None,
        }
    }

    /// Says what the widget asks of the content service on `page`.
    pub fn load_request(&self, page: &Page) -> (fetch: Option<Fetch>)
        ensures
            fetch == self.request(*page),
    {
        match page {
            Page::ItemDisplay(DisplayItem::Video(id)) => Some(Fetch::Video(id.clone())),
            Page::ItemDisplay(DisplayItem::PlayList(id)) => Some(Fetch::PlayList(id.clone())),
            _ => None,
        }
    }

    /// Whether the widget shows `fetched`, and nothing else: the video, or
    /// the playlist with a new list of the titles of its videos.
    pub open spec fn shows(self, fetched: Fetched) -> bool {
        match fetched {
            Fetched::Video(video) => self == ItemInfoItem::Video(video),
            Fetched::PlayList(playlist) => self matches ItemInfoItem::PlayList(held, list) && held
                == playlist && list.lists(video_titles(playlist.videos@)),
            _ => false,
        }
    }

    /// The thumbnails that belong to what the widget shows, where
    /// thumbnails are shown: that of the video in the size that the
    /// configuration picks, or those of the playlist and its videos.
    pub open spec fn pictures(self, main: MainConfig) -> Seq<Thumbnail> {
        if main.images.shown() {
            match self {
                ItemInfoItem::Video(video) => full_video_thumbnails(video, main.image_index),
                ItemInfoItem::PlayList(playlist, _) => full_playlist_thumbnails(playlist),
                ItemInfoItem::Unknown => Seq::empty(),
            }
        } else {
            Seq::empty()
        }
    }

    /// Takes the answer of the content service to what the widget asked on
    /// `page`. A refused answer leaves the widget as it was and gives the
    /// error. Otherwise the widget shows the answer, and the thumbnails
    /// that are to be fetched for it are returned.
    pub fn load_item(
        &mut self,
        page: &Page,
        response: Result<Fetched, String>,
        mainconfig: &MainConfig,
    ) -> (outcome: Result<Vec<Thumbnail>, LoadError>)
        ensures
            load_outcome(old(self).request(*page), response, *old(self), *final(self), outcome),
            old(self).request(*page).is_some() && outcome.is_ok() ==> final(self).shows(
                response.unwrap(),
            ) && outcome.unwrap()@ == final(self).pictures(*mainconfig),
    {
        match page {
            Page::ItemDisplay(DisplayItem::Video(_)) => {
                match load_video(response, mainconfig) {
                    Ok((video, thumbnails)) => {
                        *self = ItemInfoItem::Video(video);
                        Ok(thumbnails)
                    },
                    Err(error) => Err(error),
                }
            },
            Page::ItemDisplay(DisplayItem::PlayList(_)) => {
                match load_playlist(response, mainconfig) {
                    Ok((playlist, thumbnails)) => {
                        let list = TextList::of_videos(&playlist.videos);
                        *self = ItemInfoItem::PlayList(playlist, list);
                        Ok(thumbnails)
                    },
                    Err(error) => Err(error),
                }
            },
            _ => Ok(Vec::new()),
        }
    }

    /// What the widget draws into `rect`: its border, and inside it the
    /// video; or, of a playlist, the list of its videos in the left 60
    /// percent and the details of the picked video beside it.
    pub open spec fn drawn(
        self,
        rect: Rect,
        selected: bool,
        hover: bool,
        popup_focus: bool,
    ) -> Seq<Shape> {
        match self {
            ItemInfoItem::Unknown => display_shapes(rect, false, selected, hover),
            ItemInfoItem::Video(_) => display_shapes(rect, true, selected, hover),
            ItemInfoItem::PlayList(playlist, list) => listing_shapes(
                list,
                playlist.videos@.len(),
                rect,
                60,
                true,
                selected,
                hover,
                popup_focus,
            ),
        }
    }

    /// The widget after it was drawn into `rect`: a list has moved its
    /// window.
    pub open spec fn after_draw(self, rect: Rect) -> ItemInfoItem {
        match self {
            ItemInfoItem::PlayList(playlist, list) => ItemInfoItem::PlayList(
                playlist,
                listing_after(list, rect, 60),
            ),
            _ => self,
        }
    }

    /// Draws the widget into `rect`: adds its shapes to `shapes`.
    pub fn render_item(
        &mut self,
        rect: Rect,
        selected: bool,
        hover: bool,
        popup_focus: bool,
        shapes: &mut Vec<Shape>,
    )
        ensures
            *final(self) == old(self).after_draw(rect),
            final(shapes)@ == old(shapes)@ + old(self).drawn(rect, selected, hover, popup_focus),
    {
        match self {
            ItemInfoItem::Unknown => draw_display(rect, false, selected, hover, shapes),
            ItemInfoItem::Video(_) => draw_display(rect, true, selected, hover, shapes),
            ItemInfoItem::PlayList(playlist, list) => draw_listing(
                list,
                playlist.videos.len(),
                rect,
                60,
                true,
                selected,
                hover,
                popup_focus,
                shapes,
            ),
        }
    }
}

impl ItemInfo {
    /// The built-in grid of the page: the search row, the display, the
    /// message bar.
    pub open spec fn grid() -> Seq<RowView> {
        seq![search_row(), wide_row(Item::ItemInfo(ItemInfoItem::Unknown)), message_row()]
    }

    /// What is shown while the page loads.
    pub fn message() -> (text: String)
        ensures
            text@ == "Loading item details..."@,
    {
        "Loading item details...".to_string()
    }

    /// The smallest window, width and height, in which the page is drawn.
    pub fn min() -> (least: (u16, u16))
        ensures
            least == (45u16, 12u16),
    {
        (45, 12)
    }

    /// Builds the built-in grid of the page.
    pub fn default() -> (rows: Vec<Row>)
        ensures
            rows_view(rows@) == ItemInfo::grid(),
    {
        let mut rows: Vec<Row> = Vec::new();
        rows.push(top_row());
        rows.push(filling_row(Item::ItemInfo(ItemInfoItem::Unknown)));
        rows.push(bottom_row());
        assert(rows_view(rows@) =~= ItemInfo::grid());
        rows
    }
}

} // verus!
