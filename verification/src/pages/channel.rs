//! The channel page: its tabs and the display of what the open tab holds.

use crate::items::{FullChannel, LoadError, MiniPlayList, MiniVideo};
use crate::keys::KeyCode;
use crate::layout::Rect;
use crate::loader::{
    load_outcome, playlist_thumbnails, thumbnails_of_playlists, thumbnails_of_videos,
    video_thumbnails, Fetch, Fetched, Thumbnail,
};
use crate::page::Page;
use crate::pages::global::{
    bottom_row, filling_row, message_row, search_row, tab_row, tabs_row, top_row, wide_row,
};
use crate::session::AppNoState;
use crate::shape::{
    display_shapes, draw_display, draw_listing, draw_tab, listing_after, listing_shapes, tab_shapes,
    Label, Shape,
};
use crate::states::{rows_view, Item, Row, RowView, Selection};
use crate::text_list::{
    open_playlist, open_video, playlist_target, playlist_titles, video_target, video_titles,
    TextList,
};
use vstd::prelude::*;

verus! {

/// The tabs of a channel.
#[derive(Clone, Copy, Debug, PartialEq, Eq, Structural)]
pub enum ChannelPage {
    Home,
    Playlists,
    Videos,
}

/// A widget of the channel page.
#[derive(Clone, Debug, PartialEq, Eq)]
pub enum ChannelItem {
    InfoDisplay(ChannelDisplayItem),
    SelectItems(ChannelPage),
}

/// What the display of a channel holds.
#[derive(Clone, Debug, PartialEq, Eq)]
pub enum ChannelDisplayItem {
    Playlists(Vec<MiniPlayList>, TextList),
    Videos(Vec<MiniVideo>, TextList),
    Home(FullChannel),
    Unknown,
}

/// The channel page itself.
pub struct Channel;

impl ChannelItem {
    /// Every widget of the channel page can take focus.
    pub open spec fn can_focus(self) -> bool {
        true
    }

    /// Says whether the cursor can rest on the widget.
    pub fn selectable(&self) -> (focus: bool)
        ensures
            focus == self.can_focus(),
    {
        true
    }

    /// The display takes the keys. A tab opens itself, unless it is the open
    /// tab or the page is not a channel.
    pub open spec fn selection(self, page: Page) -> Selection {
        match self {
            ChannelItem::InfoDisplay(_) => Selection::Enter,
            ChannelItem::SelectItems(tab) => match page {
                Page::Channel(open, id) => if tab == open {
                    Selection::Stay
                } else {
                    Selection::Open(Page::Channel(tab, id))
                },
                _ => Selection::Stay,
            },
        }
    }

    /// What the widget answers when it is selected.
    pub fn select(&self, app: &AppNoState) -> (answer: Selection)
        ensures
            answer == self.selection(app.page),
    {
        match self {
            ChannelItem::InfoDisplay(_) => Selection::Enter,
            ChannelItem::SelectItems(tab) => match &app.page {
                Page::Channel(open, id) => {
                    if *tab == *open {
                        Selection::Stay
                    } else {
                        Selection::Open(Page::Channel(*tab, id.clone()))
                    }
                },
                _ => Selection::Stay,
            },
        }
    }

    /// Enter on a list opens the page of the picked entry.
    pub open spec fn key_target(self, key: KeyCode) -> Option<Page> {
        match self {
            ChannelItem::InfoDisplay(ChannelDisplayItem::Videos(videos, list)) => video_target(
                videos@,
                list,
                key,
            ),
            ChannelItem::InfoDisplay(ChannelDisplayItem::Playlists(playlists, list)) =>
                playlist_target(playlists@, list, key),
            _ => None,
        }
    }

    /// A list moves its pick; nothing else changes.
    pub open spec fn after_key(self, key: KeyCode) -> ChannelItem {
        match self {
            ChannelItem::InfoDisplay(ChannelDisplayItem::Videos(videos, list)) =>
                ChannelItem::InfoDisplay(ChannelDisplayItem::Videos(videos, list.after_key(key))),
            ChannelItem::InfoDisplay(ChannelDisplayItem::Playlists(playlists, list)) =>
                ChannelItem::InfoDisplay(
                    ChannelDisplayItem::Playlists(playlists, list.after_key(key)),
                ),
            _ => self,
        }
    }

    /// Handles a key while the widget is selected. Where a page is
    /// returned, the session is to move on to it; the widget is then as it
    /// was.
    pub fn key_input(&mut self, key: KeyCode, app: &mut AppNoState) -> (target: Option<Page>)
        ensures
            target == old(self).key_target(key),
            *final(self) == old(self).after_key(key),
            *final(app) == *old(app),
            target.is_some() ==> *final(self) == *old(self),
    {
        match self {
            ChannelItem::InfoDisplay(ChannelDisplayItem::Videos(videos, list)) => {
                let target = open_video(videos, list, key);
                list.key_input(key);
                target
            },
            ChannelItem::InfoDisplay(ChannelDisplayItem::Playlists(playlists, list)) => {
                let target = open_playlist(playlists, list, key);
                list.key_input(key);
                target
            },
            _ => None,
        }
    }

    /// The display without what it has loaded; a tab as it is.
    pub open spec fn fresh(self) -> ChannelItem {
        match self {
            ChannelItem::InfoDisplay(_) => ChannelItem::InfoDisplay(ChannelDisplayItem::Unknown),
            ChannelItem::SelectItems(tab) => self,
        }
    }

    /// A widget of the same kind that has loaded nothing.
    pub fn blank(&self) -> (item: ChannelItem)
        ensures
            item == self.fresh(),
    {
        match self {
            ChannelItem::InfoDisplay(_) => ChannelItem::InfoDisplay(ChannelDisplayItem::Unknown),
            ChannelItem::SelectItems(tab) => ChannelItem::SelectItems(*tab),
        }
    }

    /// What the widget asks of the content service on `page`: the display
    /// of a channel page asks for what the open tab shows, a tab for
    /// nothing.
    pub open spec fn request(self, page: Page) -> Option<Fetch> {
        match self {
            ChannelItem::InfoDisplay(_) => match page {
                Page::Channel(ChannelPage::Home, id) => Some(Fetch::Channel(id)),
                Page::Channel(ChannelPage::Playlists, id) => Some(Fetch::ChannelPlaylists(id)),
                Page::Channel(ChannelPage::Videos, id) => Some(Fetch::ChannelVideos(id)),
                _ => None,
            },
            ChannelItem::SelectItems(_) => None,
        }
    }

    /// Says what the widget asks of the content service on `page`.
    pub fn load_request(&self, page: &Page) -> (fetch: Option<Fetch>)
        ensures
            fetch == self.request(*page),
    {
        match self {
            ChannelItem::InfoDisplay(_) => match page {
                Page::Channel(ChannelPage::Home, id) => Some(Fetch::Channel(id.clone())),
                Page::Channel(ChannelPage::Playlists, id) => Some(
                    Fetch::ChannelPlaylists(id.clone()),
                ),
                Page::Channel(ChannelPage::Videos, id) => Some(Fetch::ChannelVideos(id.clone())),
                _ => None,
            },
            ChannelItem::SelectItems(_) => None,
        }
    }

    /// Whether the widget shows `fetched`, and nothing else: the channel,
    /// or the playlists or videos with a new list of their titles.
    pub open spec fn shows(self, fetched: Fetched) -> bool {
        match fetched {
            Fetched::Channel(channel) => self == ChannelItem::InfoDisplay(
                ChannelDisplayItem::Home(channel),
            ),
            Fetched::Playlists(playlists) => self matches ChannelItem::InfoDisplay(
                ChannelDisplayItem::Playlists(held, list),
            ) && held == playlists && list.lists(playlist_titles(playlists@)),
            Fetched::Videos(videos) => self matches ChannelItem::InfoDisplay(
                ChannelDisplayItem::Videos(held, list),
            ) && held == videos && list.lists(video_titles(videos@)),
            _ => false,
        }
    }

    /// The thumbnails that belong to what the widget shows: that of the
    /// channel, or those of the playlists that have one, or those of the
    /// videos.
    pub open spec fn pictures(self) -> Seq<Thumbnail> {
        match self {
            ChannelItem::InfoDisplay(ChannelDisplayItem::Home(channel)) => seq![
                Thumbnail { url: channel.thumbnail, id: channel.author_id },
            ],
            ChannelItem::InfoDisplay(ChannelDisplayItem::Playlists(playlists, _)) =>
                playlist_thumbnails(playlists@),
            ChannelItem::InfoDisplay(ChannelDisplayItem::Videos(videos, _)) => video_thumbnails(
                videos@,
            ),
            _ => Seq::empty(),
        }
    }

    /// Lists the thumbnails that belong to what the widget shows.
    pub fn thumbnails(&self) -> (list: Vec<Thumbnail>)
        ensures
            list@ == self.pictures(),
    {
        match self {
            ChannelItem::InfoDisplay(ChannelDisplayItem::Home(channel)) => {
                let mut list: Vec<Thumbnail> = Vec::new();
                list.push(
                    Thumbnail { url: channel.thumbnail.clone(), id: channel.author_id.clone() },
                );
                assert(list@ =~= self.pictures());
                list
            },
            ChannelItem::InfoDisplay(ChannelDisplayItem::Playlists(playlists, _)) =>
                thumbnails_of_playlists(playlists),
            ChannelItem::InfoDisplay(ChannelDisplayItem::Videos(videos, _)) => thumbnails_of_videos(
                videos,
            ),
            _ => Vec::new(),
        }
    }

    /// Takes the answer of the content service to what the widget asked on
    /// `page`. A refused answer leaves the widget as it was and gives the
    /// error. Otherwise the widget shows the answer, and the thumbnails
    /// that are to be fetched for it are returned.
    pub fn load_item(&mut self, page: &Page, response: Result<Fetched, String>) -> (outcome: Result<
        Vec<Thumbnail>,
        LoadError,
    >)
        ensures
            load_outcome(old(self).request(*page), response, *old(self), *final(self), outcome),
            old(self).request(*page).is_some() && outcome.is_ok() ==> final(self).shows(
                response.unwrap(),
            ) && outcome.unwrap()@ == final(self).pictures(),
    {
        if self.load_request(page).is_none() {
            return Ok(Vec::new());
        }
        let fetched = match response {
            Err(text) => {
                return Err(LoadError::Service(text));
            },
            Ok(fetched) => fetched,
        };
        match (page, fetched) {
            (Page::Channel(ChannelPage::Home, _), Fetched::Channel(channel)) => {
                *self = ChannelItem::InfoDisplay(ChannelDisplayItem::Home(channel));
            },
            (Page::Channel(ChannelPage::Playlists, _), Fetched::Playlists(playlists)) => {
                let list = TextList::of_playlists(&playlists);
                *self = ChannelItem::InfoDisplay(ChannelDisplayItem::Playlists(playlists, list));
            },
            (Page::Channel(ChannelPage::Videos, _), Fetched::Videos(videos)) => {
                let list = TextList::of_videos(&videos);
                *self = ChannelItem::InfoDisplay(ChannelDisplayItem::Videos(videos, list));
            },
            _ => {
                return Err(LoadError::Mismatch);
            },
        }
        Ok(self.thumbnails())
    }

    /// Whether the tab `tab` is the open tab of `page`.
    pub open spec fn is_open(tab: ChannelPage, page: Page) -> bool {
        page matches Page::Channel(open, _) && open == tab
    }

    /// What the widget draws into `rect`. The display of a list draws the
    /// list in the left 60 percent and the details of the picked entry
    /// beside it; the other displays draw their border, and the channel
    /// inside it; a tab draws its caption.
    pub open spec fn drawn(
        self,
        rect: Rect,
        selected: bool,
        hover: bool,
        popup_focus: bool,
        page: Page,
    ) -> Seq<Shape> {
        match self {
            ChannelItem::InfoDisplay(ChannelDisplayItem::Unknown) => display_shapes(
                rect,
                false,
                selected,
                hover,
            ),
            ChannelItem::InfoDisplay(ChannelDisplayItem::Home(_)) => display_shapes(
                rect,
                true,
                selected,
                hover,
            ),
            ChannelItem::InfoDisplay(ChannelDisplayItem::Videos(videos, list)) => listing_shapes(
                list,
                videos@.len(),
                rect,
                60,
                true,
                selected,
                hover,
                popup_focus,
            ),
            ChannelItem::InfoDisplay(ChannelDisplayItem::Playlists(playlists, list)) =>
                listing_shapes(
                list,
                playlists@.len(),
                rect,
                60,
                true,
                selected,
                hover,
                popup_focus,
            ),
            ChannelItem::SelectItems(tab) => tab_shapes(
                rect,
                Label::Channel(tab),
                ChannelItem::is_open(tab, page),
                selected,
                hover,
            ),
        }
    }

    /// The widget after it was drawn into `rect`: a list has moved its
    /// window.
    pub open spec fn after_draw(self, rect: Rect) -> ChannelItem {
        match self {
            ChannelItem::InfoDisplay(ChannelDisplayItem::Videos(videos, list)) =>
                ChannelItem::InfoDisplay(
                ChannelDisplayItem::Videos(videos, listing_after(list, rect, 60)),
            ),
            ChannelItem::InfoDisplay(ChannelDisplayItem::Playlists(playlists, list)) =>
                ChannelItem::InfoDisplay(
                ChannelDisplayItem::Playlists(playlists, listing_after(list, rect, 60)),
            ),
            _ => self,
        }
    }

    /// Draws the widget into `rect`: adds its shapes to `shapes`.
    pub fn render_item(
        &mut self,
        rect: Rect,
        selected: bool,
        hover: bool,
        popup_focus: bool,
        page: &Page,
        shapes: &mut Vec<Shape>,
    )
        ensures
            *final(self) == old(self).after_draw(rect),
            final(shapes)@ == old(shapes)@ + old(self).drawn(
                rect,
                selected,
                hover,
                popup_focus,
                *page,
            ),
    {
        match self {
            ChannelItem::InfoDisplay(displayitem) => match displayitem {
                ChannelDisplayItem::Unknown => draw_display(rect, false, selected, hover, shapes),
                ChannelDisplayItem::Home(_) => draw_display(rect, true, selected, hover, shapes),
                ChannelDisplayItem::Videos(videos, list) => draw_listing(
                    list,
                    videos.len(),
                    rect,
                    60,
                    true,
                    selected,
                    hover,
                    popup_focus,
                    shapes,
                ),
                ChannelDisplayItem::Playlists(playlists, list) => draw_listing(
                    list,
                    playlists.len(),
                    rect,
                    60,
                    true,
                    selected,
                    hover,
                    popup_focus,
                    shapes,
                ),
            },
            ChannelItem::SelectItems(tab) => {
                let open = match page {
                    Page::Channel(open, _) => *open == *tab,
                    _ => false,
                };
                draw_tab(rect, Label::Channel(*tab), open, selected, hover, shapes)
            },
        }
    }
}

impl Channel {
    /// The built-in grid of the page: the search row, the three tabs, the
    /// display, the message bar.
    pub open spec fn grid() -> Seq<RowView> {
        seq![
            search_row(),
            tab_row(
                Item::Channel(ChannelItem::SelectItems(ChannelPage::Home)),
                Item::Channel(ChannelItem::SelectItems(ChannelPage::Videos)),
                Item::Channel(ChannelItem::SelectItems(ChannelPage::Playlists)),
            ),
            wide_row(Item::Channel(ChannelItem::InfoDisplay(ChannelDisplayItem::Unknown))),
            message_row(),
        ]
    }

    /// What is shown while the page loads.
    pub fn message() -> (text: String)
        ensures
            text@ == "Loading channel info..."@,
    {
        "Loading channel info...".to_string()
    }

    /// The smallest window, width and height, in which the page is drawn.
    pub fn min() -> (least: (u16, u16))
        ensures
            least == (45u16, 15u16),
    {
        (45, 15)
    }

    /// Builds the built-in grid of the page.
    pub fn default() -> (rows: Vec<Row>)
        ensures
            rows_view(rows@) == Channel::grid(),
    {
        let mut rows: Vec<Row> = Vec::new();
        rows.push(top_row());
        rows.push(
            tabs_row(
                Item::Channel(ChannelItem::SelectItems(ChannelPage::Home)),
                Item::Channel(ChannelItem::SelectItems(ChannelPage::Videos)),
                Item::Channel(ChannelItem::SelectItems(ChannelPage::Playlists)),
            ),
        );
        rows.push(
            filling_row(Item::Channel(ChannelItem::InfoDisplay(ChannelDisplayItem::Unknown))),
        );
        rows.push(bottom_row());
        assert(rows_view(rows@) =~= Channel::grid());
        rows
    }
}

} // verus!
