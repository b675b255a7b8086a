//! A list of lines with one of them picked out.

use crate::items::{MiniPlayList, MiniVideo};
use crate::keys::KeyCode;
use crate::layout::Rect;
use crate::page::Page;
use crate::pages::item_info::DisplayItem;
use vstd::prelude::*;

verus! {

/// A list of lines, the line that is picked, and the window of lines that
/// is on screen.
#[derive(Clone, Debug, PartialEq, Eq)]
pub struct TextList {
    pub items: Vec<String>,
    pub selected: usize,
    pub scroll: usize,
    pub height: u16,
}

impl TextList {
    /// The picked line after a step up: the line before, unless it is the
    /// first.
    pub open spec fn above(self) -> int {
        if self.selected > 0 {
            self.selected - 1
        } else {
            0
        }
    }

    /// The picked line after a step down: the line after, unless it is the
    /// last.
    pub open spec fn below(self) -> int {
        if self.selected + 1 < self.items@.len() {
            self.selected + 1
        } else {
            self.selected as int
        }
    }

    /// The last line, or the picked line where the list is empty.
    pub open spec fn bottom(self) -> int {
        if self.items@.len() > 0 {
            self.items@.len() - 1
        } else {
            self.selected as int
        }
    }

    /// The first line on screen once the list is drawn `height` lines high:
    /// moved just far enough that the picked line is on screen.
    pub open spec fn window(self, height: int) -> int {
        if self.selected < self.scroll {
            self.selected as int
        } else if height == 0 {
            self.selected as int
        } else if self.selected - self.scroll >= height {
            self.selected - height + 1
        } else {
            self.scroll as int
        }
    }

    /// The list after a key: the arrows step, Page Up and Page Down jump to
    /// the ends, and no other key moves it.
    pub open spec fn after_key(self, key: KeyCode) -> TextList {
        match key {
            KeyCode::Up => TextList { selected: self.above() as usize, ..self },
            KeyCode::Down => TextList { selected: self.below() as usize, ..self },
            KeyCode::PageUp => TextList { selected: 0, ..self },
            KeyCode::PageDown => TextList { selected: self.bottom() as usize, ..self },
            _ => self,
        }
    }

    /// Whether the list is new and holds `titles`.
    pub open spec fn lists(self, titles: Seq<String>) -> bool {
        self.items@ == titles && self.selected == 0 && self.scroll == 0 && self.height == 0
    }

    /// An empty list.
    pub fn new() -> (list: TextList)
        ensures
            list.items@.len() == 0,
            list.selected == 0,
            list.scroll == 0,
            list.height == 0,
    {
        TextList { items: Vec::new(), selected: 0, scroll: 0, height: 0 }
    }

    /// Picks the line before.
    pub fn up(&mut self)
        ensures
            *final(self) == (TextList { selected: old(self).above() as usize, ..*old(self) }),
    {
        if self.selected > 0 {
            self.selected = self.selected - 1;
        }
    }

    /// Picks the line after.
    pub fn down(&mut self)
        ensures
            *final(self) == (TextList { selected: old(self).below() as usize, ..*old(self) }),
    {
        if self.selected < self.items.len() && self.selected + 1 < self.items.len() {
            self.selected = self.selected + 1;
        }
    }

    /// Picks the first line.
    pub fn first(&mut self)
        ensures
            *final(self) == (TextList { selected: 0, ..*old(self) }),
    {
        self.selected = 0;
    }

    /// Picks the last line.
    pub fn last(&mut self)
        ensures
            *final(self) == (TextList { selected: old(self).bottom() as usize, ..*old(self) }),
    {
        if self.items.len() > 0 {
            self.selected = self.items.len() - 1;
        }
    }

    /// Moves the pick as `key` says.
    pub fn key_input(&mut self, key: KeyCode)
        ensures
            *final(self) == old(self).after_key(key),
    {
        match key {
            KeyCode::Up => self.up(),
            KeyCode::Down => self.down(),
            KeyCode::PageUp => self.first(),
            KeyCode::PageDown => self.last(),
            _ => {},
        }
    }

    /// Takes note of the area that the list is drawn in, and moves the
    /// window so that the picked line is on screen.
    pub fn area(&mut self, area: Rect)
        ensures
            *final(self) == (TextList {
                scroll: old(self).window(area.height as int) as usize,
                height: area.height,
                ..*old(self)
            }),
    {
        if self.selected < self.scroll {
            self.scroll = self.selected;
        } else if area.height == 0 {
            self.scroll = self.selected;
        } else if self.selected - self.scroll >= area.height as usize {
            self.scroll = self.selected - area.height as usize + 1;
        }
        self.height = area.height;
    }

    /// A list of the titles of `videos`.
    pub fn of_videos(videos: &Vec<MiniVideo>) -> (list: TextList)
        ensures
            list.lists(video_titles(videos@)),
    {
        let mut list = TextList::new();
        let mut i: usize = 0;
        while i < videos.len()
            invariant
                i <= videos@.len(),
                list.items@.len() == i,
                list.selected == 0 && list.scroll == 0 && list.height == 0,
                forall|j: int| 0 <= j < i ==> list.items@[j] == videos@[j].title,
            decreases videos.len() - i,
        {
            list.items.push(videos[i].title.clone());
            i = i + 1;
        }
        assert(list.items@ =~= video_titles(videos@));
        list
    }

    /// A list of the titles of `playlists`.
    pub fn of_playlists(playlists: &Vec<MiniPlayList>) -> (list: TextList)
        ensures
            list.lists(playlist_titles(playlists@)),
    {
        let mut list = TextList::new();
        let mut i: usize = 0;
        while i < playlists.len()
            invariant
                i <= playlists@.len(),
                list.items@.len() == i,
                list.selected == 0 && list.scroll == 0 && list.height == 0,
                forall|j: int| 0 <= j < i ==> list.items@[j] == playlists@[j].title,
            decreases playlists.len() - i,
        {
            list.items.push(playlists[i].title.clone());
            i = i + 1;
        }
        assert(list.items@ =~= playlist_titles(playlists@));
        list
    }
}

/// The titles of a list of videos.
pub open spec fn video_titles(videos: Seq<MiniVideo>) -> Seq<String> {
    Seq::new(videos.len(), |i: int| videos[i].title)
}

/// The titles of a list of playlists.
pub open spec fn playlist_titles(playlists: Seq<MiniPlayList>) -> Seq<String> {
    Seq::new(playlists.len(), |i: int| playlists[i].title)
}

/// The page that Enter opens on a list of videos: that of the picked video,
/// where the pick is a video of the list.
pub open spec fn video_target(
    videos: Seq<MiniVideo>,
    list: TextList,
    key: KeyCode,
) -> Option<Page> {
    if key == KeyCode::Enter && list.selected < videos.len() {
        Some(Page::ItemDisplay(DisplayItem::Video(videos[list.selected as int].video_id)))
    } else {
        None
    }
}

/// The page that Enter opens on a list of playlists: that of the picked
/// playlist, where the pick is a playlist of the list.
pub open spec fn playlist_target(
    playlists: Seq<MiniPlayList>,
    list: TextList,
    key: KeyCode,
) -> Option<Page> {
    if key == KeyCode::Enter && list.selected < playlists.len() {
        Some(Page::ItemDisplay(DisplayItem::PlayList(playlists[list.selected as int].playlist_id)))
    } else {
        None
    }
}

/// Computes the page that `key` opens on a list of videos.
pub fn open_video(videos: &Vec<MiniVideo>, list: &TextList, key: KeyCode) -> (target: Option<Page>)
    ensures
        target == video_target(videos@, *list, key),
{
    if key == KeyCode::Enter && list.selected < videos.len() {
        Some(Page::ItemDisplay(DisplayItem::Video(videos[list.selected].video_id.clone())))
    } else {
        None
    }
}

/// Computes the page that `key` opens on a list of playlists.
pub fn open_playlist(
    playlists: &Vec<MiniPlayList>,
    list: &TextList,
    key: KeyCode,
) -> (target: Option<Page>)
    ensures
        target == playlist_target(playlists@, *list, key),
{
    if key == KeyCode::Enter && list.selected < playlists.len() {
        Some(Page::ItemDisplay(DisplayItem::PlayList(playlists[list.selected].playlist_id.clone())))
    } else {
        None
    }
}

} // verus!
