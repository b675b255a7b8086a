//! The pages of the client.

use crate::config::Config;
use crate::pages::channel::{Channel, ChannelPage};
use crate::pages::item_info::DisplayItem;
use crate::pages::main_menu::{MainMenu, MainMenuSelector};
use crate::pages::search::Search;
use vstd::prelude::*;

verus! {

/// Which screen a session shows, and so what it loads and which grid it
/// starts from.
#[derive(Clone, Debug, PartialEq, Eq)]
pub enum Page {
    Search,
    MainMenu(MainMenuSelector),
    ItemDisplay(DisplayItem),
    Channel(ChannelPage, String),
}

impl Page {
    /// The page that a session starts on.
    pub open spec fn home() -> Page {
        Page::MainMenu(MainMenuSelector::Trending)
    }

    /// Gives the page that a session starts on.
    pub fn new() -> (page: Page)
        ensures
            page == Page::home(),
    {
        Page::MainMenu(MainMenuSelector::Trending)
    }

    /// A copy of the page.
    pub fn duplicate(&self) -> (copy: Page)
        ensures
            copy == *self,
    {
        match self {
            Page::Search => Page::Search,
            Page::MainMenu(tab) => Page::MainMenu(*tab),
            Page::ItemDisplay(DisplayItem::Video(id)) => Page::ItemDisplay(
                DisplayItem::Video(id.clone()),
            ),
            Page::ItemDisplay(DisplayItem::PlayList(id)) => Page::ItemDisplay(
                DisplayItem::PlayList(id.clone()),
            ),
            Page::Channel(tab, id) => Page::Channel(*tab, id.clone()),
        }
    }

    /// The smallest window, width and height, in which the page is drawn.
    pub fn min(&self, config: &Config) -> (least: (u16, u16))
        ensures
            least == config.of(*self).min,
    {
        config.layout(self).min
    }
}

} // verus!
