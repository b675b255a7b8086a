//! The configuration of a session: the grid, the smallest window and the
//! first cursor position of each page, the keys, and the server.

use crate::keys::Keybindings;
use crate::page::Page;
use crate::pages::channel::Channel;
use crate::pages::item_info::ItemInfo;
use crate::pages::main_menu::MainMenu;
use crate::pages::search::Search;
use crate::states::{rows_view, Row};
use vstd::prelude::*;

verus! {

/// How thumbnails are shown.
#[derive(Clone, Copy, Debug, PartialEq, Eq, Structural)]
pub enum Images {
    Off,
    HalfBlocks,
    Sixels,
}

/// The settings that are not about one page.
#[derive(Clone, Debug, PartialEq, Eq)]
pub struct MainConfig {
    pub server_url: String,
    pub image_index: usize,
    pub images: Images,
}

/// What is configured of one page.
#[derive(Debug, PartialEq, Eq)]
pub struct LayoutConfig {
    /// The grid that the page starts from.
    pub rows: Vec<Row>,
    /// Where the cursor is put when the page opens, if anywhere.
    pub def_selected: Option<(usize, usize)>,
    /// The smallest window, width and height, in which the page is drawn.
    pub min: (u16, u16),
    /// What is shown while the page loads.
    pub message: String,
}

/// What is configured of each page.
#[derive(Clone, Debug, PartialEq, Eq)]
pub struct LayoutsConfig {
    pub search: LayoutConfig,
    pub main_menu: LayoutConfig,
    pub item_info: LayoutConfig,
    pub channel: LayoutConfig,
}

/// The whole configuration.
#[derive(Clone, Debug, PartialEq, Eq)]
pub struct Config {
    pub main: MainConfig,
    pub layouts: LayoutsConfig,
    pub keybindings: Keybindings,
}

impl Clone for LayoutConfig {
    fn clone(&self) -> (copy: Self)
        ensures
            copy.def_selected == self.def_selected,
            copy.min == self.min,
            copy.message == self.message,
    {
        LayoutConfig {
            rows: self.rows.clone(),
            def_selected: self.def_selected,
            min: (self.min.0, self.min.1),
            message: self.message.clone(),
        }
    }
}

impl Images {
    pub open spec fn shown(self) -> bool {
        self != Images::Off
    }

    /// Whether thumbnails are shown at all.
    pub fn display(&self) -> (shown: bool)
        ensures
            shown == self.shown(),
    {
        match self {
            Images::Off => false,
            Images::HalfBlocks => true,
            Images::Sixels => true,
        }
    }
}

impl Config {
    /// What is configured of `page`.
    pub open spec fn of(self, page: Page) -> LayoutConfig {
        match page {
            Page::Search => self.layouts.search,
            Page::MainMenu(_) => self.layouts.main_menu,
            Page::ItemDisplay(_) => self.layouts.item_info,
            Page::Channel(_, _) => self.layouts.channel,
        }
    }

    /// Looks up what is configured of `page`.
    pub fn layout(&self, page: &Page) -> (layout: &LayoutConfig)
        ensures
            *layout == self.of(*page),
    {
        match page {
            Page::Search => &self.layouts.search,
            Page::MainMenu(_) => &self.layouts.main_menu,
            Page::ItemDisplay(_) => &self.layouts.item_info,
            Page::Channel(_, _) => &self.layouts.channel,
        }
    }

    /// The built-in configuration: each page with its built-in grid,
    /// smallest window and loading message, no first cursor position, the
    /// standard keys, no thumbnails.
    pub fn new() -> (config: Config)
        ensures
            rows_view(config.layouts.search.rows@) == Search::grid(),
            rows_view(config.layouts.main_menu.rows@) == MainMenu::grid(),
            rows_view(config.layouts.item_info.rows@) == ItemInfo::grid(),
            rows_view(config.layouts.channel.rows@) == Channel::grid(),
            config.layouts.search.min == (45u16, 12u16),
            config.layouts.main_menu.min == (45u16, 15u16),
            config.layouts.item_info.min == (45u16, 12u16),
            config.layouts.channel.min == (45u16, 15u16),
            config.layouts.search.def_selected.is_none(),
            config.layouts.main_menu.def_selected.is_none(),
            config.layouts.item_info.def_selected.is_none(),
            config.layouts.channel.def_selected.is_none(),
            config.keybindings.0@ == Keybindings::standard(),
            config.main.images == Images::Off,
            config.main.image_index == 0,
    {
        Config {
            main: MainConfig {
                server_url: "https://vid.puffyan.us".to_string(),
                image_index: 0,
                images: Images::Off,
            },
            layouts: LayoutsConfig {
                search: LayoutConfig {
                    rows: Search::default(),
                    def_selected: None,
                    min: Search::min(),
                    message: Search::message(),
                },
                main_menu: LayoutConfig {
                    rows: MainMenu::default(),
                    def_selected: None,
                    min: MainMenu::min(),
                    message: MainMenu::message(),
                },
                item_info: LayoutConfig {
                    rows: ItemInfo::default(),
                    def_selected: None,
                    min: ItemInfo::min(),
                    message: ItemInfo::message(),
                },
                channel: LayoutConfig {
                    rows: Channel::default(),
                    def_selected: None,
                    min: Channel::min(),
                    message: Channel::message(),
                },
            },
            keybindings: Keybindings::new(),
        }
    }
}

} // verus!
