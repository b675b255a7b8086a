//! The widgets of each page, and each page's built-in grid.

pub mod channel;
pub mod global;
pub mod item_info;
pub mod main_menu;
pub mod search;
