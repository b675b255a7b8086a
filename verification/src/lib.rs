//! The navigation, layout and page-history core of a terminal client for a
//! video platform: a grid of widgets, a cursor that moves over the widgets
//! that can take focus, a stack of earlier sessions, and the plan of what is
//! drawn where.

pub mod apphistory;
pub mod config;
pub mod controller;
pub mod index;
pub mod item;
pub mod items;
pub mod keys;
pub mod layout;
pub mod loader;
pub mod navigate;
pub mod page;
pub mod pages;
pub mod render;
pub mod session;
pub mod shape;
pub mod states;
pub mod text;
pub mod text_list;
pub mod valid;
