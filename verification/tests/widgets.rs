use youtube_tui::config::Config;
use youtube_tui::items::{FullChannel, LoadError, MiniPlayList, MiniVideo, WatchHistory};
use youtube_tui::keys::KeyCode;
use youtube_tui::layout::Rect;
use youtube_tui::page::Page;
use youtube_tui::pages::channel::{ChannelDisplayItem, ChannelItem, ChannelPage};
use youtube_tui::pages::global::GlobalItem;
use youtube_tui::pages::item_info::{DisplayItem, ItemInfoItem};
use youtube_tui::pages::main_menu::{MainMenuItem, MainMenuSelector};
use youtube_tui::pages::search::SearchItem;
use youtube_tui::session::{App, AppNoState};
use youtube_tui::shape::{Color, Label, Shape};
use youtube_tui::states::{Item, Selection};
use youtube_tui::text::type_key;
use youtube_tui::text_list::{open_playlist, open_video, TextList};

fn list(n: usize, selected: usize) -> TextList {
    TextList {
        items: (0..n).map(|i| format!("line {}", i)).collect(),
        selected,
        scroll: 0,
        height: 0,
    }
}

fn videos(n: usize) -> Vec<MiniVideo> {
    (0..n)
        .map(|i| MiniVideo {
            video_id: format!("video{}", i),
            title: format!("Title {}", i),
            video_thumbnail: format!("https://img.example/{}.jpg", i),
        })
        .collect()
}

fn playlists(n: usize) -> Vec<MiniPlayList> {
    (0..n)
        .map(|i| MiniPlayList {
            playlist_id: format!("list{}", i),
            title: format!("List {}", i),
            thumbnail: if i % 2 == 0 { Some(format!("https://img.example/l{}.jpg", i)) } else { None },
        })
        .collect()
}

fn rest(page: Page) -> AppNoState {
    let mut app = App::new(Config::new(), WatchHistory(Vec::new()));
    app.page = page;
    AppNoState::split(app).0
}

fn rect() -> Rect {
    Rect { x: 0, y: 0, width: 52, height: 10 }
}

#[test]
fn text_list_steps_and_stops() {
    let mut l = list(3, 1);
    l.up();
    assert_eq!(l.selected, 0);
    l.up();
    assert_eq!(l.selected, 0);
    l.down();
    l.down();
    assert_eq!(l.selected, 2);
    l.down();
    assert_eq!(l.selected, 2);
    l.first();
    assert_eq!(l.selected, 0);
    l.last();
    assert_eq!(l.selected, 2);
    assert_eq!(l.items, list(3, 0).items);
}

#[test]
fn text_list_that_is_empty_stays_put() {
    let mut l = TextList::new();
    l.down();
    l.last();
    l.up();
    assert_eq!(l, TextList::new());
    assert_eq!(l.selected, 0);
}

#[test]
fn text_list_keys() {
    let mut l = list(4, 1);
    l.key_input(KeyCode::Down);
    assert_eq!(l.selected, 2);
    l.key_input(KeyCode::Up);
    assert_eq!(l.selected, 1);
    l.key_input(KeyCode::PageDown);
    assert_eq!(l.selected, 3);
    l.key_input(KeyCode::PageUp);
    assert_eq!(l.selected, 0);
    l.key_input(KeyCode::Enter);
    l.key_input(KeyCode::Char('j'));
    assert_eq!(l, list(4, 0));
}

#[test]
fn text_list_window_follows_the_pick() {
    let mut l = list(20, 7);
    l.area(Rect { x: 0, y: 0, width: 10, height: 5 });
    assert_eq!(l.height, 5);
    assert_eq!(l.scroll, 3);
    l.selected = 4;
    l.area(Rect { x: 0, y: 0, width: 10, height: 5 });
    assert_eq!(l.scroll, 3);
    l.selected = 2;
    l.area(Rect { x: 0, y: 0, width: 10, height: 5 });
    assert_eq!(l.scroll, 2);
    l.selected = 9;
    l.area(Rect { x: 0, y: 0, width: 10, height: 0 });
    assert_eq!(l.scroll, 9);
    assert_eq!(l.height, 0);
    l.selected = 19;
    l.area(Rect { x: 0, y: 0, width: 10, height: 1 });
    assert_eq!(l.scroll, 19);
}

#[test]
fn enter_opens_the_picked_entry() {
    assert_eq!(
        open_video(&videos(3), &list(3, 2), KeyCode::Enter),
        Some(Page::ItemDisplay(DisplayItem::Video("video2".to_string())))
    );
    assert_eq!(open_video(&videos(3), &list(3, 3), KeyCode::Enter), None);
    assert_eq!(open_video(&videos(3), &list(3, 2), KeyCode::Down), None);
    assert_eq!(open_video(&Vec::new(), &list(0, 0), KeyCode::Enter), None);
    assert_eq!(
        open_playlist(&playlists(2), &list(2, 1), KeyCode::Enter),
        Some(Page::ItemDisplay(DisplayItem::PlayList("list1".to_string())))
    );
    assert_eq!(open_playlist(&playlists(2), &list(2, 2), KeyCode::Enter), None);
    assert_eq!(open_playlist(&playlists(2), &list(2, 0), KeyCode::Esc), None);
}

#[test]
fn typing() {
    let mut text = "ab".to_string();
    type_key(&mut text, KeyCode::Char('c'));
    assert_eq!(text, "abc");
    type_key(&mut text, KeyCode::Enter);
    type_key(&mut text, KeyCode::Left);
    assert_eq!(text, "abc");
    type_key(&mut text, KeyCode::Backspace);
    type_key(&mut text, KeyCode::Backspace);
    assert_eq!(text, "a");
    type_key(&mut text, KeyCode::Backspace);
    type_key(&mut text, KeyCode::Backspace);
    assert_eq!(text, "");
    type_key(&mut text, KeyCode::Char('é'));
    assert_eq!(text, "é");
    type_key(&mut text, KeyCode::Backspace);
    assert_eq!(text, "");
}

#[test]
fn which_widgets_can_take_focus() {
    assert!(GlobalItem::SearchBar.selectable());
    assert!(GlobalItem::SearchSettings.selectable());
    assert!(!GlobalItem::MessageBar.selectable());
    assert!(!Item::Global(GlobalItem::MessageBar).selectable());
    assert!(Item::Global(GlobalItem::SearchBar).selectable());
    assert!(ChannelItem::SelectItems(ChannelPage::Home).selectable());
    assert!(ChannelItem::InfoDisplay(ChannelDisplayItem::Unknown).selectable());
    assert!(MainMenuItem::VideoList(None).selectable());
    assert!(MainMenuItem::SeletorTab(MainMenuSelector::History).selectable());
    assert!(ItemInfoItem::Unknown.selectable());
    assert!(SearchItem::Unknown.selectable());
    assert!(Item::Search(SearchItem::Unknown).selectable());
}

#[test]
fn channel_widgets_answer_a_selection() {
    let home = rest(Page::Channel(ChannelPage::Home, "UC1".to_string()));
    assert_eq!(ChannelItem::SelectItems(ChannelPage::Home).select(&home), Selection::Stay);
    assert_eq!(
        ChannelItem::SelectItems(ChannelPage::Videos).select(&home),
        Selection::Open(Page::Channel(ChannelPage::Videos, "UC1".to_string()))
    );
    assert_eq!(
        ChannelItem::InfoDisplay(ChannelDisplayItem::Unknown).select(&home),
        Selection::Enter
    );
    let elsewhere = rest(Page::Search);
    assert_eq!(ChannelItem::SelectItems(ChannelPage::Videos).select(&elsewhere), Selection::Stay);
}

#[test]
fn other_widgets_answer_a_selection() {
    let app = rest(Page::MainMenu(MainMenuSelector::Trending));
    assert_eq!(
        MainMenuItem::SeletorTab(MainMenuSelector::Trending).select(&app),
        Selection::Open(Page::MainMenu(MainMenuSelector::Trending))
    );
    assert_eq!(
        MainMenuItem::SeletorTab(MainMenuSelector::History).select(&app),
        Selection::Open(Page::MainMenu(MainMenuSelector::History))
    );
    assert_eq!(MainMenuItem::VideoList(None).select(&app), Selection::Enter);
    assert_eq!(GlobalItem::SearchBar.select(&app), Selection::Enter);
    assert_eq!(GlobalItem::SearchSettings.select(&app), Selection::Popup);
    assert_eq!(GlobalItem::MessageBar.select(&app), Selection::Stay);
    assert_eq!(ItemInfoItem::Unknown.select(&app), Selection::Enter);
    assert_eq!(SearchItem::Unknown.select(&app), Selection::Enter);
    assert_eq!(Item::Global(GlobalItem::SearchSettings).select(&app), Selection::Popup);
}

#[test]
fn channel_list_takes_keys() {
    let mut app = rest(Page::Channel(ChannelPage::Videos, "UC1".to_string()));
    let before = app.clone();
    let mut item = ChannelItem::InfoDisplay(ChannelDisplayItem::Videos(videos(3), list(3, 0)));
    assert_eq!(item.key_input(KeyCode::Down, &mut app), None);
    assert_eq!(item, ChannelItem::InfoDisplay(ChannelDisplayItem::Videos(videos(3), list(3, 1))));
    assert_eq!(
        item.key_input(KeyCode::Enter, &mut app),
        Some(Page::ItemDisplay(DisplayItem::Video("video1".to_string())))
    );
    assert_eq!(item, ChannelItem::InfoDisplay(ChannelDisplayItem::Videos(videos(3), list(3, 1))));
    let mut item = ChannelItem::InfoDisplay(ChannelDisplayItem::Playlists(playlists(3), list(3, 0)));
    assert_eq!(item.key_input(KeyCode::PageDown, &mut app), None);
    assert_eq!(
        item.key_input(KeyCode::Enter, &mut app),
        Some(Page::ItemDisplay(DisplayItem::PlayList("list2".to_string())))
    );
    let mut tab = ChannelItem::SelectItems(ChannelPage::Home);
    assert_eq!(tab.key_input(KeyCode::Enter, &mut app), None);
    assert_eq!(tab, ChannelItem::SelectItems(ChannelPage::Home));
    assert_eq!(app, before);
}

#[test]
fn widgets_without_what_they_loaded() {
    let full = Item::Channel(ChannelItem::InfoDisplay(ChannelDisplayItem::Videos(
        videos(2),
        list(2, 1),
    )));
    assert_eq!(
        full.blank(),
        Item::Channel(ChannelItem::InfoDisplay(ChannelDisplayItem::Unknown))
    );
    let tab = Item::Channel(ChannelItem::SelectItems(ChannelPage::Playlists));
    assert_eq!(tab.blank(), tab);
    let menu = Item::MainMenu(MainMenuItem::VideoList(Some((videos(1), list(1, 0)))));
    assert_eq!(menu.blank(), Item::MainMenu(MainMenuItem::VideoList(None)));
    let found = Item::Search(SearchItem::Videos(videos(1), list(1, 0)));
    assert_eq!(found.blank(), Item::Search(SearchItem::Unknown));
    let bar = Item::Global(GlobalItem::MessageBar);
    assert_eq!(bar.blank(), bar);
}

#[test]
fn colours() {
    assert_eq!(Color::border(true, true), Color::LightBlue);
    assert_eq!(Color::border(true, false), Color::LightBlue);
    assert_eq!(Color::border(false, true), Color::LightRed);
    assert_eq!(Color::border(false, false), Color::Reset);
}

#[test]
fn captions() {
    assert_eq!(Label::Channel(ChannelPage::Home).text(), "Home");
    assert_eq!(Label::Channel(ChannelPage::Playlists).text(), "Playlists");
    assert_eq!(Label::Channel(ChannelPage::Videos).text(), "Videos");
    assert_eq!(Label::MainMenu(MainMenuSelector::Trending).text(), "Trending");
    assert_eq!(Label::MainMenu(MainMenuSelector::Popular).text(), "Popular");
    assert_eq!(Label::MainMenu(MainMenuSelector::History).text(), "History");
}

#[test]
fn channel_tab_draws_its_caption() {
    let page = Page::Channel(ChannelPage::Videos, "UC1".to_string());
    let mut shapes = Vec::new();
    let mut open = ChannelItem::SelectItems(ChannelPage::Videos);
    open.render_item(rect(), false, false, false, &page, &mut shapes);
    open.render_item(rect(), false, true, false, &page, &mut shapes);
    open.render_item(rect(), true, false, false, &page, &mut shapes);
    let mut other = ChannelItem::SelectItems(ChannelPage::Home);
    other.render_item(rect(), false, false, false, &page, &mut shapes);
    other.render_item(rect(), true, false, false, &page, &mut shapes);
    other.render_item(rect(), false, true, false, &Page::Search, &mut shapes);
    let colors: Vec<Color> = shapes
        .iter()
        .map(|s| match s {
            Shape::Tab { color, .. } => *color,
            other => panic!("unexpected shape {:?}", other),
        })
        .collect();
    assert_eq!(
        colors,
        vec![
            Color::LightYellow,
            Color::LightRed,
            Color::LightYellow,
            Color::Reset,
            Color::LightBlue,
            Color::LightRed
        ]
    );
    assert_eq!(
        shapes[0],
        Shape::Tab {
            area: rect(),
            color: Color::LightYellow,
            label: Label::Channel(ChannelPage::Videos)
        }
    );
}

#[test]
fn channel_display_draws_list_and_details() {
    let page = Page::Channel(ChannelPage::Videos, "UC1".to_string());
    let mut item = ChannelItem::InfoDisplay(ChannelDisplayItem::Videos(videos(30), list(30, 12)));
    let mut shapes = Vec::new();
    item.render_item(rect(), true, false, false, &page, &mut shapes);
    assert_eq!(
        shapes,
        vec![
            Shape::Panes { area: rect(), color: Color::LightBlue, left: 60 },
            Shape::Details { area: Rect { x: 31, y: 1, width: 20, height: 8 }, index: 12 },
            Shape::List {
                area: Rect { x: 1, y: 1, width: 30, height: 8 },
                highlight: Color::LightRed
            },
        ]
    );
    match &item {
        ChannelItem::InfoDisplay(ChannelDisplayItem::Videos(_, list)) => {
            assert_eq!(list.height, 8);
            assert_eq!(list.scroll, 5);
            assert_eq!(list.selected, 12);
        }
        other => panic!("unexpected widget {:?}", other),
    }
    let mut shapes = Vec::new();
    item.render_item(rect(), false, true, true, &page, &mut shapes);
    assert_eq!(
        shapes,
        vec![
            Shape::Panes { area: rect(), color: Color::LightRed, left: 60 },
            Shape::List {
                area: Rect { x: 1, y: 1, width: 30, height: 8 },
                highlight: Color::LightYellow
            },
        ]
    );
    let mut empty = ChannelItem::InfoDisplay(ChannelDisplayItem::Playlists(Vec::new(), list(0, 0)));
    let mut shapes = Vec::new();
    empty.render_item(rect(), false, false, false, &page, &mut shapes);
    assert_eq!(shapes.len(), 2);
}

#[test]
fn channel_display_draws_border_and_channel() {
    let page = Page::Channel(ChannelPage::Home, "UC1".to_string());
    let mut unknown = ChannelItem::InfoDisplay(ChannelDisplayItem::Unknown);
    let mut shapes = Vec::new();
    unknown.render_item(rect(), false, true, false, &page, &mut shapes);
    assert_eq!(shapes, vec![Shape::Border { area: rect(), color: Color::LightRed }]);
    let mut home = ChannelItem::InfoDisplay(ChannelDisplayItem::Home(FullChannel {
        author_id: "UC1".to_string(),
        author: "Someone".to_string(),
        thumbnail: "https://img.example/c.jpg".to_string(),
        description: String::new(),
    }));
    let mut shapes = Vec::new();
    home.render_item(rect(), false, false, false, &page, &mut shapes);
    assert_eq!(
        shapes,
        vec![
            Shape::Border { area: rect(), color: Color::Reset },
            Shape::Profile { area: Rect { x: 1, y: 1, width: 50, height: 8 } },
        ]
    );
}

#[test]
fn main_menu_widgets_draw() {
    let page = Page::MainMenu(MainMenuSelector::Popular);
    let mut shapes = Vec::new();
    let mut tab = MainMenuItem::SeletorTab(MainMenuSelector::Popular);
    tab.render_item(rect(), false, false, &page, &mut shapes);
    let mut tab = MainMenuItem::SeletorTab(MainMenuSelector::History);
    tab.render_item(rect(), false, false, &page, &mut shapes);
    let mut empty = MainMenuItem::VideoList(None);
    empty.render_item(rect(), true, false, &page, &mut shapes);
    let mut full = MainMenuItem::VideoList(Some((videos(3), list(3, 1))));
    full.render_item(rect(), false, false, &page, &mut shapes);
    assert_eq!(
        shapes,
        vec![
            Shape::Tab {
                area: rect(),
                color: Color::LightYellow,
                label: Label::MainMenu(MainMenuSelector::Popular)
            },
            Shape::Tab {
                area: rect(),
                color: Color::Reset,
                label: Label::MainMenu(MainMenuSelector::History)
            },
            Shape::Panes { area: rect(), color: Color::LightBlue, left: 40 },
            Shape::Panes { area: rect(), color: Color::Reset, left: 40 },
            Shape::List {
                area: Rect { x: 1, y: 1, width: 20, height: 8 },
                highlight: Color::LightYellow
            },
        ]
    );
}

#[test]
fn global_widgets_draw() {
    let mut shapes = Vec::new();
    assert!(!GlobalItem::SearchBar.render_item(rect(), true, false, false, &mut shapes));
    assert!(!GlobalItem::MessageBar.render_item(rect(), false, false, false, &mut shapes));
    assert!(!GlobalItem::SearchSettings.render_item(rect(), false, true, false, &mut shapes));
    assert!(GlobalItem::SearchSettings.render_item(rect(), true, true, false, &mut shapes));
    assert!(GlobalItem::SearchSettings.render_item(rect(), true, true, true, &mut shapes));
    assert_eq!(
        shapes,
        vec![
            Shape::Input { area: rect(), color: Color::LightBlue },
            Shape::Message { area: rect(), color: Color::Reset },
            Shape::Border { area: rect(), color: Color::LightRed },
            Shape::Border { area: rect(), color: Color::LightBlue },
            Shape::Settings { area: rect(), color: Color::LightBlue },
        ]
    );
}

#[test]
fn load_error_texts() {
    assert_eq!(LoadError::Service("timed out".to_string()).message(), "timed out");
    assert_eq!(LoadError::Mismatch.message(), "The answer does not fit the request");
}
