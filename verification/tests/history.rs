use youtube_tui::apphistory::AppHistory;
use youtube_tui::config::{Config, Images};
use youtube_tui::items::{MessageText, MiniVideo, SearchKind, SearchOrder, SearchSettings, WatchHistory};
use youtube_tui::page::Page;
use youtube_tui::pages::channel::{Channel, ChannelPage};
use youtube_tui::pages::item_info::{DisplayItem, ItemInfo};
use youtube_tui::pages::main_menu::{MainMenu, MainMenuSelector};
use youtube_tui::pages::search::Search;
use youtube_tui::session::{App, AppNoState};
use youtube_tui::states::State;
use youtube_tui::valid::{grid_valid, same_index, same_row};

fn watched() -> WatchHistory {
    WatchHistory(vec![MiniVideo {
        video_id: "seen".to_string(),
        title: "Seen".to_string(),
        video_thumbnail: "https://img.example/seen.jpg".to_string(),
    }])
}

fn start() -> App {
    App::new(Config::new(), watched())
}

/// A session in which every field that the stack keeps differs from that of a new session.
fn busy() -> App {
    let mut app = start().open(Page::Channel(ChannelPage::Home, "UC7".to_string()));
    app.hover = Some((1, 1));
    app.selected = Some((0, 2));
    app.message = MessageText::Text("hello".to_string());
    app.load = false;
    app.render = false;
    app.popup_focus = true;
    app.search_text = "query".to_string();
    app.search_index = 3;
    app.page_no = 4;
    app.term_clear = true;
    app.search_settings = SearchSettings { order: SearchOrder::Date, kind: SearchKind::Video };
    assert!(app.valid());
    app
}

#[test]
fn new_session_starts_on_the_main_menu() {
    let app = start();
    assert_eq!(app.page, Page::MainMenu(MainMenuSelector::Trending));
    assert_eq!(app.state, State(MainMenu::default()));
    assert_eq!(app.selectable, App::selectable(&app.state));
    assert_eq!(app.hover, None);
    assert_eq!(app.selected, None);
    assert_eq!(app.message, MessageText::Empty);
    assert!(app.load);
    assert!(app.render);
    assert!(!app.popup_focus);
    assert!(app.history.is_empty());
    assert_eq!(app.watch_history, watched());
    assert_eq!(app.search_settings, SearchSettings::new());
    assert_eq!(app.search_text, "");
    assert_eq!(app.search_index, 0);
    assert_eq!(app.page_no, 1);
    assert!(!app.term_clear);
    assert!(app.valid());
}

#[test]
fn open_keeps_the_session_and_begins_a_new_one() {
    let before = busy();
    let app = busy().open(Page::ItemDisplay(DisplayItem::PlayList("PL1".to_string())));
    assert!(app.valid());
    assert_eq!(app.page, Page::ItemDisplay(DisplayItem::PlayList("PL1".to_string())));
    assert_eq!(app.state, State(ItemInfo::default()));
    assert_eq!(app.selectable, App::selectable(&State(ItemInfo::default())));
    assert_eq!(app.hover, None);
    assert_eq!(app.selected, None);
    assert_eq!(app.message, MessageText::Empty);
    assert!(app.load);
    assert!(app.render);
    assert!(!app.popup_focus);
    assert_eq!(app.search_text, "");
    assert_eq!(app.search_index, 0);
    assert_eq!(app.page_no, 1);
    assert!(!app.term_clear);
    assert_eq!(app.config, before.config);
    assert_eq!(app.watch_history, before.watch_history);
    assert_eq!(app.search_settings, before.search_settings);
    assert_eq!(app.history.len(), before.history.len() + 1);
    assert_eq!(app.history[0], before.history[0]);
    assert_eq!(app.history[1], AppHistory::from(before));
}

#[test]
fn open_uses_the_grid_of_the_configuration() {
    let mut config = Config::new();
    config.layouts.search.rows = Channel::default();
    let app = App::new(config, watched()).open(Page::Search);
    assert_eq!(app.state, State(Channel::default()));
    let app = app.open(Page::Channel(ChannelPage::Videos, "UC1".to_string()));
    assert_eq!(app.state, State(Channel::default()));
    let app = start().open(Page::Search);
    assert_eq!(app.state, State(Search::default()));
}

#[test]
fn pop_restores_what_the_stack_kept() {
    let before = busy();
    let mut app = busy().open(Page::Search);
    app.search_settings = SearchSettings { order: SearchOrder::Views, kind: SearchKind::Channel };
    app.config.main.images = Images::Sixels;
    app.watch_history = WatchHistory(Vec::new());
    app.hover = Some((0, 0));
    app.term_clear = true;
    let (app, went) = app.pop();
    assert!(went);
    assert!(app.valid());
    assert_eq!(app.page, before.page);
    assert_eq!(app.state, before.state);
    assert_eq!(app.selectable, before.selectable);
    assert_eq!(app.hover, before.hover);
    assert_eq!(app.selected, before.selected);
    assert_eq!(app.message, before.message);
    assert_eq!(app.load, before.load);
    assert_eq!(app.render, before.render);
    assert_eq!(app.popup_focus, before.popup_focus);
    assert_eq!(app.search_text, before.search_text);
    assert_eq!(app.search_index, before.search_index);
    assert_eq!(app.page_no, before.page_no);
    assert_eq!(app.history, before.history);
    assert_eq!(
        app.search_settings,
        SearchSettings { order: SearchOrder::Views, kind: SearchKind::Channel }
    );
    assert_eq!(app.config.main.images, Images::Sixels);
    assert_eq!(app.watch_history, WatchHistory(Vec::new()));
    assert!(!app.term_clear);
}

#[test]
fn open_then_pop_gives_the_session_back() {
    let mut before = busy();
    let (app, went) = busy().open(Page::Search).pop();
    assert!(went);
    before.term_clear = false;
    assert_eq!(app, before);
}

#[test]
fn pop_at_the_beginning_changes_only_the_message() {
    let mut before = start();
    before.hover = Some((1, 1));
    before.term_clear = true;
    let mut app = start();
    app.hover = Some((1, 1));
    app.term_clear = true;
    let (app, went) = app.pop();
    assert!(!went);
    assert_eq!(app.message, MessageText::Text("This is the beginning of history".to_string()));
    before.message = MessageText::Text("This is the beginning of history".to_string());
    assert_eq!(app, before);
}

#[test]
fn stack_grows_and_shrinks_by_one() {
    let app = start();
    let app = app.open(Page::Search);
    assert_eq!(app.history.len(), 1);
    let app = app.open(Page::Channel(ChannelPage::Home, "UC1".to_string()));
    assert_eq!(app.history.len(), 2);
    let (app, went) = app.pop();
    assert!(went);
    assert_eq!(app.history.len(), 1);
    assert_eq!(app.page, Page::Search);
    let (app, went) = app.pop();
    assert!(went);
    assert_eq!(app.history.len(), 0);
    assert_eq!(app.page, Page::MainMenu(MainMenuSelector::Trending));
    let (app, went) = app.pop();
    assert!(!went);
    assert_eq!(app.history.len(), 0);
}

#[test]
fn home_starts_over() {
    let mut app = busy();
    let config = app.config.clone();
    app.home();
    assert_eq!(app, App::new(config, watched()));
    assert!(app.history.is_empty());
    assert_eq!(app.search_settings, SearchSettings::new());
}

#[test]
fn page_layout_and_default_follow_the_page() {
    let mut config = Config::new();
    config.layouts.search.def_selected = Some((0, 1));
    config.layouts.channel.def_selected = Some((1, 1));
    config.layouts.item_info.min = (10, 11);
    let app = App::new(config, watched());
    assert_eq!(app.page_default(), None);
    assert_eq!(app.page_layout().rows, MainMenu::default());
    assert_eq!(app.page_layout().min, (45, 15));
    assert_eq!(app.page.min(&app.config), (45, 15));
    let app = app.open(Page::Search);
    assert_eq!(app.page_default(), Some((0, 1)));
    assert_eq!(app.page_layout().rows, Search::default());
    assert_eq!(app.page_layout().message, "Loading search results...");
    let app = app.open(Page::Channel(ChannelPage::Home, "UC1".to_string()));
    assert_eq!(app.page_default(), Some((1, 1)));
    assert_eq!(app.page_layout().message, "Loading channel info...");
    let app = app.open(Page::ItemDisplay(DisplayItem::Video("v".to_string())));
    assert_eq!(app.page_default(), None);
    assert_eq!(app.page.min(&app.config), (10, 11));
    assert_eq!(app.page_layout().message, "Loading item details...");
}

#[test]
fn built_in_pages() {
    assert_eq!(Channel::message(), "Loading channel info...");
    assert_eq!(Channel::min(), (45, 15));
    assert_eq!(MainMenu::message(), "Loading main menu...");
    assert_eq!(MainMenu::min(), (45, 15));
    assert_eq!(ItemInfo::min(), (45, 12));
    assert_eq!(Search::min(), (45, 12));
    assert_eq!(Channel::default().len(), 4);
    assert_eq!(Channel::default()[1].items.len(), 3);
    assert!(Channel::default()[1].centered);
    assert_eq!(ItemInfo::default().len(), 3);
    assert_eq!(Page::new(), Page::MainMenu(MainMenuSelector::Trending));
    let page = Page::Channel(ChannelPage::Videos, "UC9".to_string());
    assert_eq!(page.duplicate(), page);
    assert!(Images::Sixels.display());
    assert!(Images::HalfBlocks.display());
    assert!(!Images::Off.display());
}

#[test]
fn split_and_join_are_inverse() {
    let before = busy();
    let (rest, state) = AppNoState::split(busy());
    assert_eq!(state, before.state);
    assert_eq!(rest.page, before.page);
    assert_eq!(rest.history, before.history);
    assert_eq!(AppNoState::join(rest, state), before);
}

#[test]
fn invalid_sessions_are_told_apart() {
    let mut app = start();
    app.hover = Some((2, 0));
    assert!(!app.valid());
    let mut app = start();
    app.hover = Some((0, 3));
    assert!(!app.valid());
    let mut app = start();
    app.selected = Some((0, 3));
    assert!(!app.valid());
    let mut app = start();
    app.selected = Some((1, 3));
    assert!(!app.valid());
    let mut app = start();
    app.selected = Some((0, 4));
    assert!(!app.valid());
    let mut app = start();
    app.selectable = vec![vec![(0, 0)]];
    assert!(!app.valid());
    let mut app = start();
    app.selectable[1][2] = (2, 2);
    assert!(!app.valid());
    let mut app = start().open(Page::Search);
    assert!(app.valid());
    app.history[0].hover = Some((9, 9));
    assert!(!app.valid());
    assert!(!app.history[0].valid());
}

#[test]
fn indexes_are_compared_entry_by_entry() {
    assert!(same_row(&vec![(0, 1), (2, 1)], &vec![(0, 1), (2, 1)]));
    assert!(!same_row(&vec![(0, 1), (2, 1)], &vec![(0, 1), (2, 2)]));
    assert!(!same_row(&vec![(0, 1), (2, 1)], &vec![(1, 1), (2, 1)]));
    assert!(!same_row(&vec![(0, 1)], &vec![(0, 1), (2, 1)]));
    assert!(same_row(&Vec::new(), &Vec::new()));
    assert!(same_index(&vec![vec![(0, 0)], vec![(1, 1)]], &vec![vec![(0, 0)], vec![(1, 1)]]));
    assert!(!same_index(&vec![vec![(0, 0)], vec![(1, 1)]], &vec![vec![(0, 0)], vec![(1, 2)]]));
    assert!(!same_index(&vec![vec![(0, 0)]], &vec![vec![(0, 0)], vec![(1, 1)]]));
    assert!(same_index(&Vec::new(), &Vec::new()));
    let app = start();
    assert!(grid_valid(&app.state, &app.selectable, Some((2, 1)), Some((0, 2))));
    assert!(!grid_valid(&app.state, &app.selectable, Some((3, 1)), None));
    assert!(!grid_valid(&app.state, &app.selectable, None, Some((0, 3))));
    assert!(!grid_valid(&app.state, &Vec::new(), None, None));
}

#[test]
fn configuration_is_looked_up_by_page() {
    let mut config = Config::new();
    config.layouts.search.min = (1, 2);
    config.layouts.main_menu.min = (3, 4);
    config.layouts.item_info.min = (5, 6);
    config.layouts.channel.min = (7, 8);
    assert_eq!(config.layout(&Page::Search).min, (1, 2));
    assert_eq!(config.layout(&Page::MainMenu(MainMenuSelector::History)).min, (3, 4));
    assert_eq!(
        config.layout(&Page::ItemDisplay(DisplayItem::PlayList("p".to_string()))).min,
        (5, 6)
    );
    assert_eq!(config.layout(&Page::Channel(ChannelPage::Home, "c".to_string())).min, (7, 8));
    let copy = config.layouts.channel.clone();
    assert_eq!(copy, config.layouts.channel);
}
