use youtube_tui::config::Config;
use youtube_tui::items::WatchHistory;
use youtube_tui::keys::{Key, KeyCode};
use youtube_tui::layout::{Constraint, Rect};
use youtube_tui::loader::Fetched;
use youtube_tui::items::MiniVideo;
use youtube_tui::page::Page;
use youtube_tui::pages::channel::ChannelPage;
use youtube_tui::pages::global::GlobalItem;
use youtube_tui::pages::main_menu::MainMenuSelector;
use youtube_tui::session::App;
use youtube_tui::shape::{Color, Label, Shape};
use youtube_tui::states::{Item, Row, RowItem, State};

fn start() -> App {
    App::new(Config::new(), WatchHistory(Vec::new()))
}

fn window(width: u16, height: u16) -> Rect {
    Rect { x: 0, y: 0, width, height }
}

fn videos(n: usize) -> Vec<MiniVideo> {
    (0..n)
        .map(|i| MiniVideo {
            video_id: format!("video{}", i),
            title: format!("Title {}", i),
            video_thumbnail: format!("https://img.example/{}.jpg", i),
        })
        .collect()
}

fn marks(shapes: &[Shape]) -> Vec<(usize, usize, bool)> {
    shapes
        .iter()
        .filter_map(|s| match s {
            Shape::Widget { x, y, popup, .. } => Some((*x, *y, *popup)),
            _ => None,
        })
        .collect()
}

#[test]
fn small_window_gets_only_the_warning() {
    let before = start();
    for size in [window(44, 15), window(45, 14), window(0, 0), window(44, 100)] {
        let (app, shapes) = start().render(size);
        assert_eq!(shapes, vec![Shape::Warning { area: size, min_width: 45, min_height: 15 }]);
        assert_eq!(app, before);
    }
}

#[test]
fn small_window_gets_only_the_warning_whatever_the_grid_holds() {
    let mut app = start().open(Page::Channel(ChannelPage::Videos, "UC1".to_string()));
    let (loaded, _) = app.receive(0, 2, Ok(Fetched::Videos(videos(40))));
    app = loaded;
    app.hover = Some((0, 2));
    app.selected = Some((1, 0));
    app.popup_focus = true;
    app.config.layouts.channel.min = (200, 60);
    let before = app.clone();
    let (app, shapes) = app.render(window(199, 60));
    assert_eq!(
        shapes,
        vec![Shape::Warning { area: window(199, 60), min_width: 200, min_height: 60 }]
    );
    assert_eq!(app, before);
    let mut empty = start();
    empty.state = State(Vec::new());
    empty.selectable = Vec::new();
    let (_, shapes) = empty.render(window(10, 10));
    assert_eq!(shapes.len(), 1);
}

#[test]
fn window_of_the_least_size_is_drawn() {
    let (_, shapes) = start().render(window(45, 15));
    assert!(shapes.len() > 1);
    assert!(!shapes.iter().any(|s| matches!(s, Shape::Warning { .. })));
}

#[test]
fn every_widget_is_drawn_once_in_grid_order() {
    let (app, shapes) = start().render(window(80, 24));
    assert!(app.valid());
    assert_eq!(
        marks(&shapes),
        vec![
            (0, 0, false),
            (1, 0, false),
            (0, 1, false),
            (1, 1, false),
            (2, 1, false),
            (0, 2, false),
            (0, 3, false)
        ]
    );
    let blanks = shapes.iter().filter(|s| matches!(s, Shape::Blank { .. })).count();
    assert_eq!(blanks, 4);
    assert!(matches!(shapes[0], Shape::Blank { .. }));
    assert!(matches!(shapes[1], Shape::Widget { x: 0, y: 0, popup: false, .. }));
    assert!(matches!(shapes[2], Shape::Input { color: Color::Reset, .. }));
    assert!(matches!(shapes[3], Shape::Widget { x: 1, y: 0, .. }));
    assert!(matches!(shapes[4], Shape::Border { color: Color::Reset, .. }));
    assert!(matches!(shapes[5], Shape::Blank { .. }));
    assert_eq!(shapes.len(), 4 + 7 + 7);
}

#[test]
fn rows_are_cut_by_their_heights() {
    let (_, shapes) = start().render(window(80, 24));
    let areas: Vec<Rect> = shapes
        .iter()
        .filter_map(|s| match s {
            Shape::Widget { area, .. } => Some(*area),
            _ => None,
        })
        .collect();
    assert_eq!(areas[0].y, 0);
    assert_eq!(areas[0].height, 3);
    assert_eq!(areas[0].x, 0);
    assert_eq!(areas[0].width + areas[1].width, 80);
    assert_eq!(areas[1].width, 5);
    for tab in &areas[2..5] {
        assert_eq!(tab.y, 3);
        assert_eq!(tab.height, 3);
    }
    assert_eq!(areas[2].x + areas[2].width, areas[3].x);
    assert_eq!(areas[3].x + areas[3].width, areas[4].x);
    assert_eq!(areas[5], Rect { x: 0, y: 6, width: 80, height: 15 });
    assert_eq!(areas[6], Rect { x: 0, y: 21, width: 80, height: 3 });
    match shapes[5] {
        Shape::Blank { area } => {
            assert_eq!(area.x, 0);
            assert_eq!(area.y, 3);
            assert_eq!(area.x + area.width, areas[2].x);
        }
        other => panic!("unexpected shape {:?}", other),
    }
}

#[test]
fn tabs_are_centred_where_they_fill_the_row_with_their_fillers() {
    let mut app = start();
    app.state.0[1].items[2].constraint = Constraint::Length(31);
    // 15 + 15 + 31 = 61 cells of 80: the filler in front gets 9, the last tab ends at 70
    let cut = app.state.0[1].constraints(80);
    assert_eq!(cut[0], Constraint::Length(9));
    assert_eq!(cut.len(), 5);
}

#[test]
fn cursor_and_selection_colour_their_widget() {
    let mut app = start();
    app.hover = Some((1, 1));
    app.selected = Some((0, 2));
    let (_, shapes) = app.render(window(80, 24));
    let tabs: Vec<(Label, Color)> = shapes
        .iter()
        .filter_map(|s| match s {
            Shape::Tab { label, color, .. } => Some((*label, *color)),
            _ => None,
        })
        .collect();
    assert_eq!(
        tabs,
        vec![
            (Label::MainMenu(MainMenuSelector::Trending), Color::LightYellow),
            (Label::MainMenu(MainMenuSelector::Popular), Color::LightRed),
            (Label::MainMenu(MainMenuSelector::History), Color::Reset)
        ]
    );
    assert!(shapes
        .iter()
        .any(|s| matches!(s, Shape::Panes { color: Color::LightBlue, left: 40, .. })));
}

#[test]
fn cursor_is_resolved_through_the_index() {
    let mut app = start();
    let bar = RowItem {
        item: Item::Global(GlobalItem::MessageBar),
        constraint: Constraint::Length(4),
    };
    let search = RowItem {
        item: Item::Global(GlobalItem::SearchBar),
        constraint: Constraint::Length(4),
    };
    app.state = State(vec![
        Row { items: vec![bar.clone()], centered: false, height: Constraint::Length(3) },
        Row { items: vec![bar, search], centered: false, height: Constraint::Length(3) },
    ]);
    app.selectable = App::selectable(&app.state);
    assert_eq!(app.selectable, vec![vec![(1, 1)]]);
    app.hover = Some((0, 0));
    let (_, shapes) = app.render(window(80, 24));
    let colors: Vec<Color> = shapes
        .iter()
        .filter_map(|s| match s {
            Shape::Message { color, .. } => Some(*color),
            Shape::Input { color, .. } => Some(*color),
            _ => None,
        })
        .collect();
    assert_eq!(colors, vec![Color::Reset, Color::Reset, Color::LightRed]);
}

#[test]
fn selected_settings_are_drawn_again_on_top() {
    let mut app = start();
    app.hover = Some((1, 0));
    let app = app.key_input(Key::plain(KeyCode::Enter));
    assert_eq!(app.selected, Some((1, 0)));
    let (_, shapes) = app.render(window(80, 24));
    let all = marks(&shapes);
    assert_eq!(all.len(), 8);
    assert_eq!(all[7], (1, 0, true));
    assert_eq!(all.iter().filter(|m| m.2).count(), 1);
    let n = shapes.len();
    assert!(matches!(shapes[n - 1], Shape::Settings { color: Color::LightBlue, .. }));
    match (shapes[3], shapes[n - 2]) {
        (Shape::Widget { area: first, .. }, Shape::Widget { area: second, popup: true, .. }) => {
            assert_eq!(first, second)
        }
        other => panic!("unexpected shapes {:?}", other),
    }
    assert!(matches!(shapes[4], Shape::Border { color: Color::LightBlue, .. }));
}

#[test]
fn lists_take_note_of_where_they_are_drawn() {
    let app = start().open(Page::Channel(ChannelPage::Videos, "UC1".to_string()));
    let (mut app, _) = app.receive(0, 2, Ok(Fetched::Videos(videos(40))));
    app.hover = Some((0, 2));
    let mut app = app.key_input(Key::plain(KeyCode::Enter));
    for _ in 0..30 {
        app = app.key_input(Key::plain(KeyCode::Down));
    }
    let (app, shapes) = app.render(window(80, 24));
    assert!(app.valid());
    match &app.state.0[2].items[0].item {
        Item::Channel(youtube_tui::pages::channel::ChannelItem::InfoDisplay(
            youtube_tui::pages::channel::ChannelDisplayItem::Videos(_, list),
        )) => {
            assert_eq!(list.selected, 30);
            assert_eq!(list.height, 13);
            assert_eq!(list.scroll, 18);
        }
        other => panic!("unexpected widget {:?}", other),
    }
    assert!(shapes.iter().any(|s| matches!(s, Shape::Details { index: 30, .. })));
}

#[test]
fn very_wide_window_is_drawn_too() {
    let (app, shapes) = start().render(window(700, 24));
    assert!(app.valid());
    assert_eq!(marks(&shapes).len(), 7);
    for shape in shapes.iter() {
        if let Shape::Widget { area, .. } = shape {
            assert!(area.x as u32 + area.width as u32 <= 700);
            assert!(area.y as u32 + area.height as u32 <= 24);
        }
    }
}

#[test]
fn window_outside_the_coordinate_space_draws_nothing() {
    let before = start();
    let size = Rect { x: 65000, y: 0, width: 600, height: 24 };
    let (app, shapes) = start().render(size);
    assert_eq!(shapes, Vec::new());
    assert_eq!(app, before);
    assert!(start().layout(size).is_none());
}

#[test]
fn layout_gives_each_row_its_chunks() {
    let app = start();
    let chunks = app.layout(window(80, 24)).unwrap();
    assert_eq!(chunks.len(), 4);
    assert_eq!(chunks[0].len(), 4);
    assert_eq!(chunks[1].len(), 5);
    assert_eq!(chunks[2].len(), 3);
    assert_eq!(chunks[3].len(), 3);
    assert!(app.layout(window(700, 24)).is_some());
    let (painted, shapes) = start().paint(&chunks);
    let (rendered, expected) = start().render(window(80, 24));
    assert_eq!(shapes, expected);
    assert_eq!(painted, rendered);
}

#[test]
fn paint_draws_into_the_chunks_it_is_given() {
    let mut app = start();
    app.state = State(vec![Row {
        items: vec![RowItem {
            item: Item::Global(GlobalItem::MessageBar),
            constraint: Constraint::Length(4),
        }],
        centered: false,
        height: Constraint::Length(3),
    }]);
    app.selectable = Vec::new();
    let a = Rect { x: 1, y: 2, width: 3, height: 4 };
    let b = Rect { x: 5, y: 6, width: 7, height: 8 };
    let c = Rect { x: 9, y: 9, width: 9, height: 9 };
    let (_, shapes) = app.paint(&vec![vec![a, b, c]]);
    assert_eq!(
        shapes,
        vec![
            Shape::Blank { area: a },
            Shape::Widget { x: 0, y: 0, area: b, popup: false },
            Shape::Message { area: b, color: Color::Reset },
        ]
    );
}

#[test]
fn every_shape_lies_inside_the_window() {
    let app = start().open(Page::Channel(ChannelPage::Videos, "UC1".to_string()));
    let (mut app, _) = app.receive(0, 2, Ok(Fetched::Videos(videos(40))));
    app.hover = Some((1, 0));
    let app = app.key_input(Key::plain(KeyCode::Enter));
    for size in [window(45, 15), window(80, 24), window(46, 200), window(3000, 16)] {
        let (_, shapes) = app.clone().render(size);
        assert!(shapes.len() > 10);
        for shape in shapes.iter() {
            let area = shape.area();
            assert!(area.x as u32 + area.width as u32 <= size.width as u32, "{:?}", shape);
            assert!(area.y as u32 + area.height as u32 <= size.height as u32, "{:?}", shape);
        }
    }
    let warning = Shape::Warning { area: window(3, 4), min_width: 45, min_height: 15 };
    assert_eq!(warning.area(), window(3, 4));
    assert_eq!(Shape::Details { area: window(1, 2), index: 7 }.area(), window(1, 2));
}

#[test]
fn heights_of_the_rows() {
    assert_eq!(
        start().state.heights(),
        vec![
            Constraint::Length(3),
            Constraint::Length(3),
            Constraint::Min(6),
            Constraint::Length(3)
        ]
    );
    assert_eq!(State(Vec::new()).heights(), Vec::new());
}
