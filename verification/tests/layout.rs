use youtube_tui::layout::{filler, inner, split, Constraint, Direction, Rect};
use youtube_tui::render::Popup;
use youtube_tui::pages::global::GlobalItem;
use youtube_tui::shape::panes;
use youtube_tui::states::{Item, Row, RowItem};

fn row(sizes: Vec<Constraint>, centered: bool) -> Row {
    Row {
        items: sizes
            .into_iter()
            .map(|constraint| RowItem { item: Item::Global(GlobalItem::MessageBar), constraint })
            .collect(),
        centered,
        height: Constraint::Length(3),
    }
}

fn area(width: u16, height: u16) -> Rect {
    Rect { x: 0, y: 0, width, height }
}

#[test]
fn centred_row_gets_half_of_the_free_cells_in_front() {
    let cut = row(vec![Constraint::Length(10), Constraint::Length(20)], true).constraints(50);
    assert_eq!(
        cut,
        vec![
            Constraint::Length(10),
            Constraint::Length(10),
            Constraint::Length(20),
            Constraint::Length(0)
        ]
    );
}

#[test]
fn centred_row_is_cut_into_chunks_that_fill_the_width() {
    let cut = row(vec![Constraint::Length(10), Constraint::Length(20)], true).constraints(50);
    let chunks = split(Direction::Horizontal, &cut, area(50, 3)).unwrap();
    assert_eq!(chunks.len(), 4);
    let sum: u32 = chunks.iter().map(|c| c.width as u32).sum();
    assert_eq!(sum, 50);
    assert_eq!(chunks[0].x, 0);
    for pair in chunks.windows(2) {
        assert_eq!(pair[0].x + pair[0].width, pair[1].x);
    }
    for chunk in chunks.iter() {
        assert_eq!(chunk.y, 0);
        assert_eq!(chunk.height, 3);
    }
}

#[test]
fn filler_rounds_down() {
    let sizes = vec![Constraint::Length(10), Constraint::Length(21)];
    assert_eq!(filler(&sizes, true, 50), Constraint::Length(9));
}

#[test]
fn filler_counts_a_percentage_by_its_share_of_the_width() {
    let sizes = vec![Constraint::Percentage(33), Constraint::Min(5), Constraint::Max(7)];
    // 33 percent of 100 is 33; 100 - 33 - 5 - 7 = 55; half of it is 27
    assert_eq!(filler(&sizes, true, 100), Constraint::Length(27));
    // 33 percent of 50 is 16; 50 - 16 - 5 - 7 = 22; half of it is 11
    assert_eq!(filler(&sizes, true, 50), Constraint::Length(11));
}

#[test]
fn filler_is_nothing_without_centring() {
    let sizes = vec![Constraint::Length(10), Constraint::Length(20)];
    assert_eq!(filler(&sizes, false, 50), Constraint::Length(0));
    let cut = row(vec![Constraint::Length(10), Constraint::Length(20)], false).constraints(50);
    assert_eq!(cut[0], Constraint::Length(0));
    assert_eq!(cut[3], Constraint::Length(0));
}

#[test]
fn filler_is_nothing_where_the_items_do_not_fit() {
    let sizes = vec![Constraint::Length(30), Constraint::Length(30)];
    assert_eq!(filler(&sizes, true, 50), Constraint::Length(0));
    let exact = vec![Constraint::Length(25), Constraint::Length(25)];
    assert_eq!(filler(&exact, true, 50), Constraint::Length(0));
    let huge = vec![Constraint::Percentage(65535); 5];
    assert_eq!(filler(&huge, true, 65535), Constraint::Length(0));
}

#[test]
fn filler_of_an_empty_row_is_half_the_width() {
    assert_eq!(filler(&Vec::new(), true, 51), Constraint::Length(25));
    assert_eq!(row(Vec::new(), true).constraints(51).len(), 2);
}

#[test]
fn claimed_cells_of_each_constraint() {
    assert_eq!(Constraint::Length(12).claimed(40), 12);
    assert_eq!(Constraint::Min(12).claimed(40), 12);
    assert_eq!(Constraint::Max(12).claimed(40), 12);
    assert_eq!(Constraint::Percentage(50).claimed(41), 20);
    assert_eq!(Constraint::Percentage(65535).claimed(65535), 42948362);
}

#[test]
fn split_gives_one_chunk_for_each_constraint() {
    let sizes = vec![Constraint::Length(3), Constraint::Min(6), Constraint::Length(3)];
    let chunks = split(Direction::Vertical, &sizes, area(80, 24)).unwrap();
    assert_eq!(chunks.len(), 3);
    assert_eq!(chunks[0], Rect { x: 0, y: 0, width: 80, height: 3 });
    assert_eq!(chunks[2].y + chunks[2].height, 24);
    let none = split(Direction::Vertical, &Vec::new(), area(80, 24)).unwrap();
    assert_eq!(none.len(), 0);
}

#[test]
fn split_cuts_every_area_inside_the_coordinate_space() {
    let sizes = vec![Constraint::Percentage(100)];
    assert_eq!(
        split(Direction::Horizontal, &sizes, area(655, 10)),
        Some(vec![area(655, 10)])
    );
    assert_eq!(
        split(Direction::Horizontal, &sizes, area(656, 10)),
        Some(vec![area(656, 10)])
    );
    assert_eq!(
        split(Direction::Vertical, &sizes, area(10, 65535)),
        Some(vec![area(10, 65535)])
    );
    let halves = vec![Constraint::Percentage(50), Constraint::Percentage(50)];
    let chunks = split(Direction::Horizontal, &halves, area(2000, 10)).unwrap();
    assert_eq!(chunks, vec![area(1000, 10), Rect { x: 1000, y: 0, width: 1000, height: 10 }]);
    let far = Rect { x: 65000, y: 65000, width: 535, height: 535 };
    let chunks = split(Direction::Vertical, &halves, far).unwrap();
    assert_eq!(chunks.len(), 2);
    assert_eq!(chunks[0].y, 65000);
    assert_eq!(chunks[1].y + chunks[1].height, 65535);
}

#[test]
fn split_refuses_an_area_outside_the_coordinate_space() {
    let outside = Rect { x: 65535, y: 0, width: 1, height: 1 };
    assert!(!outside.fits());
    assert!(split(Direction::Horizontal, &Vec::new(), outside).is_none());
    let below = Rect { x: 0, y: 65000, width: 1, height: 536 };
    assert!(!below.fits());
    assert!(split(Direction::Vertical, &vec![Constraint::Length(1)], below).is_none());
    let fitting = Rect { x: 0, y: 65000, width: 1, height: 535 };
    assert!(fitting.fits());
    assert!(split(Direction::Vertical, &Vec::new(), fitting).is_some());
}

#[test]
fn percentages_that_the_toolkit_cannot_multiply_become_lengths() {
    assert_eq!(Constraint::Percentage(100).tame(655), Constraint::Percentage(100));
    assert_eq!(Constraint::Percentage(100).tame(656), Constraint::Length(656));
    assert_eq!(Constraint::Percentage(33).tame(2000), Constraint::Length(660));
    assert_eq!(Constraint::Percentage(65535).tame(65535), Constraint::Length(65535));
    assert_eq!(Constraint::Percentage(0).tame(65535), Constraint::Percentage(0));
    assert_eq!(Constraint::Length(70).tame(65535), Constraint::Length(70));
    assert_eq!(Constraint::Min(70).tame(65535), Constraint::Min(70));
    assert_eq!(Constraint::Max(70).tame(65535), Constraint::Max(70));
}

#[test]
fn clip_keeps_what_is_inside() {
    let outer = Rect { x: 10, y: 10, width: 20, height: 10 };
    let within = Rect { x: 12, y: 11, width: 5, height: 9 };
    assert_eq!(within.clip(outer), within);
    assert_eq!(outer.clip(outer), outer);
    let across = Rect { x: 5, y: 15, width: 10, height: 10 };
    assert_eq!(across.clip(outer), Rect { x: 10, y: 15, width: 5, height: 5 });
    let left = Rect { x: 0, y: 0, width: 5, height: 5 };
    assert_eq!(left.clip(outer), Rect { x: 10, y: 10, width: 0, height: 0 });
    let right = Rect { x: 40, y: 40, width: 5, height: 5 };
    assert_eq!(right.clip(outer), Rect { x: 30, y: 20, width: 0, height: 0 });
    let huge = Rect { x: 0, y: 0, width: 65535, height: 65535 };
    assert_eq!(huge.clip(outer), outer);
}

#[test]
fn inner_leaves_a_border_of_one_cell() {
    assert_eq!(
        inner(Rect { x: 2, y: 3, width: 10, height: 5 }),
        Rect { x: 3, y: 4, width: 8, height: 3 }
    );
}

#[test]
fn inner_of_a_small_area_is_empty() {
    assert_eq!(
        inner(Rect { x: 2, y: 3, width: 1, height: 2 }),
        Rect { x: 3, y: 4, width: 0, height: 0 }
    );
    assert_eq!(
        inner(Rect { x: 2, y: 3, width: 0, height: 0 }),
        Rect { x: 2, y: 3, width: 0, height: 0 }
    );
    assert_eq!(
        inner(Rect { x: 65535, y: 65535, width: 4, height: 4 }),
        Rect { x: 65535, y: 65535, width: 2, height: 2 }
    );
}

#[test]
fn panes_share_the_inner_width() {
    let (left, right) = panes(Rect { x: 0, y: 0, width: 52, height: 10 }, 60);
    assert_eq!(left, Rect { x: 1, y: 1, width: 30, height: 8 });
    assert_eq!(right, Rect { x: 31, y: 1, width: 20, height: 8 });
    let (left, right) = panes(Rect { x: 0, y: 0, width: 13, height: 10 }, 40);
    assert_eq!(left.width, 4);
    assert_eq!(right.width, 7);
    let (left, right) = panes(Rect { x: 0, y: 0, width: 12, height: 10 }, 200);
    assert_eq!(left.width, 10);
    assert_eq!(right, Rect { x: 11, y: 1, width: 0, height: 8 });
}

#[test]
fn popup_is_a_plain_value() {
    let p = Popup { x: 1, y: 0, area: area(5, 3), selected: true, hover: false };
    assert_eq!(p, p.clone());
}
