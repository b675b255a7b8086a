//! What a widget asks to have drawn: primitive shapes, each with its area.

use crate::layout::{inner, Rect};
use crate::pages::channel::{Channel, ChannelPage};
use crate::pages::main_menu::{MainMenu, MainMenuSelector};
use crate::text_list::TextList;
use vstd::prelude::*;

verus! {

/// The colours that the widgets use.
#[derive(Clone, Copy, Debug, PartialEq, Eq, Structural)]
pub enum Color {
    Reset,
    Red,
    LightRed,
    LightBlue,
    LightYellow,
}

/// The caption of a tab.
#[derive(Clone, Copy, Debug, PartialEq, Eq, Structural)]
pub enum Label {
    Channel(ChannelPage),
    MainMenu(MainMenuSelector),
}

/// One primitive that the drawing side paints. A shape that shows content
/// (`List`, `Details`, `Profile`, `Input`, `Message`, `Settings`) shows that
/// of the widget named by the `Widget` shape before it.
#[derive(Clone, Copy, Debug, PartialEq, Eq, Structural)]
pub enum Shape {
    /// The warning that the window is smaller than the page's minimum.
    Warning { area: Rect, min_width: u16, min_height: u16 },
    /// An empty block.
    Blank { area: Rect },
    /// The widget in column `x` of row `y` is drawn into `area`; its own
    /// shapes follow.
    Widget { x: usize, y: usize, area: Rect, popup: bool },
    /// A rounded border.
    Border { area: Rect, color: Color },
    /// A rounded border round a centred caption.
    Tab { area: Rect, color: Color, label: Label },
    /// A rounded border round two panes, the left one `left` percent wide.
    Panes { area: Rect, color: Color, left: u16 },
    /// The widget's list of lines, the picked line in `highlight`.
    List { area: Rect, highlight: Color },
    /// The details of entry `index` of the widget's list.
    Details { area: Rect, index: usize },
    /// The details of the widget's channel, video or playlist.
    Profile { area: Rect },
    /// The search text.
    Input { area: Rect, color: Color },
    /// The session's message.
    Message { area: Rect, color: Color },
    /// The search settings.
    Settings { area: Rect, color: Color },
}

impl Color {
    /// The colour of a widget's border: blue where it is selected, else red
    /// where the cursor is on it.
    pub open spec fn frame(selected: bool, hover: bool) -> Color {
        if selected {
            Color::LightBlue
        } else if hover {
            Color::LightRed
        } else {
            Color::Reset
        }
    }

    /// The colour of a tab: yellow where it is the open tab and the cursor is
    /// elsewhere, else that of a border.
    pub open spec fn tab(selected: bool, hover: bool, open: bool) -> Color {
        if !hover && open {
            Color::LightYellow
        } else {
            Color::frame(selected, hover)
        }
    }

    /// The colour of the picked line of a list.
    pub open spec fn picked(selected: bool) -> Color {
        if selected {
            Color::LightRed
        } else {
            Color::LightYellow
        }
    }

    /// Picks the colour of a widget's border.
    pub fn border(selected: bool, hover: bool) -> (color: Color)
        ensures
            color == Color::frame(selected, hover),
    {
        if selected {
            Color::LightBlue
        } else if hover {
            Color::LightRed
        } else {
            Color::Reset
        }
    }
}

impl Label {
    pub open spec fn caption(self) -> Seq<char> {
        match self {
            Label::Channel(ChannelPage::Home) => "Home"@,
            Label::Channel(ChannelPage::Playlists) => "Playlists"@,
            Label::Channel(ChannelPage::Videos) => "Videos"@,
            Label::MainMenu(MainMenuSelector::Trending) => "Trending"@,
            Label::MainMenu(MainMenuSelector::Popular) => "Popular"@,
            Label::MainMenu(MainMenuSelector::History) => "History"@,
        }
    }

    /// The text of the caption.
    pub fn text(&self) -> (text: &'static str)
        ensures
            text@ == self.caption(),
    {
        match self {
            Label::Channel(ChannelPage::Home) => "Home",
            Label::Channel(ChannelPage::Playlists) => "Playlists",
            Label::Channel(ChannelPage::Videos) => "Videos",
            Label::MainMenu(MainMenuSelector::Trending) => "Trending",
            Label::MainMenu(MainMenuSelector::Popular) => "Popular",
            Label::MainMenu(MainMenuSelector::History) => "History",
        }
    }
}

impl Shape {
    /// The area that the shape is drawn into.
    pub open spec fn place(self) -> Rect {
        match self {
            Shape::Warning { area, .. } => area,
            Shape::Blank { area } => area,
            Shape::Widget { area, .. } => area,
            Shape::Border { area, .. } => area,
            Shape::Tab { area, .. } => area,
            Shape::Panes { area, .. } => area,
            Shape::List { area, .. } => area,
            Shape::Details { area, .. } => area,
            Shape::Profile { area } => area,
            Shape::Input { area, .. } => area,
            Shape::Message { area, .. } => area,
            Shape::Settings { area, .. } => area,
        }
    }

    /// The area that the shape is drawn into.
    pub fn area(&self) -> (area: Rect)
        ensures
            area == self.place(),
    {
        match self {
            Shape::Warning { area, .. } => *area,
            Shape::Blank { area } => *area,
            Shape::Widget { area, .. } => *area,
            Shape::Border { area, .. } => *area,
            Shape::Tab { area, .. } => *area,
            Shape::Panes { area, .. } => *area,
            Shape::List { area, .. } => *area,
            Shape::Details { area, .. } => *area,
            Shape::Profile { area } => *area,
            Shape::Input { area, .. } => *area,
            Shape::Message { area, .. } => *area,
            Shape::Settings { area, .. } => *area,
        }
    }
}

/// Whether every shape of `shapes` is drawn inside `area`.
pub open spec fn shapes_within(shapes: Seq<Shape>, area: Rect) -> bool {
    forall|i: int| 0 <= i < shapes.len() ==> (#[trigger] shapes[i]).place().within(area)
}

/// The two panes inside a border round `area`: the left one takes `left`
/// percent of the inner width, rounded down, the right one the rest.
pub open spec fn pane_pair(area: Rect, left: int) -> (Rect, Rect) {
    let inner = area.shrunk();
    let share = if left >= 100 {
        inner.width as int
    } else {
        inner.width * left / 100
    };
    (
        Rect { x: inner.x, y: inner.y, width: share as u16, height: inner.height },
        Rect {
            x: if inner.x + share <= u16::MAX {
                (inner.x + share) as u16
            } else {
                u16::MAX
            },
            y: inner.y,
            width: (inner.width - share) as u16,
            height: inner.height,
        },
    )
}

/// Computes the two panes inside a border round `area`.
pub fn panes(area: Rect, left: u16) -> (pair: (Rect, Rect))
    ensures
        pair == pane_pair(area, left as int),
{
    let inner = inner(area);
    let share: u16 = if left >= 100 {
        inner.width
    } else {
        assert(inner.width * left / 100 <= inner.width) by (nonlinear_arith)
            requires
                0 <= left < 100,
                0 <= inner.width,
        ;
        ((inner.width as u32) * (left as u32) / 100) as u16
    };
    let x: u16 = if inner.x as u32 + share as u32 <= 65535 {
        inner.x + share
    } else {
        65535
    };
    (
        Rect { x: inner.x, y: inner.y, width: share, height: inner.height },
        Rect { x, y: inner.y, width: inner.width - share, height: inner.height },
    )
}

/// The two panes of an area lie inside it.
pub proof fn lemma_panes_within(area: Rect, left: int)
    requires
        area.in_space(),
        0 <= left,
    ensures
        pane_pair(area, left).0.within(area),
        pane_pair(area, left).1.within(area),
        area.shrunk().within(area),
{
    let inner = area.shrunk();
    if left < 100 {
        assert(0 <= inner.width * left / 100 <= inner.width) by (nonlinear_arith)
            requires
                0 <= left < 100,
                0 <= inner.width,
        ;
    }
}

/// What a list with details beside it draws into `area`: the border round
/// its two panes, the details of the picked entry in the right pane where
/// there is such an entry, details are wanted and no popup has the focus,
/// and the list in the left pane.
pub open spec fn listing_shapes(
    list: TextList,
    entries: nat,
    area: Rect,
    left: int,
    details: bool,
    selected: bool,
    hover: bool,
    popup_focus: bool,
) -> Seq<Shape> {
    let pair = pane_pair(area, left);
    let frame = seq![
        Shape::Panes { area, color: Color::frame(selected, hover), left: left as u16 },
    ];
    let beside = if details && list.selected < entries && !popup_focus {
        seq![Shape::Details { area: pair.1, index: list.selected }]
    } else {
        Seq::empty()
    };
    frame + beside + seq![Shape::List { area: pair.0, highlight: Color::picked(selected) }]
}

/// The list after it was drawn into the left pane of `area`.
pub open spec fn listing_after(list: TextList, area: Rect, left: int) -> TextList {
    let pane = pane_pair(area, left).0;
    TextList { scroll: list.window(pane.height as int) as usize, height: pane.height, ..list }
}

/// Draws a list with details beside it.
pub fn draw_listing(
    list: &mut TextList,
    entries: usize,
    area: Rect,
    left: u16,
    details: bool,
    selected: bool,
    hover: bool,
    popup_focus: bool,
    shapes: &mut Vec<Shape>,
)
    ensures
        *final(list) == listing_after(*old(list), area, left as int),
        final(shapes)@ == old(shapes)@ + listing_shapes(
            *old(list),
            entries as nat,
            area,
            left as int,
            details,
            selected,
            hover,
            popup_focus,
        ),
{
    let pair = panes(area, left);
    let ghost before = shapes@;
    shapes.push(Shape::Panes { area, color: Color::border(selected, hover), left });
    list.area(pair.0);
    if details && list.selected < entries && !popup_focus {
        shapes.push(Shape::Details { area: pair.1, index: list.selected });
    }
    shapes.push(
        Shape::List {
            area: pair.0,
            highlight: if selected {
                Color::LightRed
            } else {
                Color::LightYellow
            },
        },
    );
    assert(shapes@ =~= before + listing_shapes(
        *old(list),
        entries as nat,
        area,
        left as int,
        details,
        selected,
        hover,
        popup_focus,
    ));
}

/// A list with details beside it is drawn inside its area.
pub proof fn lemma_listing_within(
    list: TextList,
    entries: nat,
    area: Rect,
    left: int,
    details: bool,
    selected: bool,
    hover: bool,
    popup_focus: bool,
    outer: Rect,
)
    requires
        area.in_space(),
        area.within(outer),
        0 <= left,
    ensures
        shapes_within(
            listing_shapes(list, entries, area, left, details, selected, hover, popup_focus),
            outer,
        ),
{
    lemma_panes_within(area, left);
    let pair = pane_pair(area, left);
    pair.0.lemma_within_within(area, outer);
    pair.1.lemma_within_within(area, outer);
}

/// What a display draws into `area` that has nothing to list: its border,
/// and inside it the details of what it holds, if it holds anything.
pub open spec fn display_shapes(
    area: Rect,
    filled: bool,
    selected: bool,
    hover: bool,
) -> Seq<Shape> {
    let frame = seq![Shape::Border { area, color: Color::frame(selected, hover) }];
    if filled {
        frame + seq![Shape::Profile { area: area.shrunk() }]
    } else {
        frame
    }
}

/// Draws a display that has nothing to list.
pub fn draw_display(area: Rect, filled: bool, selected: bool, hover: bool, shapes: &mut Vec<Shape>)
    ensures
        final(shapes)@ == old(shapes)@ + display_shapes(area, filled, selected, hover),
{
    let ghost before = shapes@;
    shapes.push(Shape::Border { area, color: Color::border(selected, hover) });
    if filled {
        shapes.push(Shape::Profile { area: inner(area) });
    }
    assert(shapes@ =~= before + display_shapes(area, filled, selected, hover));
}

/// A display that has nothing to list is drawn inside its area.
pub proof fn lemma_display_within(
    area: Rect,
    filled: bool,
    selected: bool,
    hover: bool,
    outer: Rect,
)
    requires
        area.in_space(),
        area.within(outer),
    ensures
        shapes_within(display_shapes(area, filled, selected, hover), outer),
{
    lemma_panes_within(area, 0);
    area.shrunk().lemma_within_within(area, outer);
}

/// What a tab draws into `area`.
pub open spec fn tab_shapes(
    area: Rect,
    label: Label,
    open: bool,
    selected: bool,
    hover: bool,
) -> Seq<Shape> {
    seq![Shape::Tab { area, color: Color::tab(selected, hover, open), label }]
}

/// Draws a tab.
pub fn draw_tab(
    area: Rect,
    label: Label,
    open: bool,
    selected: bool,
    hover: bool,
    shapes: &mut Vec<Shape>,
)
    ensures
        final(shapes)@ == old(shapes)@ + tab_shapes(area, label, open, selected, hover),
{
    let ghost before = shapes@;
    let color = if !hover && open {
        Color::LightYellow
    } else {
        Color::border(selected, hover)
    };
    shapes.push(Shape::Tab { area, color, label });
    assert(shapes@ =~= before + tab_shapes(area, label, open, selected, hover));
}

} // verus!
