//! The picture of a session: which shapes are drawn, where, and in which
//! order.

use crate::index::{lemma_index_kept, selectable_index};
use crate::layout::{
    all_within, filler, leading_filler, row_cut, split, Constraint, Direction, Rect,
};
use crate::page::Page;
use crate::session::{App, AppNoState, AppView};
use crate::shape::{shapes_within, Shape};
use crate::states::{grid_with, in_grid, Row, RowItem, RowView, State};
use vstd::prelude::*;

verus! {

/// A widget that waits to be drawn once more, on top of the others.
#[derive(Clone, Copy, Debug, PartialEq, Eq, Structural)]
pub struct Popup {
    pub x: usize,
    pub y: usize,
    pub area: Rect,
    pub selected: bool,
    pub hover: bool,
}

/// What the drawing reads of a session besides the grid.
pub struct Focus {
    pub page: Page,
    pub selected: Option<(usize, usize)>,
    /// The coordinate in the grid of the widget under the cursor.
    pub cursor: Option<(usize, usize)>,
    pub popup_focus: bool,
}

/// A picture while it is drawn: the grid, whose widgets take note of where
/// they are drawn, the shapes so far, and the widgets that wait to be
/// drawn on top.
#[verifier::ext_equal]
pub struct Canvas {
    pub grid: Seq<RowView>,
    pub shapes: Seq<Shape>,
    pub popups: Seq<Popup>,
}

/// The constraints of the widgets of a row.
pub open spec fn widths(items: Seq<RowItem>) -> Seq<Constraint> {
    Seq::new(items.len(), |x: int| items[x].constraint)
}

/// The constraints of the rows of a grid.
pub open spec fn heights(grid: Seq<RowView>) -> Seq<Constraint> {
    Seq::new(grid.len(), |y: int| grid[y].height)
}

/// Whether `chunks` has, for each row of the grid, one rectangle for the
/// leading filler, one for each widget, and one for the trailing filler.
pub open spec fn fits(chunks: Seq<Seq<Rect>>, grid: Seq<RowView>) -> bool {
    &&& chunks.len() == grid.len()
    &&& forall|y: int|
        0 <= y < grid.len() ==> (#[trigger] chunks[y]).len() == grid[y].items.len() + 2
}

/// Whether every rectangle of `chunks` lies inside `area`.
pub open spec fn inside(chunks: Seq<Seq<Rect>>, area: Rect) -> bool {
    forall|y: int| 0 <= y < chunks.len() ==> all_within(#[trigger] chunks[y], area)
}

/// The rectangles of each row as mathematical values.
pub open spec fn chunks_view(chunks: Seq<Vec<Rect>>) -> Seq<Seq<Rect>> {
    Seq::new(chunks.len(), |y: int| chunks[y]@)
}

/// The picture after the widget in column `x` of row `y` was drawn into
/// `area`: a mark that names the widget, then the widget's own shapes. A
/// widget that asks for it is put in the queue.
pub open spec fn draw_cell(c: Canvas, f: Focus, x: int, y: int, area: Rect) -> Canvas {
    let item = c.grid[y].items[x].item;
    let selected = f.selected == Some((x as usize, y as usize));
    let hover = f.cursor == Some((x as usize, y as usize));
    Canvas {
        grid: grid_with(c.grid, x, y, item.after_draw(area)),
        shapes: c.shapes.push(Shape::Widget { x: x as usize, y: y as usize, area, popup: false })
            + item.drawn(area, f.page, selected, hover, f.popup_focus, false),
        popups: if item.wants_popup(selected) {
            c.popups.push(Popup { x: x as usize, y: y as usize, area, selected, hover })
        } else {
            c.popups
        },
    }
}

/// The picture after the leading filler and the first `n` widgets of row
/// `y` were drawn: the filler into the first rectangle, as an empty block,
/// each widget into the rectangle after that of the one before.
pub open spec fn draw_row(c: Canvas, f: Focus, y: int, chunks: Seq<Rect>, n: nat) -> Canvas
    decreases n,
{
    if n == 0 {
        Canvas { shapes: c.shapes.push(Shape::Blank { area: chunks[0] }), ..c }
    } else {
        draw_cell(draw_row(c, f, y, chunks, (n - 1) as nat), f, n - 1, y, chunks[n as int])
    }
}

/// The picture after the first `m` rows were drawn.
pub open spec fn draw_rows(c: Canvas, f: Focus, chunks: Seq<Seq<Rect>>, m: nat) -> Canvas
    decreases m,
{
    if m == 0 {
        c
    } else {
        let before = draw_rows(c, f, chunks, (m - 1) as nat);
        draw_row(before, f, m - 1, chunks[m - 1], before.grid[m - 1].items.len())
    }
}

/// The picture after a widget of the queue was drawn on top: into the
/// rectangle it was drawn into before, with the popup in focus.
pub open spec fn draw_popup(c: Canvas, f: Focus, p: Popup) -> Canvas {
    let item = c.grid[p.y as int].items[p.x as int].item;
    Canvas {
        grid: grid_with(c.grid, p.x as int, p.y as int, item.after_draw(p.area)),
        shapes: c.shapes.push(Shape::Widget { x: p.x, y: p.y, area: p.area, popup: true })
            + item.drawn(p.area, f.page, p.selected, p.hover, true, true),
        popups: c.popups,
    }
}

/// The picture after the first `k` widgets of the queue were drawn on top.
pub open spec fn draw_popups(c: Canvas, f: Focus, k: nat) -> Canvas
    decreases k,
{
    if k == 0 {
        c
    } else {
        draw_popup(draw_popups(c, f, (k - 1) as nat), f, c.popups[k - 1])
    }
}

/// The whole picture: every row in its order, then every widget of the
/// queue in the order in which it was put there.
pub open spec fn painted(grid: Seq<RowView>, f: Focus, chunks: Seq<Seq<Rect>>) -> Canvas {
    let first = draw_rows(
        Canvas { grid, shapes: Seq::empty(), popups: Seq::empty() },
        f,
        chunks,
        grid.len(),
    );
    draw_popups(first, f, first.popups.len())
}

impl Row {
    /// Builds the constraints by which the row is cut in a window `width`
    /// cells wide.
    pub fn constraints(&self, width: u16) -> (cut: Vec<Constraint>)
        ensures
            cut@ == row_cut(widths(self.items@), self.centered, width as int),
    {
        let mut sizes: Vec<Constraint> = Vec::new();
        let mut x: usize = 0;
        while x < self.items.len()
            invariant
                x <= self.items@.len(),
                sizes@.len() == x,
                forall|i: int| 0 <= i < x ==> sizes@[i] == widths(self.items@)[i],
            decreases self.items.len() - x,
        {
            sizes.push(self.items[x].constraint);
            x = x + 1;
        }
        assert(sizes@ =~= widths(self.items@));
        let mut cut: Vec<Constraint> = Vec::new();
        cut.push(filler(&sizes, self.centered, width));
        let mut i: usize = 0;
        while i < sizes.len()
            invariant
                i <= sizes@.len(),
                cut@.len() == i + 1,
                cut@[0] == leading_filler(sizes@, self.centered, width as int),
                forall|j: int| 0 <= j < i ==> cut@[j + 1] == sizes@[j],
            decreases sizes.len() - i,
        {
            cut.push(sizes[i]);
            i = i + 1;
        }
        cut.push(Constraint::Length(0));
        assert(cut@ =~= row_cut(sizes@, self.centered, width as int));
        cut
    }
}

impl State {
    /// Lists the constraints by which a window is cut into the rows of the
    /// grid: the height of each row, in row order.
    pub fn heights(&self) -> (tall: Vec<Constraint>)
        ensures
            tall@ == heights(self@),
    {
        let mut tall: Vec<Constraint> = Vec::new();
        let mut y: usize = 0;
        while y < self.0.len()
            invariant
                y <= self.0@.len(),
                tall@.len() == y,
                forall|j: int| 0 <= j < y ==> tall@[j] == heights(self@)[j],
            decreases self.0.len() - y,
        {
            tall.push(self.0[y].height);
            y = y + 1;
        }
        assert(tall@ =~= heights(self@));
        tall
    }
}

impl AppView {
    /// Whether a window of `size` is smaller than the open page asks for.
    pub open spec fn too_small(self, size: Rect) -> bool {
        size.width < self.config.of(self.page).min.0 || size.height < self.config.of(
            self.page,
        ).min.1
    }

    /// What the drawing reads of the session besides the grid.
    pub open spec fn focus(self) -> Focus {
        Focus {
            page: self.page,
            selected: self.selected,
            cursor: if self.hover.is_some() {
                Some(self.under_cursor())
            } else {
                None
            },
            popup_focus: self.popup_focus,
        }
    }

    /// The session after it was drawn into `chunks`.
    pub open spec fn drawn_in(self, chunks: Seq<Seq<Rect>>) -> AppView {
        AppView { state: painted(self.state, self.focus(), chunks).grid, ..self }
    }
}

/// Whether two grids have widgets in the same places that can take focus
/// alike.
pub open spec fn alike(a: Seq<RowView>, b: Seq<RowView>) -> bool {
    &&& a.len() == b.len()
    &&& forall|y: int| 0 <= y < a.len() ==> (#[trigger] a[y]).items.len() == b[y].items.len()
    &&& forall|x: int, y: int|
        in_grid(a, x, y) ==> (#[trigger] a[y].items[x]).item.can_focus()
            == b[y].items[x].item.can_focus()
    &&& selectable_index(a) == selectable_index(b)
}

/// Drawing a widget leaves the grid alike.
pub proof fn lemma_alike_drawn(a: Seq<RowView>, b: Seq<RowView>, x: int, y: int, area: Rect)
    requires
        alike(a, b),
        in_grid(a, x, y),
    ensures
        alike(grid_with(a, x, y, a[y].items[x].item.after_draw(area)), b),
{
    let item = a[y].items[x].item;
    item.lemma_focus_drawn(area);
    lemma_index_kept(a, x, y, item.after_draw(area));
}

impl App {
    /// Cuts a window of `size` into the rectangles of the grid: the window
    /// into rows by their heights, then each row by its leading filler, the
    /// widths of its widgets and a trailing filler. The toolkit decides
    /// where the cuts fall, inside the window. A window that does not end
    /// inside the 16-bit coordinate space is not cut: the answer is `None`.
    pub fn layout(&self, size: Rect) -> (chunks: Option<Vec<Vec<Rect>>>)
        ensures
            chunks.is_some() == size.in_space(),
            chunks matches Some(list) ==> fits(chunks_view(list@), self@.state) && inside(
                chunks_view(list@),
                size,
            ),
    {
        let tall = self.state.heights();
        let rows = match split(Direction::Vertical, &tall, size) {
            Some(rows) => rows,
            None => {
                return None;
            },
        };
        let mut all: Vec<Vec<Rect>> = Vec::new();
        let mut y: usize = 0;
        while y < self.state.0.len()
            invariant
                y <= self.state.0@.len(),
                size.in_space(),
                rows@.len() == self.state.0@.len(),
                all_within(rows@, size),
                all@.len() == y,
                forall|j: int|
                    0 <= j < y ==> (#[trigger] all@[j])@.len() == self@.state[j].items.len() + 2,
                forall|j: int| 0 <= j < y ==> all_within((#[trigger] all@[j])@, size),
            decreases self.state.0.len() - y,
        {
            let cut = self.state.0[y].constraints(size.width);
            let row = rows[y];
            assert(row.within(size));
            match split(Direction::Horizontal, &cut, row) {
                Some(spots) => {
                    assert forall|i: int| 0 <= i < spots@.len() implies (#[trigger] spots@[i]).within(
                        size,
                    ) by {
                        spots@[i].lemma_within_within(row, size);
                    }
                    all.push(spots);
                },
                None => {
                    return None;
                },
            }
            y = y + 1;
        }
        proof {
            let spaces = chunks_view(all@);
            assert forall|j: int| 0 <= j < self@.state.len() implies (#[trigger] spaces[j]).len()
                == self@.state[j].items.len() + 2 by {
                assert(all@[j]@.len() == self@.state[j].items.len() + 2);
            }
            assert forall|j: int| 0 <= j < spaces.len() implies all_within(
                #[trigger] spaces[j],
                size,
            ) by {
                assert(all_within(all@[j]@, size));
            }
        }
        Some(all)
    }

    /// Draws the session into `chunks`, which holds for each row the
    /// rectangles that the row was cut into. The result is the session,
    /// whose widgets have taken note of where they are drawn, and the
    /// shapes in the order in which they are to be painted.
    pub fn paint(self, chunks: &Vec<Vec<Rect>>) -> (done: (App, Vec<Shape>))
        requires
            self.wf(),
            fits(chunks_view(chunks@), self@.state),
        ensures
            done.0@ == self@.drawn_in(chunks_view(chunks@)),
            done.1@ == painted(self@.state, self@.focus(), chunks_view(chunks@)).shapes,
            done.0.wf(),
    {
        let ghost before = self@;
        let ghost f = before.focus();
        let ghost spaces = chunks_view(chunks@);
        let ghost blank = Canvas { grid: before.state, shapes: Seq::empty(), popups: Seq::empty() };
        let cursor: Option<(usize, usize)> = match self.hover {
            Some((hx, hy)) => Some(self.selectable[hy][hx]),
            None => None,
        };
        let (rest, mut state) = AppNoState::split(self);
        let mut shapes: Vec<Shape> = Vec::new();
        let mut popups: Vec<Popup> = Vec::new();
        let mut y: usize = 0;
        while y < state.0.len()
            invariant
                y <= state.0@.len(),
                spaces == chunks_view(chunks@),
                fits(spaces, before.state),
                alike(state@, before.state),
                f.page == rest.page,
                f.selected == rest.selected,
                f.cursor == cursor,
                f.popup_focus == rest.popup_focus,
                (Canvas { grid: state@, shapes: shapes@, popups: popups@ }) == draw_rows(
                    blank,
                    f,
                    spaces,
                    y as nat,
                ),
                forall|k: int|
                    0 <= k < popups@.len() ==> in_grid(
                        before.state,
                        (#[trigger] popups@[k]).x as int,
                        popups@[k].y as int,
                    ),
            decreases state.0.len() - y,
        {
            let spots = &chunks[y];
            let ghost row_start = Canvas { grid: state@, shapes: shapes@, popups: popups@ };
            assert(spots@ == spaces[y as int]);
            assert(state@[y as int].items.len() == before.state[y as int].items.len());
            shapes.push(Shape::Blank { area: spots[0] });
            let width: usize = state.0[y].items.len();
            let mut x: usize = 0;
            while x < width
                invariant
                    y < state.0@.len(),
                    y < spaces.len(),
                    x <= width,
                    width == before.state[y as int].items.len(),
                    spots@ == spaces[y as int],
                    spots@.len() == width + 2,
                    alike(state@, before.state),
                    f.page == rest.page,
                    f.selected == rest.selected,
                    f.cursor == cursor,
                    f.popup_focus == rest.popup_focus,
                    (Canvas { grid: state@, shapes: shapes@, popups: popups@ }) == draw_row(
                        row_start,
                        f,
                        y as int,
                        spaces[y as int],
                        x as nat,
                    ),
                    forall|k: int|
                        0 <= k < popups@.len() ==> in_grid(
                            before.state,
                            (#[trigger] popups@[k]).x as int,
                            popups@[k].y as int,
                        ),
                decreases width - x,
            {
                let area = spots[x + 1];
                let selected: bool = match rest.selected {
                    Some((a, b)) => a == x && b == y,
                    None => false,
                };
                let hover: bool = match cursor {
                    Some((a, b)) => a == x && b == y,
                    None => false,
                };
                let ghost prev = Canvas { grid: state@, shapes: shapes@, popups: popups@ };
                assert(state@[y as int].items.len() == before.state[y as int].items.len());
                shapes.push(Shape::Widget { x, y, area, popup: false });
                let popup = state.0[y].items[x].item.render_item(
                    area,
                    &rest.page,
                    selected,
                    hover,
                    rest.popup_focus,
                    false,
                    &mut shapes,
                );
                if popup {
                    popups.push(Popup { x, y, area, selected, hover });
                }
                proof {
                    lemma_alike_drawn(prev.grid, before.state, x as int, y as int, area);
                    let next = draw_cell(prev, f, x as int, y as int, area);
                    assert(state@[y as int].items =~= next.grid[y as int].items);
                    assert(state@ =~= next.grid);
                    assert(shapes@ =~= next.shapes);
                    assert(popups@ =~= next.popups);
                }
                x = x + 1;
            }
            y = y + 1;
        }
        let ghost first = Canvas { grid: state@, shapes: shapes@, popups: popups@ };
        let mut k: usize = 0;
        while k < popups.len()
            invariant
                k <= popups@.len(),
                popups@ == first.popups,
                alike(state@, before.state),
                f.page == rest.page,
                (Canvas { grid: state@, shapes: shapes@, popups: popups@ }) == draw_popups(
                    first,
                    f,
                    k as nat,
                ),
                forall|k: int|
                    0 <= k < popups@.len() ==> in_grid(
                        before.state,
                        (#[trigger] popups@[k]).x as int,
                        popups@[k].y as int,
                    ),
            decreases popups.len() - k,
        {
            let p = popups[k];
            let ghost prev = Canvas { grid: state@, shapes: shapes@, popups: popups@ };
            assert(in_grid(before.state, popups@[k as int].x as int, popups@[k as int].y as int));
            assert(state@[p.y as int].items.len() == before.state[p.y as int].items.len());
            shapes.push(Shape::Widget { x: p.x, y: p.y, area: p.area, popup: true });
            let _ = state.0[p.y].items[p.x].item.render_item(
                p.area,
                &rest.page,
                p.selected,
                p.hover,
                true,
                true,
                &mut shapes,
            );
            proof {
                lemma_alike_drawn(prev.grid, before.state, p.x as int, p.y as int, p.area);
                let next = draw_popup(prev, f, p);
                assert(state@[p.y as int].items =~= next.grid[p.y as int].items);
                assert(state@ =~= next.grid);
                assert(shapes@ =~= next.shapes);
            }
            k = k + 1;
        }
        proof {
            state.lemma_fits();
        }
        let app = AppNoState::join(rest, state);
        (app, shapes)
    }

    /// Draws the session into a window of `size`. In a window smaller than
    /// the page asks for, only the warning is drawn. Otherwise the window
    /// is cut and every widget drawn into its rectangle. Nothing is drawn
    /// into a window that does not end inside the 16-bit coordinate space.
    /// Whatever the grid holds, every shape lies inside the window.
    pub fn render(self, size: Rect) -> (done: (App, Vec<Shape>))
        requires
            self.wf(),
        ensures
            done.0.wf(),
            shapes_within(done.1@, size),
            self@.too_small(size) ==> done.0@ == self@ && done.1@ == seq![
                Shape::Warning {
                    area: size,
                    min_width: self@.config.of(self@.page).min.0,
                    min_height: self@.config.of(self@.page).min.1,
                },
            ],
            !self@.too_small(size) && !size.in_space() ==> done.0@ == self@ && done.1@.len() == 0,
            !self@.too_small(size) && size.in_space() ==> exists|chunks: Seq<Seq<Rect>>|
                #[trigger] fits(chunks, self@.state) && inside(chunks, size) && done.0@
                    == self@.drawn_in(chunks) && done.1@ == painted(
                    self@.state,
                    self@.focus(),
                    chunks,
                ).shapes,
    {
        let min = self.page.min(&self.config);
        let mut shapes: Vec<Shape> = Vec::new();
        if size.width < min.0 || size.height < min.1 {
            shapes.push(Shape::Warning { area: size, min_width: min.0, min_height: min.1 });
            assert(shapes@ =~= seq![
                Shape::Warning { area: size, min_width: min.0, min_height: min.1 },
            ]);
            return (self, shapes);
        }
        match self.layout(size) {
            Some(chunks) => {
                let ghost spaces = chunks_view(chunks@);
                proof {
                    lemma_painted_within(self@.state, self@.focus(), spaces, size);
                }
                let done = self.paint(&chunks);
                assert(fits(spaces, self@.state) && inside(spaces, size) && done.0@
                    == self@.drawn_in(spaces));
                done
            },
            None => (self, shapes),
        }
    }
}

/// Whether two grids have as many rows, and in each row as many widgets.
pub open spec fn same_shape(a: Seq<RowView>, b: Seq<RowView>) -> bool {
    &&& a.len() == b.len()
    &&& forall|y: int| 0 <= y < a.len() ==> (#[trigger] a[y]).items.len() == b[y].items.len()
}

/// Whether everything that a picture holds so far lies inside `area`: the
/// shapes, and the rectangles of the widgets that wait to be drawn on top.
pub open spec fn canvas_within(c: Canvas, area: Rect) -> bool {
    &&& shapes_within(c.shapes, area)
    &&& forall|k: int| 0 <= k < c.popups.len() ==> (#[trigger] c.popups[k]).area.within(area)
}

proof fn lemma_draw_cell_within(c: Canvas, f: Focus, x: int, y: int, area: Rect, size: Rect)
    requires
        canvas_within(c, size),
        in_grid(c.grid, x, y),
        area.within(size),
        size.in_space(),
    ensures
        canvas_within(draw_cell(c, f, x, y, area), size),
        same_shape(draw_cell(c, f, x, y, area).grid, c.grid),
{
    let item = c.grid[y].items[x].item;
    let selected = f.selected == Some((x as usize, y as usize));
    let hover = f.cursor == Some((x as usize, y as usize));
    item.lemma_drawn_within(area, f.page, selected, hover, f.popup_focus, false, size);
}

proof fn lemma_draw_row_within(c: Canvas, f: Focus, y: int, chunks: Seq<Rect>, n: nat, size: Rect)
    requires
        canvas_within(c, size),
        0 <= y < c.grid.len(),
        n <= c.grid[y].items.len(),
        n < chunks.len(),
        all_within(chunks, size),
        size.in_space(),
    ensures
        canvas_within(draw_row(c, f, y, chunks, n), size),
        same_shape(draw_row(c, f, y, chunks, n).grid, c.grid),
    decreases n,
{
    if n > 0 {
        lemma_draw_row_within(c, f, y, chunks, (n - 1) as nat, size);
        let before = draw_row(c, f, y, chunks, (n - 1) as nat);
        assert(before.grid[y].items.len() == c.grid[y].items.len());
        lemma_draw_cell_within(before, f, n - 1, y, chunks[n as int], size);
        let after = draw_cell(before, f, n - 1, y, chunks[n as int]);
        assert forall|j: int| 0 <= j < after.grid.len() implies (#[trigger] after.grid[j]).items.len()
            == c.grid[j].items.len() by {
            assert(before.grid[j].items.len() == c.grid[j].items.len());
        }
    } else {
        assert(chunks[0].within(size));
    }
}

proof fn lemma_draw_rows_within(
    c: Canvas,
    f: Focus,
    chunks: Seq<Seq<Rect>>,
    m: nat,
    size: Rect,
)
    requires
        canvas_within(c, size),
        m <= c.grid.len(),
        fits(chunks, c.grid),
        inside(chunks, size),
        size.in_space(),
    ensures
        canvas_within(draw_rows(c, f, chunks, m), size),
        same_shape(draw_rows(c, f, chunks, m).grid, c.grid),
    decreases m,
{
    if m > 0 {
        lemma_draw_rows_within(c, f, chunks, (m - 1) as nat, size);
        let before = draw_rows(c, f, chunks, (m - 1) as nat);
        assert(before.grid[m - 1].items.len() == c.grid[m - 1].items.len());
        assert(chunks[m - 1].len() == c.grid[m - 1].items.len() + 2);
        assert(all_within(chunks[m - 1], size));
        lemma_draw_row_within(
            before,
            f,
            m - 1,
            chunks[m - 1],
            before.grid[m - 1].items.len(),
            size,
        );
        let after = draw_rows(c, f, chunks, m);
        assert forall|j: int| 0 <= j < after.grid.len() implies (#[trigger] after.grid[j]).items.len()
            == c.grid[j].items.len() by {
            assert(before.grid[j].items.len() == c.grid[j].items.len());
        }
    }
}

proof fn lemma_draw_popups_within(c: Canvas, f: Focus, k: nat, size: Rect)
    requires
        canvas_within(c, size),
        k <= c.popups.len(),
        size.in_space(),
    ensures
        canvas_within(draw_popups(c, f, k), size),
        draw_popups(c, f, k).popups == c.popups,
    decreases k,
{
    if k > 0 {
        lemma_draw_popups_within(c, f, (k - 1) as nat, size);
        let before = draw_popups(c, f, (k - 1) as nat);
        let p = c.popups[k - 1];
        let item = before.grid[p.y as int].items[p.x as int].item;
        item.lemma_drawn_within(p.area, f.page, p.selected, p.hover, true, true, size);
    }
}

/// Whatever the grid holds: where every rectangle that the window was cut
/// into lies inside the window, so does every shape of the picture.
pub proof fn lemma_painted_within(
    grid: Seq<RowView>,
    f: Focus,
    chunks: Seq<Seq<Rect>>,
    size: Rect,
)
    requires
        fits(chunks, grid),
        inside(chunks, size),
        size.in_space(),
    ensures
        shapes_within(painted(grid, f, chunks).shapes, size),
{
    let blank = Canvas { grid, shapes: Seq::empty(), popups: Seq::empty() };
    lemma_draw_rows_within(blank, f, chunks, grid.len(), size);
    let first = draw_rows(blank, f, chunks, grid.len());
    lemma_draw_popups_within(first, f, first.popups.len(), size);
}

} // verus!
