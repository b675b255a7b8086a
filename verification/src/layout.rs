//! Rectangles, size constraints, the filler that centres a row, and the two
//! calls into the terminal toolkit that turn constraints into rectangles.

use tui::layout::{Constraint as Size, Direction as Axis, Layout, Rect as Area};
use tui::widgets::{Block, Borders};
use vstd::prelude::*;

verus! {

/// A rectangle of terminal cells.
#[derive(Clone, Copy, Debug, PartialEq, Eq, Structural)]
pub struct Rect {
    pub x: u16,
    pub y: u16,
    pub width: u16,
    pub height: u16,
}

/// How much of the available space a row or a widget asks for.
#[derive(Clone, Copy, Debug, PartialEq, Eq, Structural)]
pub enum Constraint {
    Percentage(u16),
    Length(u16),
    Max(u16),
    Min(u16),
}

/// The axis along which an area is cut.
#[derive(Clone, Copy, Debug, PartialEq, Eq, Structural)]
pub enum Direction {
    Horizontal,
    Vertical,
}

/// The part of the span from `start` of `length` cells that lies between
/// `low` and `high`: where it starts, and how long it is. A span that lies
/// outside is left with no cells, at the nearer end.
pub open spec fn clipped_span(start: int, length: int, low: int, high: int) -> (int, int) {
    let from = if start < low {
        low
    } else if start > high {
        high
    } else {
        start
    };
    let end = start + length;
    let to = if end < from {
        from
    } else if end > high {
        high
    } else {
        end
    };
    (from, to - from)
}

/// Computes the part of a span that lies between `low` and `high`.
fn clip_span(start: u16, length: u16, low: u16, high: u16) -> (part: (u16, u16))
    requires
        low <= high,
    ensures
        part.0 == clipped_span(start as int, length as int, low as int, high as int).0,
        part.1 == clipped_span(start as int, length as int, low as int, high as int).1,
{
    let from: u16 = if start < low {
        low
    } else if start > high {
        high
    } else {
        start
    };
    let end: u32 = start as u32 + length as u32;
    let to: u32 = if end < from as u32 {
        from as u32
    } else if end > high as u32 {
        high as u32
    } else {
        end
    };
    (from, (to - from as u32) as u16)
}

impl Rect {
    /// The length of the rectangle along `direction`.
    pub open spec fn extent(self, direction: Direction) -> int {
        match direction {
            Direction::Horizontal => self.width as int,
            Direction::Vertical => self.height as int,
        }
    }

    /// Whether the rectangle ends inside the 16-bit coordinate space.
    pub open spec fn in_space(self) -> bool {
        self.x + self.width <= u16::MAX && self.y + self.height <= u16::MAX
    }

    /// Whether the rectangle lies inside `outer`.
    pub open spec fn within(self, outer: Rect) -> bool {
        &&& outer.x <= self.x
        &&& self.x + self.width <= outer.x + outer.width
        &&& outer.y <= self.y
        &&& self.y + self.height <= outer.y + outer.height
    }

    /// The rectangle that is left inside a border of one cell on every side.
    pub open spec fn shrunk(self) -> Rect {
        Rect {
            x: if self.x + 1 <= u16::MAX && 1 <= self.width {
                (self.x + 1) as u16
            } else {
                self.x
            },
            y: if self.y + 1 <= u16::MAX && 1 <= self.height {
                (self.y + 1) as u16
            } else {
                self.y
            },
            width: if self.width >= 2 {
                (self.width - 2) as u16
            } else {
                0
            },
            height: if self.height >= 2 {
                (self.height - 2) as u16
            } else {
                0
            },
        }
    }

    /// The part of the rectangle that lies inside `outer`.
    pub open spec fn clipped(self, outer: Rect) -> Rect {
        let across = clipped_span(
            self.x as int,
            self.width as int,
            outer.x as int,
            outer.x + outer.width,
        );
        let down = clipped_span(
            self.y as int,
            self.height as int,
            outer.y as int,
            outer.y + outer.height,
        );
        Rect { x: across.0 as u16, y: down.0 as u16, width: across.1 as u16, height: down.1 as u16 }
    }

    /// Tests whether the rectangle ends inside the 16-bit coordinate space.
    pub fn fits(&self) -> (inside: bool)
        ensures
            inside == self.in_space(),
    {
        self.x as u32 + self.width as u32 <= 65535 && self.y as u32 + self.height as u32 <= 65535
    }

    /// Cuts off what lies outside `outer`. A rectangle inside `outer` stays
    /// as it is.
    pub fn clip(&self, outer: Rect) -> (part: Rect)
        requires
            outer.in_space(),
        ensures
            part == self.clipped(outer),
            part.within(outer),
            self.within(outer) ==> part == *self,
    {
        let across = clip_span(self.x, self.width, outer.x, outer.x + outer.width);
        let down = clip_span(self.y, self.height, outer.y, outer.y + outer.height);
        Rect { x: across.0, y: down.0, width: across.1, height: down.1 }
    }

    /// A rectangle inside a rectangle that is inside a third is inside the
    /// third.
    pub proof fn lemma_within_within(self, middle: Rect, outer: Rect)
        requires
            self.within(middle),
            middle.within(outer),
        ensures
            self.within(outer),
    {
    }
}

impl Constraint {
    /// The cells that the constraint counts for when a row of `width` cells
    /// is centred: its number, or its percentage of the width, rounded down.
    pub open spec fn claim(self, width: int) -> int {
        match self {
            Constraint::Percentage(p) => width * p / 100,
            Constraint::Length(l) => l as int,
            Constraint::Max(l) => l as int,
            Constraint::Min(l) => l as int,
        }
    }

    /// Computes the cells that the constraint counts for in a centred row
    /// of `width` cells.
    pub fn claimed(&self, width: u16) -> (cells: u32)
        ensures
            cells == self.claim(width as int),
    {
        match self {
            Constraint::Percentage(p) => {
                assert(width * *p <= 65535 * 65535) by (nonlinear_arith)
                    requires
                        width <= 65535,
                        *p <= 65535,
                ;
                let product: u32 = (width as u32) * (*p as u32);
                product / 100
            },
            Constraint::Length(l) => *l as u32,
            Constraint::Max(l) => *l as u32,
            Constraint::Min(l) => *l as u32,
        }
    }

    /// The constraint as it is handed to the toolkit to cut a length of
    /// `extent` cells. The toolkit multiplies a percentage by the length in
    /// 16 bits; a percentage for which that overflows is handed over as
    /// the number of cells it stands for, rounded down, and at most the
    /// largest 16-bit number.
    pub open spec fn tamed(self, extent: int) -> Constraint {
        match self {
            Constraint::Percentage(p) => if p * extent <= u16::MAX {
                self
            } else if p * extent / 100 <= u16::MAX {
                Constraint::Length((p * extent / 100) as u16)
            } else {
                Constraint::Length(u16::MAX)
            },
            _ => self,
        }
    }

    /// Computes the constraint as it is handed to the toolkit.
    pub fn tame(&self, extent: u16) -> (safe: Constraint)
        ensures
            safe == self.tamed(extent as int),
    {
        match self {
            Constraint::Percentage(p) => {
                assert(*p * extent <= 65535 * 65535) by (nonlinear_arith)
                    requires
                        *p <= 65535,
                        extent <= 65535,
                ;
                let product: u32 = (*p as u32) * (extent as u32);
                if product <= 65535 {
                    *self
                } else if product / 100 <= 65535 {
                    Constraint::Length((product / 100) as u16)
                } else {
                    Constraint::Length(65535)
                }
            },
            _ => *self,
        }
    }
}

/// The cells that the first `n` constraints of a centred row count for.
pub open spec fn claims(items: Seq<Constraint>, width: int, n: int) -> int
    decreases n,
{
    if n <= 0 {
        0
    } else {
        claims(items, width, n - 1) + items[n - 1].claim(width)
    }
}

/// The filler in front of a row: half of the cells that the items leave
/// free, rounded down, where the row is centred and its items fit; otherwise
/// nothing.
pub open spec fn leading_filler(items: Seq<Constraint>, centered: bool, width: int) -> Constraint {
    let sum = claims(items, width, items.len() as int);
    if centered && sum <= width {
        Constraint::Length(((width - sum) / 2) as u16)
    } else {
        Constraint::Length(0)
    }
}

/// The constraints by which a row is cut: the leading filler, the items in
/// their order, and a trailing filler of no cells.
pub open spec fn row_cut(items: Seq<Constraint>, centered: bool, width: int) -> Seq<Constraint> {
    seq![leading_filler(items, centered, width)] + items + seq![Constraint::Length(0)]
}

/// What the constraints of a row count for is never negative, and grows
/// with every constraint that is counted in.
pub proof fn lemma_claims_grow(items: Seq<Constraint>, width: int, i: int, j: int)
    requires
        0 <= width,
        0 <= i <= j <= items.len(),
    ensures
        0 <= claims(items, width, i) <= claims(items, width, j),
    decreases j,
{
    if j > 0 {
        if i < j {
            lemma_claims_grow(items, width, i, j - 1);
        } else {
            lemma_claims_grow(items, width, i - 1, j - 1);
        }
        let c = items[j - 1];
        assert(c.claim(width) >= 0) by (nonlinear_arith)
            requires
                0 <= width,
                c.claim(width) == match c {
                    Constraint::Percentage(p) => width * p / 100,
                    Constraint::Length(l) => l as int,
                    Constraint::Max(l) => l as int,
                    Constraint::Min(l) => l as int,
                },
        ;
    }
}

/// Computes the leading filler of a row of `width` cells.
pub fn filler(items: &Vec<Constraint>, centered: bool, width: u16) -> (first: Constraint)
    ensures
        first == leading_filler(items@, centered, width as int),
{
    if !centered {
        return Constraint::Length(0);
    }
    let mut sum: u32 = 0;
    let mut i: usize = 0;
    while i < items.len()
        invariant
            i <= items.len(),
            sum == claims(items@, width as int, i as int),
            sum <= width,
        decreases items.len() - i,
    {
        let cells: u32 = items[i].claimed(width);
        assert(cells <= 65535 * 65535) by (nonlinear_arith)
            requires
                cells == items@[i as int].claim(width as int),
                width <= 65535,
                match items@[i as int] {
                    Constraint::Percentage(p) => cells == width * p / 100 && p <= 65535,
                    Constraint::Length(l) => cells == l,
                    Constraint::Max(l) => cells == l,
                    Constraint::Min(l) => cells == l,
                },
        ;
        if cells > width as u32 - sum {
            proof {
                lemma_claims_grow(items@, width as int, i + 1, items@.len() as int);
            }
            return Constraint::Length(0);
        }
        sum = sum + cells;
        i = i + 1;
    }
    Constraint::Length((width - sum as u16) / 2)
}

/// The constraints as they are handed to the toolkit to cut a length of
/// `extent` cells.
pub open spec fn tamed_all(constraints: Seq<Constraint>, extent: int) -> Seq<Constraint> {
    Seq::new(constraints.len(), |i: int| constraints[i].tamed(extent))
}

/// Whether every rectangle of `chunks` lies inside `area`.
pub open spec fn all_within(chunks: Seq<Rect>, area: Rect) -> bool {
    forall|i: int| 0 <= i < chunks.len() ==> (#[trigger] chunks[i]).within(area)
}

/// Whether the toolkit can cut `area` by `constraints` along `direction`:
/// the area ends inside the 16-bit coordinate space, and every percentage
/// times the length that is cut fits in 16 bits.
pub open spec fn can_cut(direction: Direction, constraints: Seq<Constraint>, area: Rect) -> bool {
    &&& area.x + area.width <= u16::MAX
    &&& area.y + area.height <= u16::MAX
    &&& forall|i: int|
        0 <= i < constraints.len() ==> (#[trigger] constraints[i] matches Constraint::Percentage(p)
            ==> p * area.extent(direction) <= u16::MAX)
}

/// `tui::layout::Layout::split`, with no margin: the toolkit's constraint
/// solver cuts `area` along `direction`. The solver walks hash maps, so equal
/// calls need not give equal rectangles; all that is claimed is that one
/// rectangle comes back for each constraint. The inputs that `can_cut`
/// leaves out are those on which the toolkit's 16-bit arithmetic overflows
/// or its solver is handed bounds that contradict each other.
#[verifier::external_body]
fn cut(direction: Direction, constraints: &Vec<Constraint>, area: Rect) -> (chunks: Vec<Rect>)
    requires
        can_cut(direction, constraints@, area),
    ensures
        chunks@.len() == constraints@.len(),
{
    let layout = Layout::default().direction(match direction {
        Direction::Horizontal => Axis::Horizontal,
        Direction::Vertical => Axis::Vertical,
    });
    let parts: Vec<Size> = constraints.iter().map(|c| match *c {
        Constraint::Percentage(p) => Size::Percentage(p),
        Constraint::Length(l) => Size::Length(l),
        Constraint::Max(m) => Size::Max(m),
        Constraint::Min(m) => Size::Min(m),
    }).collect();
    let Rect { x, y, width, height } = area;
    let chunks = layout.constraints(parts).split(Area { x, y, width, height });
    chunks.iter().map(|r| Rect { x: r.x, y: r.y, width: r.width, height: r.height }).collect()
}

/// `tui::widgets::Block::inner` of a block with all four borders: the area
/// inside the border, computed with saturating arithmetic.
#[verifier::external_body]
fn inside_border(area: Rect) -> (inner: Rect)
    ensures
        inner == area.shrunk(),
{
    let Rect { x, y, width, height } = area;
    let block = Block::default().borders(Borders::ALL);
    let inner = block.inner(Area { x, y, width, height });
    Rect { x: inner.x, y: inner.y, width: inner.width, height: inner.height }
}

/// Cuts `area` into one rectangle for each constraint, in their order. The
/// toolkit decides where the cuts fall; what it gives back is clipped to
/// `area`, so that no rectangle reaches outside it. An area that does not
/// end inside the 16-bit coordinate space is not cut: the answer is `None`.
pub fn split(direction: Direction, constraints: &Vec<Constraint>, area: Rect) -> (chunks: Option<
    Vec<Rect>,
>)
    ensures
        chunks.is_some() == area.in_space(),
        chunks matches Some(list) ==> list@.len() == constraints@.len() && all_within(list@, area),
{
    if !area.fits() {
        return None;
    }
    let extent: u16 = match direction {
        Direction::Horizontal => area.width,
        Direction::Vertical => area.height,
    };
    let mut safe: Vec<Constraint> = Vec::new();
    let mut i: usize = 0;
    while i < constraints.len()
        invariant
            i <= constraints@.len(),
            extent == area.extent(direction),
            safe@.len() == i,
            forall|j: int| 0 <= j < i ==> safe@[j] == constraints@[j].tamed(extent as int),
        decreases constraints.len() - i,
    {
        safe.push(constraints[i].tame(extent));
        i = i + 1;
    }
    assert(safe@ =~= tamed_all(constraints@, extent as int));
    let raw = cut(direction, &safe, area);
    let mut chunks: Vec<Rect> = Vec::new();
    let mut k: usize = 0;
    while k < raw.len()
        invariant
            k <= raw@.len(),
            area.in_space(),
            chunks@.len() == k,
            all_within(chunks@, area),
        decreases raw.len() - k,
    {
        chunks.push(raw[k].clip(area));
        k = k + 1;
    }
    Some(chunks)
}

/// The area inside a border of one cell drawn around `area`.
pub fn inner(area: Rect) -> (inside: Rect)
    ensures
        inside == area.shrunk(),
{
    inside_border(area)
}

} // verus!
