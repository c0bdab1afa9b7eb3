//! Rectangles of terminal cells, and how a bordered box divides one.
use vstd::prelude::*;

verus! {

/// A rectangle of terminal cells; `x` and `y` are its upper left corner.
#[derive(Clone, Copy, Debug, PartialEq, Eq, Structural)]
pub struct Rect {
    pub x: u16,
    pub y: u16,
    pub width: u16,
    pub height: u16,
}

/// `n`, but no more than the largest coordinate.
pub open spec fn capped(n: int) -> u16 {
    if n <= u16::MAX {
        n as u16
    } else {
        u16::MAX
    }
}

/// `a - b`, but no less than zero.
pub open spec fn less(a: u16, b: u16) -> u16 {
    if b <= a {
        (a - b) as u16
    } else {
        0
    }
}

/// The smaller of the two.
pub open spec fn smaller(a: u16, b: u16) -> u16 {
    if a <= b {
        a
    } else {
        b
    }
}

impl Rect {
    /// Whether both far edges are coordinates.
    pub open spec fn on_screen(self) -> bool {
        self.x + self.width <= u16::MAX && self.y + self.height <= u16::MAX
    }

    /// Whether the cell at column `x` and row `y` belongs to the rectangle.
    pub open spec fn has(self, x: int, y: int) -> bool {
        self.x <= x < self.x + self.width && self.y <= y < self.y + self.height
    }

    /// What is left after the first `n` columns.
    pub open spec fn without_left(self, n: u16) -> Rect {
        Rect {
            x: capped(self.x + smaller(n, self.width)),
            width: less(self.width, n),
            ..self
        }
    }

    /// What is left after the first `n` rows.
    pub open spec fn without_top(self, n: u16) -> Rect {
        Rect {
            y: capped(self.y + smaller(n, self.height)),
            height: less(self.height, n),
            ..self
        }
    }

    /// What a border of one cell on each side leaves free.
    pub open spec fn inside_borders(self) -> Rect {
        Rect {
            x: capped(self.x + smaller(1, self.width)),
            y: capped(self.y + smaller(1, self.height)),
            width: less(self.width, 2),
            height: less(self.height, 2),
        }
    }

    /// The column of the left edge.
    pub fn left(self) -> (column: u16)
        ensures
            column == self.x,
    {
        self.x
    }

    /// The column after the last one.
    pub fn right(self) -> (column: u16)
        ensures
            column == capped(self.x + self.width),
            self.x + self.width <= u16::MAX ==> column == self.x + self.width,
            self.x + self.width > u16::MAX ==> column == u16::MAX,
    {
        self.x.saturating_add(self.width)
    }

    /// The rectangle without its first `width` columns.
    pub fn clip_left(self, width: u16) -> (rect: Rect)
        ensures
            rect == self.without_left(width),
    {
        let clipped: u16 = if width <= self.width { width } else { self.width };
        Rect {
            x: self.x.saturating_add(clipped),
            y: self.y,
            width: self.width - clipped,
            height: self.height,
        }
    }

    /// The rectangle without its first `height` rows.
    pub fn clip_top(self, height: u16) -> (rect: Rect)
        ensures
            rect == self.without_top(height),
    {
        let clipped: u16 = if height <= self.height { height } else { self.height };
        Rect {
            x: self.x,
            y: self.y.saturating_add(clipped),
            width: self.width,
            height: self.height - clipped,
        }
    }

    /// The rectangle at the same corner and with the same width, `height` rows high.
    pub fn with_height(self, height: u16) -> (rect: Rect)
        ensures
            rect == (Rect { height, ..self }),
    {
        Rect { x: self.x, y: self.y, width: self.width, height }
    }

    /// The rectangle at the same corner and with the same height, `width` columns wide.
    pub fn with_width(self, width: u16) -> (rect: Rect)
        ensures
            rect == (Rect { width, ..self }),
    {
        Rect { x: self.x, y: self.y, width, height: self.height }
    }

    /// The part of the rectangle that a box with borders on all four sides leaves free.
    pub fn inner(self) -> (rect: Rect)
        ensures
            rect == self.inside_borders(),
    {
        let x: u16 = if self.width == 0 { self.x } else { self.x.saturating_add(1) };
        let y: u16 = if self.height == 0 { self.y } else { self.y.saturating_add(1) };
        Rect { x, y, width: self.width.saturating_sub(2), height: self.height.saturating_sub(2) }
    }
}

/// The cells inside the borders are the cells of the box that have a cell of the box on
/// every side: no cell of the border is among them.
pub proof fn inner_is_the_box_without_its_edge(area: Rect)
    requires
        area.on_screen(),
    ensures
        area.inside_borders().on_screen(),
        forall|x: int, y: int| #[trigger]
            area.inside_borders().has(x, y) <==> area.x < x < area.x + area.width - 1 && area.y < y
                < area.y + area.height - 1,
{
}

/// Clipping on the left splits a rectangle in two: each of its cells is either in the first
/// columns or in what is left.
pub proof fn clip_left_splits_the_columns(area: Rect, n: u16)
    requires
        area.on_screen(),
        n <= area.width,
    ensures
        area.without_left(n).on_screen(),
        forall|x: int, y: int| #[trigger]
            area.has(x, y) <==> (Rect { width: n, ..area }).has(x, y) != area.without_left(n).has(
                x,
                y,
            ),
{
}

/// Clipping takes columns, or rows, away from one side: the other extent stays, as many are gone
/// as were asked for or as there were, and the far edge stays where it was. Coordinates do not go
/// beyond the largest one.
pub proof fn clipping_keeps_the_far_edge(area: Rect, n: u16)
    ensures
        ({
            let rest = area.without_left(n);
            &&& rest.y == area.y && rest.height == area.height
            &&& n <= area.width ==> rest.width + n == area.width
            &&& n > area.width ==> rest.width == 0
            &&& area.x + (area.width - rest.width) <= u16::MAX ==> rest.x + rest.width == area.x
                + area.width
            &&& area.x + (area.width - rest.width) > u16::MAX ==> rest.x == u16::MAX
        }),
        ({
            let rest = area.without_top(n);
            &&& rest.x == area.x && rest.width == area.width
            &&& n <= area.height ==> rest.height + n == area.height
            &&& n > area.height ==> rest.height == 0
            &&& area.y + (area.height - rest.height) <= u16::MAX ==> rest.y + rest.height == area.y
                + area.height
            &&& area.y + (area.height - rest.height) > u16::MAX ==> rest.y == u16::MAX
        }),
{
}

/// A border takes two columns and two rows where there are as many, and all of them else. What it
/// leaves begins one cell further, unless there was no cell to go to.
pub proof fn a_border_takes_a_cell_on_each_side(area: Rect)
    ensures
        ({
            let inner = area.inside_borders();
            &&& area.width >= 2 ==> inner.width + 2 == area.width
            &&& area.height >= 2 ==> inner.height + 2 == area.height
            &&& area.width < 2 ==> inner.width == 0
            &&& area.height < 2 ==> inner.height == 0
            &&& inner.x == area.x <==> area.width == 0 || area.x == u16::MAX
            &&& inner.y == area.y <==> area.height == 0 || area.y == u16::MAX
            &&& area.x <= inner.x <= area.x + 1
            &&& area.y <= inner.y <= area.y + 1
        }),
{
}

} // verus!
