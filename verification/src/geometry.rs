use vstd::prelude::*;

verus! {

/// Whether an integer fits in an `i32`.
pub open spec fn fits_i32(v: int) -> bool {
    i32::MIN <= v <= i32::MAX
}

/// A cell position in document coordinates.
#[derive(Debug, Clone, Copy, PartialEq, Eq, Structural)]
pub struct Position {
    pub x: i32,
    pub y: i32,
}

impl Position {
    pub fn new(x: i32, y: i32) -> (r: Position)
        ensures
            r.x == x,
            r.y == y,
    {
        Position { x, y }
    }
}

/// A rectangle of cells: the cell at `(x, y)` and `width` by `height` cells
/// from there. It covers the columns `x .. x + width` and the rows
/// `y .. y + height`, the upper bounds excluded.
#[derive(Debug, Clone, Copy, PartialEq, Eq, Structural)]
pub struct Rectangle {
    pub x: i32,
    pub y: i32,
    pub width: i32,
    pub height: i32,
}

impl Rectangle {
    /// The column just past the rectangle.
    pub open spec fn spec_right(self) -> int {
        self.x + self.width
    }

    /// The row just past the rectangle.
    pub open spec fn spec_bottom(self) -> int {
        self.y + self.height
    }

    /// Whether the rectangle covers the cell `p`.
    pub open spec fn spec_contains(self, p: Position) -> bool {
        &&& self.x <= p.x < self.spec_right()
        &&& self.y <= p.y < self.spec_bottom()
    }

    /// The rectangle at `(x, y)` with the given size.
    pub fn from(x: i32, y: i32, width: i32, height: i32) -> (r: Rectangle)
        ensures
            r == (Rectangle { x, y, width, height }),
    {
        Rectangle { x, y, width, height }
    }

    pub fn left(&self) -> (r: i32)
        ensures
            r == self.x,
    {
        self.x
    }

    pub fn top(&self) -> (r: i32)
        ensures
            r == self.y,
    {
        self.y
    }

    pub fn width(&self) -> (r: i32)
        ensures
            r == self.width,
    {
        self.width
    }

    pub fn height(&self) -> (r: i32)
        ensures
            r == self.height,
    {
        self.height
    }

    /// The column just past the rectangle.
    pub fn right(&self) -> (r: i32)
        requires
            fits_i32(self.spec_right()),
        ensures
            r == self.spec_right(),
    {
        self.x + self.width
    }

    /// The row just past the rectangle.
    pub fn bottom(&self) -> (r: i32)
        requires
            fits_i32(self.spec_bottom()),
        ensures
            r == self.spec_bottom(),
    {
        self.y + self.height
    }

    /// Whether the rectangle covers the cell `p`.
    pub fn contains_pt(&self, p: Position) -> (r: bool)
        ensures
            r == self.spec_contains(p),
    {
        let right = self.x as i64 + self.width as i64;
        let bottom = self.y as i64 + self.height as i64;
        self.x <= p.x && (p.x as i64) < right && self.y <= p.y && (p.y as i64) < bottom
    }
}

} // verus!
