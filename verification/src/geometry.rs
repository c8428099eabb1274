//! Rectangles on the terminal grid and the boundary-inclusive hit test.

use vstd::prelude::*;

verus! {

/// An axis-aligned rectangle of terminal cells, given by its top-left cell and
/// its extent.
#[derive(Clone, Copy, Debug, PartialEq, Eq, Structural)]
pub struct Rect {
    pub x: u16,
    pub y: u16,
    pub width: u16,
    pub height: u16,
}

/// One cell of the terminal grid.
#[derive(Clone, Copy, Debug, PartialEq, Eq, Structural)]
pub struct Position {
    pub x: u16,
    pub y: u16,
}

impl Rect {
    /// The column just past the rectangle, as a mathematical integer.
    pub open spec fn right_edge(self) -> int {
        self.x + self.width
    }

    /// The row just past the rectangle, as a mathematical integer.
    pub open spec fn bottom_edge(self) -> int {
        self.y + self.height
    }

    /// Number of cells in the rectangle.
    pub open spec fn cells(self) -> int {
        self.width * self.height
    }

    /// A rectangle without cells can never own the pointer.
    pub open spec fn is_degenerate(self) -> bool {
        self.width == 0 || self.height == 0
    }

    /// The hit test: the rectangle has cells, and the point lies between its
    /// left and right edge and between its top and bottom edge, both edges
    /// included.
    pub open spec fn covers(self, x: u16, y: u16) -> bool {
        &&& !self.is_degenerate()
        &&& self.x <= x <= self.right_edge()
        &&& self.y <= y <= self.bottom_edge()
    }

    /// `inner` lies within `self`, edges included.
    pub open spec fn encloses(self, inner: Rect) -> bool {
        &&& self.x <= inner.x
        &&& self.y <= inner.y
        &&& inner.right_edge() <= self.right_edge()
        &&& inner.bottom_edge() <= self.bottom_edge()
    }

    /// No point is covered by both rectangles.
    pub open spec fn apart_from(self, other: Rect) -> bool {
        ||| self.is_degenerate()
        ||| other.is_degenerate()
        ||| self.right_edge() < other.x
        ||| other.right_edge() < self.x
        ||| self.bottom_edge() < other.y
        ||| other.bottom_edge() < self.y
    }

    /// The rectangle with the given corner and extent.
    pub fn new(x: u16, y: u16, width: u16, height: u16) -> (r: Rect)
        ensures
            r == (Rect { x, y, width, height }),
    {
        Rect { x, y, width, height }
    }

    /// The right edge, held at the largest coordinate where it would pass it.
    pub fn right(&self) -> (v: u16)
        ensures
            v == if self.right_edge() <= u16::MAX { self.right_edge() } else { u16::MAX as int },
    {
        self.x.saturating_add(self.width)
    }

    /// The bottom edge, held at the largest coordinate where it would pass it.
    pub fn bottom(&self) -> (v: u16)
        ensures
            v == if self.bottom_edge() <= u16::MAX { self.bottom_edge() } else { u16::MAX as int },
    {
        self.y.saturating_add(self.height)
    }

    /// Number of cells.
    pub fn area(&self) -> (a: u32)
        ensures
            a == self.cells(),
    {
        let w: u32 = self.width as u32;
        let h: u32 = self.height as u32;
        assert(w * h <= 0xffff * 0xffff) by (nonlinear_arith)
            requires
                w <= 0xffff,
                h <= 0xffff,
        ;
        w * h
    }

    /// Whether `inner` lies within the rectangle.
    pub fn holds(&self, inner: Rect) -> (within: bool)
        ensures
            within == self.encloses(inner),
    {
        self.x <= inner.x && self.y <= inner.y && inner.x as u32 + inner.width as u32 <= self.x as u32
            + self.width as u32 && inner.y as u32 + inner.height as u32 <= self.y as u32
            + self.height as u32
    }

    /// Whether the rectangle owns the point `(x, y)`.
    pub fn contains(&self, x: u16, y: u16) -> (hit: bool)
        ensures
            hit == self.covers(x, y),
    {
        let right: u32 = self.x as u32 + self.width as u32;
        let bottom: u32 = self.y as u32 + self.height as u32;
        let px: u32 = x as u32;
        let py: u32 = y as u32;
        self.width > 0 && self.height > 0 && self.x <= x && px <= right && self.y <= y
            && py <= bottom
    }
}

/// Whether the pointer lies in `rect_to_check`: its edges count as inside, and
/// a rectangle without cells holds no point.
pub fn check_if_mouse_is_in_area(mouse_coordinates: (u16, u16), rect_to_check: Rect) -> (hit: bool)
    ensures
        hit == rect_to_check.covers(mouse_coordinates.0, mouse_coordinates.1),
{
    rect_to_check.contains(mouse_coordinates.0, mouse_coordinates.1)
}

/// Two rectangles that lie apart never both own a point.
pub proof fn lemma_apart_share_no_point(a: Rect, b: Rect, x: u16, y: u16)
    requires
        a.apart_from(b),
    ensures
        !(a.covers(x, y) && b.covers(x, y)),
{
}

/// A rectangle with cells that lies within another and differs from it has
/// fewer cells.
pub proof fn lemma_enclosed_is_smaller(outer: Rect, inner: Rect)
    requires
        outer.encloses(inner),
        !inner.is_degenerate(),
        inner != outer,
    ensures
        inner.cells() < outer.cells(),
{
    let iw = inner.width as int;
    let ih = inner.height as int;
    let ow = outer.width as int;
    let oh = outer.height as int;
    assert(iw <= ow && ih <= oh);
    assert(iw < ow || ih < oh);
    assert(iw * ih < ow * oh) by (nonlinear_arith)
        requires
            1 <= iw <= ow,
            1 <= ih <= oh,
            iw < ow || ih < oh,
    ;
}

} // verus!
