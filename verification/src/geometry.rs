//! Sizes and rectangles in whole pixels.

use vstd::prelude::*;

verus! {

/// A width and a height in pixels.
#[derive(Debug, Clone, Copy, PartialEq, Eq, Structural)]
pub struct Size {
    pub width: u32,
    pub height: u32,
}

impl Size {
    /// A size that covers no pixel.
    pub open spec fn is_degenerate(self) -> bool {
        self.width == 0 || self.height == 0
    }

    /// What is left of a size once `horizontal` and `vertical` pixels of
    /// margin are taken off; an axis that the margin uses up is 0.
    pub open spec fn inset_spec(self, horizontal: u32, vertical: u32) -> Size {
        Size {
            width: if self.width >= horizontal {
                (self.width - horizontal) as u32
            } else {
                0
            },
            height: if self.height >= vertical {
                (self.height - vertical) as u32
            } else {
                0
            },
        }
    }

    /// The size as the host's layout counts it, in 16 bits for each axis: an
    /// axis longer than 65535 pixels is reported as 65535.
    pub open spec fn host_extent(self) -> (u16, u16) {
        (
            if self.width > 0xffff {
                0xffffu16
            } else {
                self.width as u16
            },
            if self.height > 0xffff {
                0xffffu16
            } else {
                self.height as u16
            },
        )
    }

    pub fn new(width: u32, height: u32) -> (s: Size)
        ensures
            s.width == width,
            s.height == height,
    {
        Size { width, height }
    }

    /// The size as a pair of 16-bit extents, each axis cut off at 65535.
    pub fn to_host(&self) -> (pair: (u16, u16))
        ensures
            pair == self.host_extent(),
    {
        (
            if self.width > 0xffff {
                0xffffu16
            } else {
                self.width as u16
            },
            if self.height > 0xffff {
                0xffffu16
            } else {
                self.height as u16
            },
        )
    }

    /// Whether the size covers no pixel.
    pub fn is_empty(&self) -> (b: bool)
        ensures
            b == self.is_degenerate(),
    {
        self.width == 0 || self.height == 0
    }

    /// Takes the sum of the left and right margins off the width and the sum
    /// of the top and bottom margins off the height, stopping at 0.
    pub fn inset(&self, horizontal: u32, vertical: u32) -> (s: Size)
        ensures
            s == self.inset_spec(horizontal, vertical),
    {
        Size {
            width: if self.width >= horizontal {
                self.width - horizontal
            } else {
                0
            },
            height: if self.height >= vertical {
                self.height - vertical
            } else {
                0
            },
        }
    }
}

/// A rectangle: the pixel columns `x .. x + width` of the rows
/// `y .. y + height`.
#[derive(Debug, Clone, Copy, PartialEq, Eq, Structural)]
pub struct Rect {
    pub x: u32,
    pub y: u32,
    pub width: u32,
    pub height: u32,
}

impl Rect {
    /// The rectangle `(0, 0, 0, 0)`.
    pub open spec fn zero() -> Rect {
        Rect { x: 0, y: 0, width: 0, height: 0 }
    }

    /// The rectangle with the given origin and extent, each of which is
    /// meant to lie in `0 ..= u32::MAX`.
    pub open spec fn of(x: int, y: int, width: int, height: int) -> Rect {
        Rect { x: x as u32, y: y as u32, width: width as u32, height: height as u32 }
    }

    /// The first column to the right of the rectangle.
    pub open spec fn right(self) -> int {
        self.x + self.width
    }

    /// The first row below the rectangle.
    pub open spec fn bottom(self) -> int {
        self.y + self.height
    }

    /// The rectangle lies inside `[0, bounds.width] x [0, bounds.height]`.
    pub open spec fn within(self, bounds: Size) -> bool {
        self.right() <= bounds.width && self.bottom() <= bounds.height
    }

    /// The rectangle covers no pixel.
    pub open spec fn is_degenerate(self) -> bool {
        self.width == 0 || self.height == 0
    }

    pub fn new(x: u32, y: u32, width: u32, height: u32) -> (r: Rect)
        ensures
            r == (Rect { x, y, width, height }),
    {
        Rect { x, y, width, height }
    }

    /// The rectangle `(0, 0, 0, 0)`.
    pub fn empty() -> (r: Rect)
        ensures
            r == Rect::zero(),
    {
        Rect { x: 0, y: 0, width: 0, height: 0 }
    }

    /// Whether the rectangle covers no pixel.
    pub fn is_empty(&self) -> (b: bool)
        ensures
            b == self.is_degenerate(),
    {
        self.width == 0 || self.height == 0
    }
}

/// Where a bitmap is drawn: the part of the bitmap that is read, and the part
/// of the widget's area that it is painted on.
#[derive(Debug, Clone, Copy, PartialEq, Eq, Structural)]
pub struct Placement {
    /// The destination rectangle, in the coordinates of the viewport.
    pub dest: Rect,
    /// The sampled rectangle, in the coordinates of the bitmap.
    pub source: Rect,
}

impl Placement {
    /// The placement that draws nothing: both rectangles are `(0, 0, 0, 0)`.
    pub open spec fn nothing() -> Placement {
        Placement { dest: Rect::zero(), source: Rect::zero() }
    }

    /// The placement that draws nothing.
    pub fn empty() -> (p: Placement)
        ensures
            p == Placement::nothing(),
    {
        Placement { dest: Rect::empty(), source: Rect::empty() }
    }

    /// Whether nothing would be painted.
    pub fn is_empty(&self) -> (b: bool)
        ensures
            b == self.dest.is_degenerate(),
    {
        self.dest.is_empty()
    }
}

} // verus!
