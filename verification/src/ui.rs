//! Terminal geometry: the rectangle the host hands out for drawing, and the
//! placement of a fixed-size box centered inside it.

use vstd::prelude::*;

verus! {

/// A rectangular region of the terminal: column and row of the top-left
/// corner plus width and height, all in character cells.
#[derive(Clone, Copy, Debug, PartialEq, Eq, Structural)]
pub struct Rect {
    pub x: u16,
    pub y: u16,
    pub width: u16,
    pub height: u16,
}

impl Rect {
    /// The rectangle fits the terminal's coordinate space: its right and
    /// bottom edges are still representable.
    pub open spec fn well_formed(self) -> bool {
        &&& self.x + self.width <= u16::MAX
        &&& self.y + self.height <= u16::MAX
    }

    /// `self` lies entirely inside `outer`.
    pub open spec fn inside(self, outer: Rect) -> bool {
        &&& outer.x <= self.x
        &&& outer.y <= self.y
        &&& self.x + self.width <= outer.x + outer.width
        &&& self.y + self.height <= outer.y + outer.height
    }
}

/// Where a box of at most `width` x `height` cells goes when centered in
/// `r`: the requested size, clipped to `r`, placed so that the left and
/// right margins (and the top and bottom margins) differ by at most one.
pub open spec fn centered_rect_spec(width: u16, height: u16, r: Rect) -> Rect {
    let w = if width <= r.width {
        width
    } else {
        r.width
    };
    let h = if height <= r.height {
        height
    } else {
        r.height
    };
    Rect {
        x: (r.x + (r.width - w) / 2) as u16,
        y: (r.y + (r.height - h) / 2) as u16,
        width: w,
        height: h,
    }
}

/// Compute the centered placement described by [`centered_rect_spec`].
pub fn centered_rect_absolute(width: u16, height: u16, r: Rect) -> (c: Rect)
    requires
        r.well_formed(),
    ensures
        c == centered_rect_spec(width, height, r),
        c.well_formed(),
        c.inside(r),
{
    let w = if width <= r.width {
        width
    } else {
        r.width
    };
    let h = if height <= r.height {
        height
    } else {
        r.height
    };
    let x = r.x + (r.width - w) / 2;
    let y = r.y + (r.height - h) / 2;
    Rect { x, y, width: w, height: h }
}

} // verus!
