//! Integer geometry shared by the screen side and the image side.
//!
//! Screen positions are whole points; image regions are whole pixels.

use vstd::prelude::*;

verus! {

/// A position on screen.
#[derive(Clone, Copy, Debug, PartialEq, Eq, Structural)]
pub struct Point {
    pub x: i32,
    pub y: i32,
}

/// A displacement on screen, such as the pan of the preview.
#[derive(Clone, Copy, Debug, PartialEq, Eq, Structural)]
pub struct Offset {
    pub dx: i32,
    pub dy: i32,
}

/// An axis-aligned rectangle on screen. It covers the points `p` with
/// `left <= p.x < left + width` and `top <= p.y < top + height`.
#[derive(Clone, Copy, Debug, PartialEq, Eq, Structural)]
pub struct ScreenRect {
    pub left: i64,
    pub top: i64,
    pub width: u32,
    pub height: u32,
}

/// A rectangle of pixels inside (or partly outside) an image.
#[derive(Clone, Copy, Debug, PartialEq, Eq, Structural)]
pub struct ImageRect {
    pub x: u32,
    pub y: u32,
    pub width: u32,
    pub height: u32,
}

/// `v` limited to the range of `i32`.
pub open spec fn saturate_i32(v: int) -> int {
    if v < i32::MIN {
        i32::MIN as int
    } else if v > i32::MAX {
        i32::MAX as int
    } else {
        v
    }
}

/// The smaller of two integers.
pub open spec fn lesser(a: int, b: int) -> int {
    if a <= b {
        a
    } else {
        b
    }
}

/// The larger of two integers.
pub open spec fn greater(a: int, b: int) -> int {
    if a >= b {
        a
    } else {
        b
    }
}

/// The distance between two integers.
pub open spec fn distance(a: int, b: int) -> int {
    if a >= b {
        a - b
    } else {
        b - a
    }
}

/// How much of `wanted` pixels can be cut along one axis of `available`
/// pixels when the cut starts at `origin`: nothing once the origin lies at or
/// past the end.
pub open spec fn cut_extent(available: u32, origin: u32, wanted: u32) -> int {
    lesser(wanted as int, available - lesser(origin as int, available as int))
}

/// Whether `size` has the proportions of `model` within one pixel: the
/// cross products differ by at most the longer side of `model`, so that one
/// side of `size` is within a pixel of what the other side and the
/// proportions of `model` ask for.
pub open spec fn keeps_proportions(size: (u32, u32), model: (u32, u32)) -> bool {
    distance(size.0 * model.1, size.1 * model.0) <= greater(model.0 as int, model.1 as int)
}

/// Whether `size` lies within the box `target`, a target of zero counting as
/// one.
pub open spec fn fits_box(size: (u32, u32), target: (u32, u32)) -> bool {
    size.0 <= greater(target.0 as int, 1) && size.1 <= greater(target.1 as int, 1)
}

/// Whether `size` reaches the box `target` on one side at least, a target of
/// zero counting as one: nothing larger of its proportions fits the box.
pub open spec fn touches_box(size: (u32, u32), target: (u32, u32)) -> bool {
    size.0 == greater(target.0 as int, 1) || size.1 == greater(target.1 as int, 1)
}

fn add_saturating(a: i32, b: i32) -> (sum: i32)
    ensures
        sum == saturate_i32(a + b),
{
    let wide: i64 = a as i64 + b as i64;
    if wide < i32::MIN as i64 {
        i32::MIN
    } else if wide > i32::MAX as i64 {
        i32::MAX
    } else {
        wide as i32
    }
}

impl Offset {
    /// The displacement that moves nothing.
    pub open spec fn origin() -> Offset {
        Offset { dx: 0, dy: 0 }
    }

    /// The sum of two displacements, each component held within `i32`.
    pub open spec fn combined(self, delta: Offset) -> Offset {
        Offset {
            dx: saturate_i32(self.dx + delta.dx) as i32,
            dy: saturate_i32(self.dy + delta.dy) as i32,
        }
    }

    /// Returns the displacement that moves nothing.
    pub fn zero() -> (offset: Offset)
        ensures
            offset == Offset::origin(),
    {
        Offset { dx: 0, dy: 0 }
    }

    /// Adds `delta` to this displacement; a component that would leave the
    /// range of `i32` stays at the nearest bound.
    pub fn plus(self, delta: Offset) -> (sum: Offset)
        ensures
            sum == self.combined(delta),
    {
        Offset { dx: add_saturating(self.dx, delta.dx), dy: add_saturating(self.dy, delta.dy) }
    }
}

impl ScreenRect {
    /// The bounding box of two positions, whichever way round they are given.
    pub open spec fn spanning(a: Point, b: Point) -> ScreenRect {
        ScreenRect {
            left: lesser(a.x as int, b.x as int) as i64,
            top: lesser(a.y as int, b.y as int) as i64,
            width: distance(a.x as int, b.x as int) as u32,
            height: distance(a.y as int, b.y as int) as u32,
        }
    }

    /// The rectangle of the given size whose centre is `center` moved by
    /// `offset`; an odd size leaves the extra point on the far side.
    pub open spec fn centered(
        center: Point,
        offset: Offset,
        width: u32,
        height: u32,
    ) -> ScreenRect {
        ScreenRect {
            left: (center.x + offset.dx - width / 2) as i64,
            top: (center.y + offset.dy - height / 2) as i64,
            width,
            height,
        }
    }

    /// Whether the rectangle covers `p`.
    pub open spec fn covers(self, p: Point) -> bool {
        &&& self.left <= p.x < self.left + self.width
        &&& self.top <= p.y < self.top + self.height
    }

    /// Whether the rectangle covers no point at all.
    pub open spec fn is_empty(self) -> bool {
        self.width == 0 || self.height == 0
    }

    /// Builds the bounding box of two positions. The result is the same when
    /// the positions are swapped, so a drag in any direction gives a
    /// rectangle with its origin at the top left.
    pub fn from_two_pos(a: Point, b: Point) -> (rect: ScreenRect)
        ensures
            rect == ScreenRect::spanning(a, b),
            rect == ScreenRect::spanning(b, a),
            rect.left + rect.width == greater(a.x as int, b.x as int),
            rect.top + rect.height == greater(a.y as int, b.y as int),
    {
        let (left, width): (i32, u32) = if a.x <= b.x {
            (a.x, (b.x as i64 - a.x as i64) as u32)
        } else {
            (b.x, (a.x as i64 - b.x as i64) as u32)
        };
        let (top, height): (i32, u32) = if a.y <= b.y {
            (a.y, (b.y as i64 - a.y as i64) as u32)
        } else {
            (b.y, (a.y as i64 - b.y as i64) as u32)
        };
        ScreenRect { left: left as i64, top: top as i64, width, height }
    }

    /// Builds the rectangle of the given size centred on `center` moved by
    /// `offset`.
    pub fn from_center_size(center: Point, offset: Offset, width: u32, height: u32) -> (rect:
        ScreenRect)
        ensures
            rect == ScreenRect::centered(center, offset, width, height),
    {
        let left: i64 = center.x as i64 + offset.dx as i64 - (width / 2) as i64;
        let top: i64 = center.y as i64 + offset.dy as i64 - (height / 2) as i64;
        ScreenRect { left, top, width, height }
    }

    /// Tells whether the rectangle covers `p`.
    pub fn contains(&self, p: Point) -> (inside: bool)
        ensures
            inside == self.covers(p),
    {
        let across: i128 = p.x as i128 - self.left as i128;
        let down: i128 = p.y as i128 - self.top as i128;
        0 <= across && across < self.width as i128 && 0 <= down && down < self.height as i128
    }
}

impl ImageRect {
    /// Whether the region holds at least one pixel.
    pub open spec fn has_area(self) -> bool {
        self.width > 0 && self.height > 0
    }

    /// Whether the region lies wholly inside an image of `width` by
    /// `height` pixels.
    pub open spec fn is_within(self, width: u32, height: u32) -> bool {
        self.x + self.width <= width && self.y + self.height <= height
    }

    /// The part of the region that an image of `width` by `height` pixels
    /// holds, counted from the region's own origin; `None` when that part
    /// has no pixel.
    pub open spec fn limited_to(self, width: u32, height: u32) -> Option<ImageRect> {
        let across = cut_extent(width, self.x, self.width);
        let down = cut_extent(height, self.y, self.height);
        if across > 0 && down > 0 {
            Some(ImageRect { x: self.x, y: self.y, width: across as u32, height: down as u32 })
        } else {
            None
        }
    }

    /// Limits the region to an image of `width` by `height` pixels. The
    /// origin stays where it is; the size shrinks to what the image holds
    /// from there.
    ///
    /// A region whose origin lies outside the image gives `None`, and so
    /// does any other region that keeps no pixel. A region with at least one
    /// pixel that lies wholly inside the image comes back unchanged. Whatever
    /// comes back has at least one pixel and lies inside the image.
    pub fn clamp_to(self, width: u32, height: u32) -> (kept: Option<ImageRect>)
        ensures
            kept == self.limited_to(width, height),
            self.x >= width || self.y >= height ==> kept is None,
            self.has_area() && self.is_within(width, height) ==> kept == Some(self),
            kept matches Some(region) ==> {
                &&& region.has_area()
                &&& region.is_within(width, height)
                &&& region.x == self.x < width
                &&& region.y == self.y < height
                &&& region.width <= self.width
                &&& region.height <= self.height
            },
    {
        let across: u32 = if self.x >= width {
            0
        } else if self.width < width - self.x {
            self.width
        } else {
            width - self.x
        };
        let down: u32 = if self.y >= height {
            0
        } else if self.height < height - self.y {
            self.height
        } else {
            height - self.y
        };
        if across > 0 && down > 0 {
            Some(ImageRect { x: self.x, y: self.y, width: across, height: down })
        } else {
            None
        }
    }
}

/// The bounding box of two positions does not depend on their order.
pub proof fn lemma_spanning_is_symmetric(a: Point, b: Point)
    ensures
        ScreenRect::spanning(a, b) == ScreenRect::spanning(b, a),
{
}

/// A position lies in the bounding box it spans with any other position as
/// soon as that box is not empty on either axis, unless it is the far corner.
pub proof fn lemma_spanning_covers_near_corner(a: Point, b: Point)
    requires
        a.x < b.x,
        a.y < b.y,
    ensures
        ScreenRect::spanning(a, b).covers(a),
        !ScreenRect::spanning(a, b).covers(b),
        !ScreenRect::spanning(a, b).is_empty(),
{
}

} // verus!
