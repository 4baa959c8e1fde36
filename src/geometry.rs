use embedded_graphics::geometry::{Point as EgPoint, Size as EgSize};
use embedded_graphics::primitives::Rectangle as EgRect;
use vstd::prelude::*;

verus! {

/// Largest coordinate or extent that a drawing surface can address.
pub const COORD_MAX: i32 = 0x7fff_ffff;

/// A pixel position; `x` grows to the right, `y` downwards.
#[derive(Clone, Copy, Debug, PartialEq, Eq, Structural)]
pub struct Point {
    pub x: i32,
    pub y: i32,
}

/// A width and a height in pixels.
#[derive(Clone, Copy, Debug, PartialEq, Eq, Structural)]
pub struct Size {
    pub width: u32,
    pub height: u32,
}

/// An axis-aligned rectangle given by its top-left corner and its size.
#[derive(Clone, Copy, Debug, PartialEq, Eq, Structural)]
pub struct Rect {
    pub top_left: Point,
    pub size: Size,
}

impl Point {
    pub fn new(x: i32, y: i32) -> (r: Point)
        ensures
            r.x == x,
            r.y == y,
    {
        Point { x, y }
    }
}

impl Size {
    pub fn new(width: u32, height: u32) -> (r: Size)
        ensures
            r.width == width,
            r.height == height,
    {
        Size { width, height }
    }
}

impl Rect {
    pub fn new(top_left: Point, size: Size) -> (r: Rect)
        ensures
            r.top_left == top_left,
            r.size == size,
    {
        Rect { top_left, size }
    }

    /// The rectangle lies in the addressable plane: its far edges do not pass
    /// the largest coordinate.
    pub open spec fn fits(self) -> bool {
        &&& self.size.width <= COORD_MAX
        &&& self.size.height <= COORD_MAX
        &&& self.top_left.x + self.size.width <= COORD_MAX
        &&& self.top_left.y + self.size.height <= COORD_MAX
    }

    pub open spec fn is_empty(self) -> bool {
        self.size.width == 0 || self.size.height == 0
    }

    /// The largest rectangle inside both `self` and `o`, when both hold a pixel
    /// and they share one.
    pub open spec fn overlap(self, o: Rect) -> Rect {
        let left = if self.top_left.x >= o.top_left.x { self.top_left.x } else { o.top_left.x };
        let top = if self.top_left.y >= o.top_left.y { self.top_left.y } else { o.top_left.y };
        let r1 = self.top_left.x + self.size.width;
        let r2 = o.top_left.x + o.size.width;
        let b1 = self.top_left.y + self.size.height;
        let b2 = o.top_left.y + o.size.height;
        let right = if r1 <= r2 { r1 } else { r2 };
        let bottom = if b1 <= b2 { b1 } else { b2 };
        Rect {
            top_left: Point { x: left, y: top },
            size: Size { width: (right - left) as u32, height: (bottom - top) as u32 },
        }
    }

    /// Both rectangles hold a pixel, and some pixel lies in both.
    pub open spec fn meets(self, o: Rect) -> bool {
        &&& !self.is_empty()
        &&& !o.is_empty()
        &&& self.top_left.x < o.top_left.x + o.size.width
        &&& o.top_left.x < self.top_left.x + self.size.width
        &&& self.top_left.y < o.top_left.y + o.size.height
        &&& o.top_left.y < self.top_left.y + self.size.height
    }

    /// Every pixel of `self` lies in `o`.
    pub open spec fn within(self, o: Rect) -> bool {
        &&& o.top_left.x <= self.top_left.x
        &&& o.top_left.y <= self.top_left.y
        &&& self.top_left.x + self.size.width <= o.top_left.x + o.size.width
        &&& self.top_left.y + self.size.height <= o.top_left.y + o.size.height
    }
}

/// Relies on `embedded_graphics::primitives::Rectangle::intersection`: where
/// both rectangles hold a pixel and share one, the result spans from the larger
/// top-left corner to the smaller bottom-right one; otherwise it holds no pixel.
#[verifier::external_body]
pub(crate) fn intersection(a: Rect, b: Rect) -> (r: Rect)
    requires
        a.fits(),
        b.fits(),
    ensures
        a.meets(b) ==> r == a.overlap(b),
        !a.meets(b) ==> r.is_empty(),
{
    let ea = EgRect::new(EgPoint::new(a.top_left.x, a.top_left.y), EgSize::new(a.size.width, a.size.height));
    let eb = EgRect::new(EgPoint::new(b.top_left.x, b.top_left.y), EgSize::new(b.size.width, b.size.height));
    let r = ea.intersection(&eb);
    Rect { top_left: Point { x: r.top_left.x, y: r.top_left.y }, size: Size { width: r.size.width, height: r.size.height } }
}

/// Largest cell side this library lays out: coordinates computed inside a cell,
/// with the cell's own offset added, stay addressable.
pub const SIZE_MAX: u32 = 0x3fff_ffff;

impl Rect {
    /// The rectangle fits the plane and each side is at most `SIZE_MAX`.
    pub open spec fn bounded(self) -> bool {
        &&& self.fits()
        &&& self.size.width <= SIZE_MAX
        &&& self.size.height <= SIZE_MAX
    }
}

/// The sub-area that a surface with absolute bounds `parent` gives for the
/// request `(x, y, size)` in its own coordinates: the part of the request that
/// lies inside the surface, in absolute coordinates; `None` where that part
/// holds no pixel.
pub open spec fn crop_spec(parent: Rect, x: int, y: int, size: Size) -> Option<Rect> {
    let req = Rect { top_left: Point { x: x as i32, y: y as i32 }, size };
    let own = Rect { top_left: Point { x: 0, y: 0 }, size: parent.size };
    if req.meets(own) {
        let o = req.overlap(own);
        Some(
            Rect {
                top_left: Point {
                    x: (parent.top_left.x + o.top_left.x) as i32,
                    y: (parent.top_left.y + o.top_left.y) as i32,
                },
                size: o.size,
            },
        )
    } else {
        None
    }
}

/// Computes `crop_spec`; a surface cropped from a bounded one is bounded and
/// lies inside it.
pub fn crop(parent: Rect, x: i64, y: i64, size: Size) -> (r: Option<Rect>)
    requires
        parent.bounded(),
        -SIZE_MAX <= x <= SIZE_MAX,
        -SIZE_MAX <= y <= SIZE_MAX,
        size.width <= SIZE_MAX,
        size.height <= SIZE_MAX,
    ensures
        r == crop_spec(parent, x as int, y as int, size),
        r matches Some(a) ==> a.bounded() && a.within(parent) && !a.is_empty(),
{
    let req = Rect { top_left: Point { x: x as i32, y: y as i32 }, size };
    let own = Rect { top_left: Point { x: 0, y: 0 }, size: parent.size };
    let o = intersection(req, own);
    if o.size.width == 0 || o.size.height == 0 {
        None
    } else {
        Some(
            Rect {
                top_left: Point {
                    x: parent.top_left.x + o.top_left.x,
                    y: parent.top_left.y + o.top_left.y,
                },
                size: o.size,
            },
        )
    }
}

} // verus!
