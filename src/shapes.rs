use crate::geometry::{crop, crop_spec, Point, Rect, Size, SIZE_MAX};
use vstd::prelude::*;

verus! {

/// `n / d` rounded up, for a positive `d`.
pub open spec fn ceil_frac(n: int, d: int) -> int {
    if n >= 0 {
        (n + d - 1) / d
    } else {
        -((-n) / d)
    }
}

/// `n / d` rounded down, for a positive `d`.
pub open spec fn floor_frac(n: int, d: int) -> int {
    if n >= 0 {
        n / d
    } else {
        -((-n + d - 1) / d)
    }
}

/// `n / d` rounded towards zero, for a positive `d`.
pub open spec fn trunc_frac(n: int, d: int) -> int {
    if n >= 0 {
        n / d
    } else {
        -((-n) / d)
    }
}

pub fn ceil_div(n: i64, d: i64) -> (r: i64)
    requires
        -0x4000_0000_0000_0000 <= n <= 0x4000_0000_0000_0000,
        0 < d <= 0x1_0000_0000,
    ensures
        r == ceil_frac(n as int, d as int),
{
    if n >= 0 {
        (n + d - 1) / d
    } else {
        -((-n) / d)
    }
}

pub fn floor_div(n: i64, d: i64) -> (r: i64)
    requires
        -0x4000_0000_0000_0000 <= n <= 0x4000_0000_0000_0000,
        0 < d <= 0x1_0000_0000,
    ensures
        r == floor_frac(n as int, d as int),
{
    if n >= 0 {
        n / d
    } else {
        -((-n + d - 1) / d)
    }
}

pub fn trunc_div(n: i64, d: i64) -> (r: i64)
    requires
        -0x4000_0000_0000_0000 <= n <= 0x4000_0000_0000_0000,
        0 < d <= 0x1_0000_0000,
    ensures
        r == trunc_frac(n as int, d as int),
{
    if n >= 0 {
        n / d
    } else {
        -((-n) / d)
    }
}

/// A filled primitive, in the coordinates of the area it is drawn into.
#[derive(Clone, Copy, Debug, PartialEq, Eq, Structural)]
pub enum Shape {
    /// The triangle with these three corners.
    Triangle(Point, Point, Point),
    /// The rectangle that has these two points as opposite corners, both
    /// included.
    Rectangle(Point, Point),
    /// The circle of this diameter around this center.
    Circle(Point, u32),
    /// The whole area, from `(0, 0)`, of this size.
    Fill(Size),
}

/// One filled shape to draw in one color, with its coordinates relative to
/// `origin`.
#[derive(Clone, Copy, Debug)]
pub struct DrawOp<C> {
    pub origin: Point,
    pub shape: Shape,
    pub color: C,
}

pub open spec fn pt(x: int, y: int) -> Point {
    Point { x: x as i32, y: y as i32 }
}

pub open spec fn op<C>(origin: Point, shape: Shape, color: C) -> DrawOp<C> {
    DrawOp { origin, shape, color }
}

/// The six corners of a lozenge are drawn as two triangles, one for each
/// pointed end, and the rectangle between them.
pub open spec fn polygon_ops<C>(origin: Point, p: Seq<Point>, color: C) -> Seq<DrawOp<C>> {
    seq![
        op(origin, Shape::Triangle(p[0], p[1], p[5]), color),
        op(origin, Shape::Triangle(p[2], p[3], p[4]), color),
        op(origin, Shape::Rectangle(p[5], p[2]), color),
    ]
}

/// The corners of a vertical bar that fills an area of `w` by `h`, pointed at
/// the top and at the bottom.
pub open spec fn vert_points(w: int, h: int) -> Seq<Point> {
    let c = w / 2;
    let top = (3 * w) / 5;
    let bottom = trunc_frac(5 * h - 3 * w, 5);
    seq![pt(c, 0), pt(w, top), pt(w, bottom), pt(c, h), pt(0, bottom), pt(0, top)]
}

/// The corners of a horizontal bar that fills an area of `w` by `h`, pointed
/// at the left and at the right.
pub open spec fn hori_points(w: int, h: int) -> Seq<Point> {
    let c = h / 2;
    let left = (3 * h) / 5;
    let right = trunc_frac(5 * w - 3 * h, 5);
    seq![pt(0, c), pt(left, 0), pt(right, 0), pt(w, c), pt(right, h), pt(left, h)]
}

/// The rows a vertical bar loses at each end: a twentieth of the height,
/// rounded up.
pub open spec fn vert_trim(h: int) -> int {
    ceil_frac(h, 20)
}

/// The height left to a vertical bar once both ends are trimmed.
pub open spec fn vert_rest(h: int) -> int {
    if h - 2 * vert_trim(h) >= 0 {
        h - 2 * vert_trim(h)
    } else {
        0
    }
}

/// A vertical segment in `area`: the area loses a twentieth of its height at
/// each end, which parts it from the segment above or below, and the bar is
/// drawn in what is left.
pub open spec fn vert_ops<C>(area: Rect, color: C) -> Seq<DrawOp<C>> {
    let h = area.size.height as int;
    let sub = Size { width: area.size.width, height: vert_rest(h) as u32 };
    match crop_spec(area, 0, vert_trim(h), sub) {
        Some(a) => polygon_ops(
            a.top_left,
            vert_points(a.size.width as int, a.size.height as int),
            color,
        ),
        None => seq![],
    }
}

/// A horizontal segment in `area`: each end loses the bevel of a bar of the
/// area's height, so that it clears the vertical segments beside it.
pub open spec fn hori_ops<C>(area: Rect, color: C) -> Seq<DrawOp<C>> {
    let w = area.size.width as int;
    let h = area.size.height as int;
    let cut = ceil_frac(3 * h, 5);
    let rest = if w - 2 * cut >= 0 { w - 2 * cut } else { 0 };
    let sub = Size { width: rest as u32, height: area.size.height };
    match crop_spec(area, cut, 0, sub) {
        Some(a) => polygon_ops(
            a.top_left,
            hori_points(a.size.width as int, a.size.height as int),
            color,
        ),
        None => seq![],
    }
}

/// The decimal point in `area`: a circle in the left `rate` thousandths of the
/// width, at the bottom.
pub open spec fn point_ops<C>(area: Rect, rate: int, color: C) -> Seq<DrawOp<C>> {
    let w = area.size.width as int;
    let sub = Size {
        width: ceil_frac(w * rate, 1000) as u32,
        height: area.size.height,
    };
    match crop_spec(area, 0, 0, sub) {
        Some(a) => {
            let d = 2 * ((a.size.width as int) / 2);
            seq![
                op(
                    a.top_left,
                    Shape::Circle(pt(a.size.width as int / 2, a.size.height as int - d), d as u32),
                    color,
                ),
            ]
        },
        None => seq![],
    }
}

fn draw_polygon<C: Copy>(origin: Point, p: &[Point; 6], color: C, out: &mut Vec<DrawOp<C>>)
    ensures
        final(out)@ == old(out)@ + polygon_ops(origin, p@, color),
{
    out.push(DrawOp { origin, shape: Shape::Triangle(p[0], p[1], p[5]), color });
    out.push(DrawOp { origin, shape: Shape::Triangle(p[2], p[3], p[4]), color });
    out.push(DrawOp { origin, shape: Shape::Rectangle(p[5], p[2]), color });
    assert(final(out)@ =~= old(out)@ + polygon_ops(origin, p@, color));
}

/// Appends the shapes of a vertical segment in `area`.
pub fn draw_segment_vert<C: Copy>(area: Rect, color: C, out: &mut Vec<DrawOp<C>>)
    requires
        area.bounded(),
    ensures
        final(out)@ == old(out)@ + vert_ops(area, color),
{
    let h = area.size.height as i64;
    let trim = ceil_div(h, 20);
    let rest = if h - 2 * trim >= 0 { h - 2 * trim } else { 0 };
    let sub = Size { width: area.size.width, height: rest as u32 };
    match crop(area, 0, trim, sub) {
        Some(a) => {
            let w = a.size.width as i64;
            let h = a.size.height as i64;
            let c = (w / 2) as i32;
            let top = ((3 * w) / 5) as i32;
            let bottom = trunc_div(5 * h - 3 * w, 5) as i32;
            let p = [
                Point { x: c, y: 0 },
                Point { x: w as i32, y: top },
                Point { x: w as i32, y: bottom },
                Point { x: c, y: h as i32 },
                Point { x: 0, y: bottom },
                Point { x: 0, y: top },
            ];
            assert(p@ =~= vert_points(w as int, h as int));
            draw_polygon(a.top_left, &p, color, out);
        },
        None => {
            assert(final(out)@ =~= old(out)@ + vert_ops(area, color));
        },
    }
}

/// Appends the shapes of a horizontal segment in `area`.
pub fn draw_segment_hori<C: Copy>(area: Rect, color: C, out: &mut Vec<DrawOp<C>>)
    requires
        area.bounded(),
    ensures
        final(out)@ == old(out)@ + hori_ops(area, color),
{
    let w = area.size.width as i64;
    let h = area.size.height as i64;
    let cut = ceil_div(3 * h, 5);
    let rest = if w - 2 * cut >= 0 { w - 2 * cut } else { 0 };
    let sub = Size { width: rest as u32, height: area.size.height };
    match crop(area, cut, 0, sub) {
        Some(a) => {
            let w = a.size.width as i64;
            let h = a.size.height as i64;
            let c = (h / 2) as i32;
            let left = ((3 * h) / 5) as i32;
            let right = trunc_div(5 * w - 3 * h, 5) as i32;
            let p = [
                Point { x: 0, y: c },
                Point { x: left, y: 0 },
                Point { x: right, y: 0 },
                Point { x: w as i32, y: c },
                Point { x: right, y: h as i32 },
                Point { x: left, y: h as i32 },
            ];
            assert(p@ =~= hori_points(w as int, h as int));
            draw_polygon(a.top_left, &p, color, out);
        },
        None => {
            assert(final(out)@ =~= old(out)@ + hori_ops(area, color));
        },
    }
}

/// Appends the decimal point for `area`, `rate` thousandths of its width wide.
pub fn draw_seg_point<C: Copy>(area: Rect, rate: u32, color: C, out: &mut Vec<DrawOp<C>>)
    requires
        area.bounded(),
        0 < rate < 1000,
    ensures
        final(out)@ == old(out)@ + point_ops(area, rate as int, color),
{
    let w = area.size.width as i64;
    assert(0 <= w * rate <= SIZE_MAX * 1000) by (nonlinear_arith)
        requires 0 <= w <= SIZE_MAX, rate < 1000;
    let sw = ceil_div(w * rate as i64, 1000);
    assert(sw <= w) by (nonlinear_arith)
        requires sw == ceil_frac(w * rate, 1000), 0 <= w, rate < 1000;
    let sub = Size { width: sw as u32, height: area.size.height };
    match crop(area, 0, 0, sub) {
        Some(a) => {
            let d = 2 * (a.size.width / 2);
            let center = Point { x: (a.size.width / 2) as i32, y: a.size.height as i32 - d as i32 };
            out.push(DrawOp { origin: a.top_left, shape: Shape::Circle(center, d), color });
            assert(final(out)@ =~= old(out)@ + point_ops(area, rate as int, color));
        },
        None => {
            assert(final(out)@ =~= old(out)@ + point_ops(area, rate as int, color));
        },
    }
}

} // verus!
