use crate::font::{Font7Seg, TextMetrics};
use crate::geometry::{crop_spec, Point, Rect, Size};
use crate::shapes::{hori_ops, hori_points, op, point_ops, vert_ops, vert_points, DrawOp, Shape};
use vstd::prelude::*;

verus! {

/// None of `ops` clears an area: all of them are parts of glyphs.
pub open spec fn no_fill<C>(ops: Seq<DrawOp<C>>) -> bool {
    forall|k: int| 0 <= k < ops.len() ==> !(#[trigger] ops[k].shape is Fill)
}

proof fn lemma_no_fill_concat<C>(a: Seq<DrawOp<C>>, b: Seq<DrawOp<C>>)
    requires
        no_fill(a),
        no_fill(b),
    ensures
        no_fill(a + b),
{
    assert forall|k: int| 0 <= k < (a + b).len() implies !(#[trigger] (a + b)[k].shape is Fill) by {
        if k < a.len() {
            assert((a + b)[k] == a[k]);
        } else {
            assert((a + b)[k] == b[k - a.len()]);
        }
    }
}

proof fn lemma_bars_no_fill<C>(r: Option<Rect>, c: C)
    ensures
        no_fill(crate::font::vert_in(r, c)),
        no_fill(crate::font::hori_in(r, c)),
{
    if let Some(a) = r {
        let v = vert_ops(a, c);
        let h = hori_ops(a, c);
        assert(forall|k: int| 0 <= k < v.len() ==> !(#[trigger] v[k].shape is Fill));
        assert(forall|k: int| 0 <= k < h.len() ==> !(#[trigger] h[k].shape is Fill));
    }
}

proof fn lemma_segments_no_fill<C: Copy>(font: Font7Seg<C>, area: Rect, i: int)
    ensures
        no_fill(font.seg_ops(area, i)),
{
    assert forall|r: Option<Rect>| no_fill(#[trigger] crate::font::vert_in(r, font.text_color)) by {
        lemma_bars_no_fill(r, font.text_color);
    }
    assert forall|r: Option<Rect>| no_fill(#[trigger] crate::font::hori_in(r, font.text_color)) by {
        lemma_bars_no_fill(r, font.text_color);
    }
}

proof fn lemma_pattern_no_fill<C: Copy>(font: Font7Seg<C>, area: Rect, pattern: u8, n: int)
    ensures
        no_fill(font.pattern_ops(area, pattern, n)),
    decreases n,
{
    if n > 0 {
        lemma_pattern_no_fill(font, area, pattern, n - 1);
        lemma_segments_no_fill(font, area, n - 1);
        let e: Seq<DrawOp<C>> = seq![];
        assert(no_fill(e));
        lemma_no_fill_concat(
            font.pattern_ops(area, pattern, n - 1),
            if crate::font::lit(pattern, n - 1) {
                font.seg_ops(area, n - 1)
            } else {
                e
            },
        );
    }
}

proof fn lemma_char_no_fill<C: Copy>(font: Font7Seg<C>, c: char, at: Point, target: Rect)
    requires
        font.background_color.is_none(),
    ensures
        no_fill(font.char_ops(c, at, target)),
{
    if let Some(cell) = font.cell_at(at, target) {
        if let Some(a) = font.glyph_area(cell) {
            lemma_pattern_no_fill(font, a, crate::font::pattern_of((crate::font::digit_value(c) as u32 % 10) as int), 7);
            assert(no_fill(point_ops(a, font.point_width_rate as int, font.text_color)));
        }
    }
}

/// Without a background color, drawing a string clears nothing: every shape
/// it produces belongs to a glyph, and the pixels around the glyphs are left
/// as they were.
pub proof fn lemma_no_background_no_fill<C: Copy>(font: Font7Seg<C>, s: Seq<char>, pos: Point, target: Rect)
    requires
        font.background_color.is_none(),
    ensures
        no_fill(font.string_ops(s, pos, target)),
    decreases s.len(),
{
    if s.len() > 0 {
        lemma_no_background_no_fill(font, s.drop_last(), pos, target);
        lemma_char_no_fill(font, s.last(), font.cursor_after(s.drop_last(), pos, target), target);
        lemma_no_fill_concat(
            font.string_ops(s.drop_last(), pos, target),
            font.char_ops(s.last(), font.cursor_after(s.drop_last(), pos, target), target),
        );
    }
}

/// With a background color, the shapes drawn for a character start by
/// clearing the whole of its cell on the surface to that color; the glyph's
/// shapes follow. Drawing a string draws its characters' shapes in turn.
pub proof fn lemma_background_fills_cell<C: Copy>(font: Font7Seg<C>, s: Seq<char>, c: char, pos: Point, target: Rect)
    requires
        font.background_color.is_some(),
        font.cell_at(font.cursor_after(s, pos, target), target).is_some(),
    ensures
        font.string_ops(s.push(c), pos, target) == font.string_ops(s, pos, target) + font.char_ops(
            c,
            font.cursor_after(s, pos, target),
            target,
        ),
        font.char_ops(c, font.cursor_after(s, pos, target), target).len() >= 1,
        font.char_ops(c, font.cursor_after(s, pos, target), target)[0] == op(
            font.cell_at(font.cursor_after(s, pos, target), target).unwrap().top_left,
            Shape::Fill(font.cell_at(font.cursor_after(s, pos, target), target).unwrap().size),
            font.background_color.unwrap(),
        ),
{
    assert(s.push(c).drop_last() =~= s);
}

/// Measuring depends on the font and the text alone: two measurements of the
/// same text from the same position agree.
pub proof fn lemma_measure_repeatable<C: Copy>(font: Font7Seg<C>, s: Seq<char>, pos: Point, r1: TextMetrics, r2: TextMetrics)
    requires
        r1 == font.metrics(s, pos),
        r2 == font.metrics(s, pos),
    ensures
        r1 == r2,
{
}

proof fn lemma_text_advance_nonneg<C: Copy>(font: Font7Seg<C>, s: Seq<char>)
    requires
        font.wf(),
    ensures
        font.text_advance(s) >= 0,
    decreases s.len(),
{
    if s.len() > 0 {
        font.lemma_advance_nonneg(s.last());
        lemma_text_advance_nonneg(font, s.drop_last());
    }
}

/// Where every cell lies whole on the surface, drawing a string moves the
/// cursor exactly as far as measuring it says: a cell width for each digit,
/// the point's width for each `.`, nothing for any other character.
pub proof fn lemma_draw_ends_where_measured<C: Copy>(font: Font7Seg<C>, s: Seq<char>, pos: Point, target: Rect)
    requires
        font.wf(),
        target.fits(),
        target.top_left.x <= pos.x,
        pos.x + font.text_advance(s) + font.size.width <= target.top_left.x + target.size.width,
        target.top_left.y <= pos.y,
        pos.y + font.size.height <= target.top_left.y + target.size.height,
    ensures
        font.cursor_after(s, pos, target) == font.metrics(s, pos).next_position,
    decreases s.len(),
{
    if s.len() > 0 {
        let c = s.last();
        font.lemma_advance_nonneg(c);
        lemma_text_advance_nonneg(font, s.drop_last());
        assert(font.text_advance(s) == font.text_advance(s.drop_last()) + font.advance(c));
        lemma_draw_ends_where_measured(font, s.drop_last(), pos, target);
        let p = font.cursor_after(s.drop_last(), pos, target);
        let req = Rect { top_left: p, size: font.size };
        assert(req.meets(target));
        assert(req.overlap(target) == req);
        assert(font.cell_advance(c, p, target) == font.advance(c));
    }
}

/// The measured width adds up over the characters: that of `s` followed by
/// `t` is that of `s` plus that of `t`.
pub proof fn lemma_text_advance_concat<C: Copy>(font: Font7Seg<C>, s: Seq<char>, t: Seq<char>)
    ensures
        font.text_advance(s + t) == font.text_advance(s) + font.text_advance(t),
    decreases t.len(),
{
    if t.len() > 0 {
        assert((s + t).drop_last() =~= s + t.drop_last());
        lemma_text_advance_concat(font, s, t.drop_last());
    } else {
        assert(s + t =~= s);
    }
}

/// Every shape in `ops` is placed from an origin that is a pixel of `r`.
pub open spec fn anchored_in<C>(ops: Seq<DrawOp<C>>, r: Rect) -> bool {
    forall|k: int|
        0 <= k < ops.len() ==> {
            let o = #[trigger] ops[k].origin;
            &&& r.top_left.x <= o.x < r.top_left.x + r.size.width
            &&& r.top_left.y <= o.y < r.top_left.y + r.size.height
        }
}

proof fn lemma_anchored_concat<C>(a: Seq<DrawOp<C>>, b: Seq<DrawOp<C>>, r: Rect)
    requires
        anchored_in(a, r),
        anchored_in(b, r),
    ensures
        anchored_in(a + b, r),
{
    assert forall|k: int| 0 <= k < (a + b).len() implies {
        let o = #[trigger] (a + b)[k].origin;
        &&& r.top_left.x <= o.x < r.top_left.x + r.size.width
        &&& r.top_left.y <= o.y < r.top_left.y + r.size.height
    } by {
        if k < a.len() {
            assert((a + b)[k] == a[k]);
        } else {
            assert((a + b)[k] == b[k - a.len()]);
        }
    }
}

/// A cropped area lies inside the surface it was cropped from and inside the
/// request.
pub proof fn lemma_crop_within(parent: Rect, x: int, y: int, size: Size)
    requires
        parent.bounded(),
        -0x3fff_ffff <= x <= 0x3fff_ffff,
        -0x3fff_ffff <= y <= 0x3fff_ffff,
        size.width <= 0x3fff_ffff,
        size.height <= 0x3fff_ffff,
    ensures
        crop_spec(parent, x, y, size) matches Some(a) ==> {
            &&& a.within(parent)
            &&& !a.is_empty()
            &&& parent.top_left.x + x <= a.top_left.x
            &&& a.top_left.x + a.size.width <= parent.top_left.x + x + size.width
            &&& parent.top_left.y + y <= a.top_left.y
            &&& a.top_left.y + a.size.height <= parent.top_left.y + y + size.height
        },
{
}

proof fn lemma_bar_anchored<C>(r: Option<Rect>, c: C, parent: Rect)
    requires
        r matches Some(a) ==> a.bounded() && a.within(parent) && !a.is_empty(),
    ensures
        anchored_in(crate::font::vert_in(r, c), parent),
        anchored_in(crate::font::hori_in(r, c), parent),
{
    if let Some(a) = r {
        let w = a.size.width as int;
        let h = a.size.height as int;
        let vs = Size { width: a.size.width, height: crate::shapes::vert_rest(h) as u32 };
        let hc = crate::shapes::ceil_frac(3 * h, 5);
        let rest = if w - 2 * hc >= 0 { w - 2 * hc } else { 0 };
        let hs = Size { width: rest as u32, height: a.size.height };
        lemma_crop_within(a, 0, crate::shapes::vert_trim(h), vs);
        lemma_crop_within(a, hc, 0, hs);
        let v = crate::font::vert_in(r, c);
        let hz = crate::font::hori_in(r, c);
        assert(anchored_in(v, parent));
        assert(anchored_in(hz, parent));
    }
}

/// Points of a vertical bar lie in its area, `w` by `h`, unless the bar is
/// squatter than its bevels: with `3 * w < 5 * h + 5` every corner has
/// `0 <= x <= w` and `0 <= y <= h`.
pub proof fn lemma_vert_points_in_area(w: int, h: int)
    requires
        0 <= w <= 0x3fff_ffff,
        0 <= h <= 0x3fff_ffff,
        3 * w < 5 * h + 5,
    ensures
        forall|k: int|
            0 <= k < 6 ==> 0 <= (#[trigger] vert_points(w, h)[k]).x <= w && 0 <= vert_points(w, h)[k].y
                <= h,
{
}

/// Points of a horizontal bar lie in its area, `w` by `h`, unless the bar is
/// shorter than its bevels: with `3 * h < 5 * w + 5` every corner has
/// `0 <= x <= w` and `0 <= y <= h`.
pub proof fn lemma_hori_points_in_area(w: int, h: int)
    requires
        0 <= w <= 0x3fff_ffff,
        0 <= h <= 0x3fff_ffff,
        3 * h < 5 * w + 5,
    ensures
        forall|k: int|
            0 <= k < 6 ==> 0 <= (#[trigger] hori_points(w, h)[k]).x <= w && 0 <= hori_points(w, h)[k].y
                <= h,
{
}

proof fn lemma_within_bounded(a: Rect, b: Rect)
    requires
        a.within(b),
        b.bounded(),
    ensures
        a.bounded(),
{
}

proof fn lemma_segment_anchored<C: Copy>(font: Font7Seg<C>, area: Rect, i: int)
    requires
        font.wf(),
        area.bounded(),
    ensures
        anchored_in(font.seg_ops(area, i), area),
{
    let w = area.size.width as int;
    let h = area.size.height as int;
    let lw = w * font.line_width_rate as int;
    let sw = crate::shapes::ceil_frac(lw, 1000);
    assert(0 <= lw <= 1000 * w) by (nonlinear_arith)
        requires lw == w * font.line_width_rate as int, 0 <= w, font.line_width_rate < 1000;
    assert(0 <= sw <= w) by (nonlinear_arith)
        requires sw == crate::shapes::ceil_frac(lw, 1000), 0 <= lw <= 1000 * w;
    let half = crate::shapes::ceil_frac(h, 2);
    let vsz = Size { width: sw as u32, height: half as u32 };
    let lsz = Size { width: sw as u32, height: (h - half) as u32 };
    let hsz = Size { width: area.size.width, height: sw as u32 };
    let d_top = crate::shapes::floor_frac(1000 * h - lw, 1000);
    let g_top = crate::shapes::floor_frac(1000 * h - lw, 2000);
    let c = font.text_color;
    let r = if i == 0 {
        crop_spec(area, 0, 0, hsz)
    } else if i == 1 {
        crop_spec(area, w - sw, 0, vsz)
    } else if i == 2 {
        crop_spec(area, w - sw, half, lsz)
    } else if i == 3 {
        crop_spec(area, 0, d_top, hsz)
    } else if i == 4 {
        crop_spec(area, 0, half, lsz)
    } else if i == 5 {
        crop_spec(area, 0, 0, vsz)
    } else {
        crop_spec(area, 0, g_top, hsz)
    };
    if i == 0 {
        lemma_crop_within(area, 0, 0, hsz);
    } else if i == 1 {
        lemma_crop_within(area, w - sw, 0, vsz);
    } else if i == 2 {
        lemma_crop_within(area, w - sw, half, lsz);
    } else if i == 3 {
        lemma_crop_within(area, 0, d_top, hsz);
    } else if i == 4 {
        lemma_crop_within(area, 0, half, lsz);
    } else if i == 5 {
        lemma_crop_within(area, 0, 0, vsz);
    } else {
        lemma_crop_within(area, 0, g_top, hsz);
    }
    if let Some(a) = r {
        lemma_within_bounded(a, area);
    }
    lemma_bar_anchored(r, c, area);
}

proof fn lemma_pattern_anchored<C: Copy>(font: Font7Seg<C>, area: Rect, pattern: u8, n: int)
    requires
        font.wf(),
        area.bounded(),
    ensures
        anchored_in(font.pattern_ops(area, pattern, n), area),
    decreases n,
{
    if n > 0 {
        lemma_pattern_anchored(font, area, pattern, n - 1);
        lemma_segment_anchored(font, area, n - 1);
        let e: Seq<DrawOp<C>> = seq![];
        lemma_anchored_concat(
            font.pattern_ops(area, pattern, n - 1),
            if crate::font::lit(pattern, n - 1) {
                font.seg_ops(area, n - 1)
            } else {
                e
            },
            area,
        );
    }
}

proof fn lemma_point_anchored<C>(area: Rect, rate: int, c: C)
    requires
        area.bounded(),
        0 < rate < 1000,
    ensures
        anchored_in(point_ops(area, rate, c), area),
{
    let w = area.size.width as int;
    let sw = crate::shapes::ceil_frac(w * rate, 1000);
    assert(0 <= sw <= w) by (nonlinear_arith)
        requires sw == crate::shapes::ceil_frac(w * rate, 1000), 0 <= w, 0 < rate < 1000;
    lemma_crop_within(area, 0, 0, Size { width: sw as u32, height: area.size.height });
}

/// Every shape of a digit or of the decimal point is placed from a pixel of
/// the glyph area, which lies inside the cell, the left margin in from its
/// left and right edges and the top margin in from its top and bottom edges.
/// Where the cell leaves no room inside its margins nothing is drawn.
pub proof fn lemma_glyph_inside_cell<C: Copy>(font: Font7Seg<C>, num: u32, point: bool, cell: Rect)
    requires
        font.wf(),
        cell.bounded(),
    ensures
        font.glyph_area(cell) matches Some(a) ==> {
            let lm = font.left_margin(cell.size.width as int);
            let tm = font.top_margin(cell.size.height as int);
            &&& anchored_in(font.number_ops(num, point, cell), a)
            &&& cell.top_left.x + lm <= a.top_left.x
            &&& a.top_left.x + a.size.width <= cell.top_left.x + cell.size.width - lm
            &&& cell.top_left.y + tm <= a.top_left.y
            &&& a.top_left.y + a.size.height <= cell.top_left.y + cell.size.height - tm
        },
        font.glyph_area(cell) is None ==> font.number_ops(num, point, cell).len() == 0,
{
    let w = cell.size.width as int;
    let h = cell.size.height as int;
    let lm = font.left_margin(w);
    let tm = font.top_margin(h);
    assert(0 <= lm <= w) by (nonlinear_arith)
        requires lm == crate::shapes::ceil_frac(w * font.left_margin_rate as int, 1000), 0 <= w, 0 < font.left_margin_rate < 1000;
    assert(0 <= tm <= h) by (nonlinear_arith)
        requires tm == crate::shapes::ceil_frac(h * font.top_margin_rate as int, 1000), 0 <= h, 0 < font.top_margin_rate < 1000;
    let sub = Size {
        width: Font7Seg::<C>::inset(w, lm) as u32,
        height: Font7Seg::<C>::inset(h, tm) as u32,
    };
    lemma_crop_within(cell, lm, tm, sub);
    if let Some(a) = font.glyph_area(cell) {
        lemma_within_bounded(a, cell);
        if point {
            lemma_point_anchored(a, font.point_width_rate as int, font.text_color);
        } else {
            lemma_pattern_anchored(font, a, crate::font::pattern_of((num % 10) as int), 7);
        }
    }
}

/// A vertical segment stays inside its area when the area is at least as
/// tall as it is wide: the bar is the area less a twentieth of its height at
/// each end, and every corner of its shapes lies in the bar, right and
/// bottom edges included. Where trimming leaves no row, nothing is drawn.
pub proof fn lemma_vert_bar_in_area<C>(area: Rect, c: C)
    requires
        area.bounded(),
        1 <= area.size.width <= area.size.height,
    ensures
        ({
            let w = area.size.width as int;
            let h = area.size.height as int;
            let t = crate::shapes::vert_trim(h);
            let rest = crate::shapes::vert_rest(h);
            if rest > 0 {
                &&& vert_ops(area, c) == crate::shapes::polygon_ops(
                    Point { x: area.top_left.x, y: (area.top_left.y + t) as i32 },
                    vert_points(w, rest),
                    c,
                )
                &&& 0 <= t
                &&& t + rest <= h
                &&& forall|k: int|
                    0 <= k < 6 ==> 0 <= (#[trigger] vert_points(w, rest)[k]).x <= w && 0
                        <= vert_points(w, rest)[k].y <= rest
            } else {
                vert_ops(area, c).len() == 0
            }
        }),
{
    let w = area.size.width as int;
    let h = area.size.height as int;
    let t = crate::shapes::vert_trim(h);
    let rest = crate::shapes::vert_rest(h);
    assert(t == (h + 19) / 20);
    if rest > 0 {
        assert(3 * w < 5 * rest + 5) by (nonlinear_arith)
            requires
                1 <= w <= h,
                t == (h + 19) / 20,
                rest == h - 2 * t,
                rest > 0;
        lemma_vert_points_in_area(w, rest);
    }
}

/// A horizontal segment stays inside its area when the area is long enough
/// for its thickness (`9 * h + 3 < 5 * w`, which a bar a fifth of its length
/// thick meets from a length of four): the bar is the area less the bevel at
/// each end, and every corner of its shapes lies in the bar, right and bottom
/// edges included.
pub proof fn lemma_hori_bar_in_area<C>(area: Rect, c: C)
    requires
        area.bounded(),
        1 <= area.size.height,
        9 * area.size.height + 3 < 5 * area.size.width,
    ensures
        ({
            let w = area.size.width as int;
            let h = area.size.height as int;
            let cut = crate::shapes::ceil_frac(3 * h, 5);
            let rest = w - 2 * cut;
            &&& 0 < cut
            &&& 0 < rest
            &&& hori_ops(area, c) == crate::shapes::polygon_ops(
                Point { x: (area.top_left.x + cut) as i32, y: area.top_left.y },
                hori_points(rest, h),
                c,
            )
            &&& forall|k: int|
                0 <= k < 6 ==> 0 <= (#[trigger] hori_points(rest, h)[k]).x <= rest && 0
                    <= hori_points(rest, h)[k].y <= h
        }),
{
    let w = area.size.width as int;
    let h = area.size.height as int;
    let cut = crate::shapes::ceil_frac(3 * h, 5);
    assert(cut == (3 * h + 4) / 5);
    let rest = w - 2 * cut;
    assert(0 < cut && 3 * h < 5 * rest + 5) by (nonlinear_arith)
        requires
            1 <= h,
            9 * h + 3 < 5 * w,
            cut == (3 * h + 4) / 5,
            rest == w - 2 * cut;
    lemma_hori_points_in_area(rest, h);
}

} // verus!
