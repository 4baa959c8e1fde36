use crate::geometry::{crop, crop_spec, intersection, Point, Rect, Size, COORD_MAX, SIZE_MAX};
use crate::shapes::{
    ceil_div, ceil_frac, draw_seg_point, draw_segment_hori, draw_segment_vert, floor_div,
    floor_frac, hori_ops, op, point_ops, vert_ops, DrawOp, Shape,
};
use vstd::prelude::*;
use vstd::string::StrSliceExecFns;

verus! {

/// Where the text sits relative to the position it is drawn at. Every value
/// is accepted; the position is always taken as the top-left corner.
#[derive(Clone, Copy, Debug, PartialEq, Eq, Structural)]
pub enum Baseline {
    Top,
    Bottom,
    Middle,
    Alphabetic,
}

/// The extent of a string and the position that follows it.
#[derive(Clone, Copy, Debug, PartialEq, Eq, Structural)]
pub struct TextMetrics {
    pub bounding_box: Rect,
    pub next_position: Point,
}

/// A seven-segment LED style font. The rates are thousandths of the cell's
/// width (bar thickness, left margin, decimal point) or height (top margin).
#[derive(Clone, Copy, Debug)]
pub struct Font7Seg<C> {
    pub size: Size,
    pub text_color: C,
    pub background_color: Option<C>,
    pub line_width_rate: u32,
    pub top_margin_rate: u32,
    pub left_margin_rate: u32,
    pub point_width_rate: u32,
}

/// The segments lit for digit `d`: bit `i` stands for segment `a` to `g`
/// (top, top right, bottom right, bottom, bottom left, top left, middle).
pub open spec fn pattern_of(d: int) -> u8 {
    if d == 0 {
        0b0011_1111
    } else if d == 1 {
        0b0000_0110
    } else if d == 2 {
        0b0101_1011
    } else if d == 3 {
        0b0100_1111
    } else if d == 4 {
        0b0110_0110
    } else if d == 5 {
        0b0110_1101
    } else if d == 6 {
        0b0111_1101
    } else if d == 7 {
        0b0010_0111
    } else if d == 8 {
        0b0111_1111
    } else {
        0b0110_1111
    }
}

/// Segment `i` (0 for `a` up to 6 for `g`) is lit in `pattern`.
pub open spec fn lit(pattern: u8, i: int) -> bool {
    pattern & (1u8 << (i as u8)) != 0
}

pub open spec fn is_digit(c: char) -> bool {
    '0' <= c && c <= '9'
}

pub open spec fn digit_value(c: char) -> int {
    c as int - '0' as int
}

pub open spec fn vert_in<C>(r: Option<Rect>, color: C) -> Seq<DrawOp<C>> {
    match r {
        Some(a) => vert_ops(a, color),
        None => seq![],
    }
}

pub open spec fn hori_in<C>(r: Option<Rect>, color: C) -> Seq<DrawOp<C>> {
    match r {
        Some(a) => hori_ops(a, color),
        None => seq![],
    }
}

/// The segment pattern of the last decimal digit of `num`.
pub fn segment_pattern(num: u32) -> (r: u8)
    ensures
        r == pattern_of((num % 10) as int),
{
    let d = num % 10;
    if d == 0 {
        0b0011_1111
    } else if d == 1 {
        0b0000_0110
    } else if d == 2 {
        0b0101_1011
    } else if d == 3 {
        0b0100_1111
    } else if d == 4 {
        0b0110_0110
    } else if d == 5 {
        0b0110_1101
    } else if d == 6 {
        0b0111_1101
    } else if d == 7 {
        0b0010_0111
    } else if d == 8 {
        0b0111_1111
    } else {
        0b0110_1111
    }
}

impl<C: Copy> Font7Seg<C> {
    /// A usable font: a non-empty cell no larger than `SIZE_MAX` each way,
    /// and every rate strictly between zero and one.
    pub open spec fn wf(self) -> bool {
        &&& 0 < self.size.width <= SIZE_MAX
        &&& 0 < self.size.height <= SIZE_MAX
        &&& 0 < self.line_width_rate < 1000
        &&& 0 < self.top_margin_rate < 1000
        &&& 0 < self.left_margin_rate < 1000
        &&& 0 < self.point_width_rate < 1000
    }

    /// The shapes of segment `i` in the glyph area `area`.
    pub open spec fn seg_ops(self, area: Rect, i: int) -> Seq<DrawOp<C>> {
        let w = area.size.width as int;
        let h = area.size.height as int;
        let lw = w * self.line_width_rate as int;
        let sw = ceil_frac(lw, 1000);
        let half = ceil_frac(h, 2);
        let vsz = Size { width: sw as u32, height: half as u32 };
        let lsz = Size { width: sw as u32, height: (h - half) as u32 };
        let hsz = Size { width: area.size.width, height: sw as u32 };
        let c = self.text_color;
        if i == 0 {
            hori_in(crop_spec(area, 0, 0, hsz), c)
        } else if i == 1 {
            vert_in(crop_spec(area, w - sw, 0, vsz), c)
        } else if i == 2 {
            vert_in(crop_spec(area, w - sw, half, lsz), c)
        } else if i == 3 {
            hori_in(crop_spec(area, 0, floor_frac(1000 * h - lw, 1000), hsz), c)
        } else if i == 4 {
            vert_in(crop_spec(area, 0, half, lsz), c)
        } else if i == 5 {
            vert_in(crop_spec(area, 0, 0, vsz), c)
        } else {
            hori_in(crop_spec(area, 0, floor_frac(1000 * h - lw, 2000), hsz), c)
        }
    }

    /// The shapes of the first `n` segments of `pattern` that are lit, in
    /// order from `a`.
    pub open spec fn pattern_ops(self, area: Rect, pattern: u8, n: int) -> Seq<DrawOp<C>>
        decreases n,
    {
        if n <= 0 {
            seq![]
        } else {
            self.pattern_ops(area, pattern, n - 1) + if lit(pattern, n - 1) {
                self.seg_ops(area, n - 1)
            } else {
                seq![]
            }
        }
    }

    pub open spec fn left_margin(self, w: int) -> int {
        ceil_frac(w * self.left_margin_rate as int, 1000)
    }

    pub open spec fn top_margin(self, h: int) -> int {
        ceil_frac(h * self.top_margin_rate as int, 1000)
    }

    /// What is left of a cell side `s` once margins `m` come off both ends.
    pub open spec fn inset(s: int, m: int) -> int {
        if s - 2 * m >= 0 {
            s - 2 * m
        } else {
            0
        }
    }

    /// The area a glyph is drawn in: `cell` without its margins.
    pub open spec fn glyph_area(self, cell: Rect) -> Option<Rect> {
        let w = cell.size.width as int;
        let h = cell.size.height as int;
        let lm = self.left_margin(w);
        let tm = self.top_margin(h);
        crop_spec(
            cell,
            lm,
            tm,
            Size { width: Self::inset(w, lm) as u32, height: Self::inset(h, tm) as u32 },
        )
    }

    /// The shapes of digit `num` (when `point` is false) or of the decimal
    /// point, drawn in `cell`.
    pub open spec fn number_ops(self, num: u32, point: bool, cell: Rect) -> Seq<DrawOp<C>> {
        match self.glyph_area(cell) {
            Some(a) => if point {
                point_ops(a, self.point_width_rate as int, self.text_color)
            } else {
                self.pattern_ops(a, pattern_of((num % 10) as int), 7)
            },
            None => seq![],
        }
    }

    /// How far the cursor moves past the decimal point drawn in a cell `w`
    /// wide: the cell's margins and the point's share of the width between
    /// them.
    pub open spec fn point_advance_in(self, w: int) -> int {
        let inner = Self::inset(w, self.left_margin(w));
        w - inner + ceil_frac(inner * self.point_width_rate as int, 1000)
    }

    /// How far the cursor moves past the decimal point in a whole cell.
    pub open spec fn point_advance(self) -> int {
        self.point_advance_in(self.size.width as int)
    }

    /// How far the cursor moves past `c` in a whole cell.
    pub open spec fn advance(self, c: char) -> int {
        if is_digit(c) {
            self.size.width as int
        } else if c == '.' {
            self.point_advance()
        } else {
            0
        }
    }

    /// The measured width of `s`: the cell width for each digit, the point's
    /// advance for each `.`, nothing for any other character.
    pub open spec fn text_advance(self, s: Seq<char>) -> int
        decreases s.len(),
    {
        if s.len() == 0 {
            0
        } else {
            self.text_advance(s.drop_last()) + self.advance(s.last())
        }
    }

    /// A full cell width for each digit and each `.` of `s`: the most that
    /// drawing `s` can move the cursor.
    pub open spec fn span(self, s: Seq<char>) -> int
        decreases s.len(),
    {
        if s.len() == 0 {
            0
        } else {
            self.span(s.drop_last()) + if is_digit(s.last()) || s.last() == '.' {
                self.size.width as int
            } else {
                0
            }
        }
    }

    /// The part of the surface `target` that the cell at `at` covers.
    pub open spec fn cell_at(self, at: Point, target: Rect) -> Option<Rect> {
        let req = Rect { top_left: at, size: self.size };
        if req.meets(target) {
            Some(req.overlap(target))
        } else {
            None
        }
    }

    /// The shapes for character `c` in the cell at `at`: the cell cleared to
    /// the background color, when there is one, then the glyph.
    pub open spec fn char_ops(self, c: char, at: Point, target: Rect) -> Seq<DrawOp<C>> {
        match self.cell_at(at, target) {
            Some(cell) => {
                let bg = match self.background_color {
                    Some(b) => seq![op(cell.top_left, Shape::Fill(cell.size), b)],
                    None => seq![],
                };
                bg + if is_digit(c) {
                    self.number_ops(digit_value(c) as u32, false, cell)
                } else if c == '.' {
                    self.number_ops(0, true, cell)
                } else {
                    seq![]
                }
            },
            None => seq![],
        }
    }

    /// How far the cursor moves past `c` drawn at `at` on `target`: the
    /// advance of its glyph in the part of the cell that lies on the surface,
    /// and nothing where no part of it does.
    pub open spec fn cell_advance(self, c: char, at: Point, target: Rect) -> int {
        match self.cell_at(at, target) {
            Some(cell) => if is_digit(c) {
                cell.size.width as int
            } else if c == '.' {
                self.point_advance_in(cell.size.width as int)
            } else {
                0
            },
            None => 0,
        }
    }

    /// The cursor after `s`, drawn from `pos` on `target`.
    pub open spec fn cursor_after(self, s: Seq<char>, pos: Point, target: Rect) -> Point
        decreases s.len(),
    {
        if s.len() == 0 {
            pos
        } else {
            let p = self.cursor_after(s.drop_last(), pos, target);
            Point { x: (p.x + self.cell_advance(s.last(), p, target)) as i32, y: p.y }
        }
    }

    /// The shapes for `s` drawn from `pos`, character after character.
    pub open spec fn string_ops(self, s: Seq<char>, pos: Point, target: Rect) -> Seq<DrawOp<C>>
        decreases s.len(),
    {
        if s.len() == 0 {
            seq![]
        } else {
            self.string_ops(s.drop_last(), pos, target) + self.char_ops(
                s.last(),
                self.cursor_after(s.drop_last(), pos, target),
                target,
            )
        }
    }
}

impl<C: Copy> Font7Seg<C> {
    /// A font with cells of `size` in `text_color`, no background, bars a fifth
    /// of the cell's width thick, margins of a twentieth of the cell on each
    /// side, and a decimal point a fifth of the glyph's width wide.
    pub fn new(size: Size, text_color: C) -> (r: Self)
        requires
            0 < size.width <= SIZE_MAX,
            0 < size.height <= SIZE_MAX,
        ensures
            r.wf(),
            r.size == size,
            r.text_color == text_color,
            r.background_color.is_none(),
            r.line_width_rate == 200,
            r.top_margin_rate == 50,
            r.left_margin_rate == 50,
            r.point_width_rate == 200,
    {
        Font7Seg {
            size,
            text_color,
            background_color: None,
            line_width_rate: 200,
            top_margin_rate: 50,
            left_margin_rate: 50,
            point_width_rate: 200,
        }
    }

    /// The size of one character cell.
    pub fn character_size(&self) -> (r: Size)
        ensures
            r == self.size,
    {
        self.size
    }

    /// `s * rate`, for a side and a rate in thousandths.
    fn scaled(s: u32, rate: u32) -> (r: i64)
        requires
            s <= SIZE_MAX,
            rate < 1000,
        ensures
            r == s * rate,
            0 <= r <= s * 1000,
    {
        assert(0 <= s * rate <= s * 1000) by (nonlinear_arith)
            requires rate < 1000;
        s as i64 * rate as i64
    }

    /// `ceil(s * rate / 1000)`, which is at most `s`.
    fn share(s: u32, rate: u32) -> (r: i64)
        requires
            s <= SIZE_MAX,
            rate < 1000,
        ensures
            r == ceil_frac(s * rate, 1000),
            0 <= r <= s,
    {
        assert(0 <= s * rate <= SIZE_MAX * 1000) by (nonlinear_arith)
            requires s <= SIZE_MAX, rate < 1000;
        let r = ceil_div(s as i64 * rate as i64, 1000);
        assert(r <= s) by (nonlinear_arith)
            requires r == ceil_frac(s * rate, 1000), rate < 1000, 0 <= s * rate;
        r
    }

    fn draw_seg_a(&self, area: Rect, out: &mut Vec<DrawOp<C>>)
        requires
            self.wf(),
            area.bounded(),
        ensures
            final(out)@ == old(out)@ + self.seg_ops(area, 0),
    {
        let sw = Self::share(area.size.width, self.line_width_rate);
        let sub = Size { width: area.size.width, height: sw as u32 };
        if let Some(a) = crop(area, 0, 0, sub) {
            draw_segment_hori(a, self.text_color, out);
        }
    }

    fn draw_seg_b(&self, area: Rect, out: &mut Vec<DrawOp<C>>)
        requires
            self.wf(),
            area.bounded(),
        ensures
            final(out)@ == old(out)@ + self.seg_ops(area, 1),
    {
        let w = area.size.width as i64;
        let sw = Self::share(area.size.width, self.line_width_rate);
        let sh = ceil_div(area.size.height as i64, 2);
        let sub = Size { width: sw as u32, height: sh as u32 };
        if let Some(a) = crop(area, w - sw, 0, sub) {
            draw_segment_vert(a, self.text_color, out);
        }
    }

    fn draw_seg_c(&self, area: Rect, out: &mut Vec<DrawOp<C>>)
        requires
            self.wf(),
            area.bounded(),
        ensures
            final(out)@ == old(out)@ + self.seg_ops(area, 2),
    {
        let w = area.size.width as i64;
        let h = area.size.height as i64;
        let sw = Self::share(area.size.width, self.line_width_rate);
        let top = ceil_div(h, 2);
        let sub = Size { width: sw as u32, height: (h - top) as u32 };
        if let Some(a) = crop(area, w - sw, top, sub) {
            draw_segment_vert(a, self.text_color, out);
        }
    }

    fn draw_seg_d(&self, area: Rect, out: &mut Vec<DrawOp<C>>)
        requires
            self.wf(),
            area.bounded(),
        ensures
            final(out)@ == old(out)@ + self.seg_ops(area, 3),
    {
        let w = area.size.width as i64;
        let h = area.size.height as i64;
        let lw = Self::scaled(area.size.width, self.line_width_rate);
        let sw = Self::share(area.size.width, self.line_width_rate);
        let top = floor_div(1000 * h - lw, 1000);
        let sub = Size { width: area.size.width, height: sw as u32 };
        if let Some(a) = crop(area, 0, top, sub) {
            draw_segment_hori(a, self.text_color, out);
        }
    }

    fn draw_seg_e(&self, area: Rect, out: &mut Vec<DrawOp<C>>)
        requires
            self.wf(),
            area.bounded(),
        ensures
            final(out)@ == old(out)@ + self.seg_ops(area, 4),
    {
        let h = area.size.height as i64;
        let sw = Self::share(area.size.width, self.line_width_rate);
        let top = ceil_div(h, 2);
        let sub = Size { width: sw as u32, height: (h - top) as u32 };
        if let Some(a) = crop(area, 0, top, sub) {
            draw_segment_vert(a, self.text_color, out);
        }
    }

    fn draw_seg_f(&self, area: Rect, out: &mut Vec<DrawOp<C>>)
        requires
            self.wf(),
            area.bounded(),
        ensures
            final(out)@ == old(out)@ + self.seg_ops(area, 5),
    {
        let sw = Self::share(area.size.width, self.line_width_rate);
        let sh = ceil_div(area.size.height as i64, 2);
        let sub = Size { width: sw as u32, height: sh as u32 };
        if let Some(a) = crop(area, 0, 0, sub) {
            draw_segment_vert(a, self.text_color, out);
        }
    }

    fn draw_seg_g(&self, area: Rect, out: &mut Vec<DrawOp<C>>)
        requires
            self.wf(),
            area.bounded(),
        ensures
            final(out)@ == old(out)@ + self.seg_ops(area, 6),
    {
        let w = area.size.width as i64;
        let h = area.size.height as i64;
        let lw = Self::scaled(area.size.width, self.line_width_rate);
        let sw = Self::share(area.size.width, self.line_width_rate);
        let top = floor_div(1000 * h - lw, 2000);
        let sub = Size { width: area.size.width, height: sw as u32 };
        if let Some(a) = crop(area, 0, top, sub) {
            draw_segment_hori(a, self.text_color, out);
        }
    }
}

impl<C: Copy> Font7Seg<C> {
    fn draw_seg(&self, i: u8, area: Rect, out: &mut Vec<DrawOp<C>>)
        requires
            self.wf(),
            area.bounded(),
            i < 7,
        ensures
            final(out)@ == old(out)@ + self.seg_ops(area, i as int),
    {
        if i == 0 {
            self.draw_seg_a(area, out);
        } else if i == 1 {
            self.draw_seg_b(area, out);
        } else if i == 2 {
            self.draw_seg_c(area, out);
        } else if i == 3 {
            self.draw_seg_d(area, out);
        } else if i == 4 {
            self.draw_seg_e(area, out);
        } else if i == 5 {
            self.draw_seg_f(area, out);
        } else {
            self.draw_seg_g(area, out);
        }
    }

    /// The advance past the decimal point in a cell `w` wide.
    fn point_advance_for(&self, w: u32) -> (r: u32)
        requires
            self.wf(),
            w <= SIZE_MAX,
        ensures
            r == self.point_advance_in(w as int),
            r <= w,
    {
        proof {
            self.lemma_point_advance_bounds(w as int);
        }
        let wi = w as i64;
        let lm = Self::share(w, self.left_margin_rate);
        let inner = if wi - 2 * lm >= 0 { wi - 2 * lm } else { 0 };
        let p = Self::share(inner as u32, self.point_width_rate);
        (wi - inner + p) as u32
    }

    /// Draws digit `num % 10`, or the decimal point when `point` holds, in
    /// `cell` less its margins, and returns how far the cursor moves.
    #[verifier::rlimit(40)]
    pub fn draw_number(&self, num: u32, point: bool, cell: Rect, out: &mut Vec<DrawOp<C>>) -> (r:
        u32)
        requires
            self.wf(),
            cell.bounded(),
        ensures
            final(out)@ == old(out)@ + self.number_ops(num, point, cell),
            r == if point {
                self.point_advance_in(cell.size.width as int)
            } else {
                cell.size.width as int
            },
    {
        let lm = Self::share(cell.size.width, self.left_margin_rate);
        let tm = Self::share(cell.size.height, self.top_margin_rate);
        let w = cell.size.width as i64;
        let h = cell.size.height as i64;
        let iw = if w - 2 * lm >= 0 { w - 2 * lm } else { 0 };
        let ih = if h - 2 * tm >= 0 { h - 2 * tm } else { 0 };
        let sub = Size { width: iw as u32, height: ih as u32 };
        if let Some(area) = crop(cell, lm, tm, sub) {
            if point {
                draw_seg_point(area, self.point_width_rate, self.text_color, out);
            } else {
                let pattern = segment_pattern(num);
                let ghost start = out@;
                let mut i: u8 = 0;
                while i < 7
                    invariant
                        self.wf(),
                        area.bounded(),
                        i <= 7,
                        pattern == pattern_of((num % 10) as int),
                        out@ == start + self.pattern_ops(area, pattern, i as int),
                    decreases 7 - i,
                {
                    if pattern & (1u8 << i) != 0 {
                        self.draw_seg(i, area, out);
                    }
                    i = i + 1;
                }
            }
        }
        if point {
            self.point_advance_for(cell.size.width)
        } else {
            cell.size.width
        }
    }
}

impl<C: Copy> Font7Seg<C> {
    /// The point's advance in a cell is at most the cell's width.
    pub proof fn lemma_point_advance_bounds(self, w: int)
        requires
            self.wf(),
            0 <= w,
        ensures
            0 <= self.point_advance_in(w) <= w,
    {
        let lm = self.left_margin(w);
        let inner = Self::inset(w, lm);
        let p = ceil_frac(inner * self.point_width_rate as int, 1000);
        assert(0 <= p <= inner) by (nonlinear_arith)
            requires
                p == ceil_frac(inner * self.point_width_rate as int, 1000),
                0 <= inner,
                0 < self.point_width_rate < 1000;
        assert(0 <= lm) by (nonlinear_arith)
            requires lm == ceil_frac(w * self.left_margin_rate as int, 1000), 0 <= w, 0 < self.left_margin_rate;
    }

    /// Each character advances the cursor by a non-negative amount, at most a
    /// cell width.
    pub proof fn lemma_advance_nonneg(self, c: char)
        requires
            self.wf(),
        ensures
            0 <= self.advance(c) <= self.size.width,
    {
        self.lemma_point_advance_bounds(self.size.width as int);
    }

    /// The span of a prefix grows by one character at a time and never passes
    /// the span of the whole text.
    pub proof fn lemma_span_prefix(self, s: Seq<char>, i: int)
        requires
            self.wf(),
            0 <= i < s.len(),
        ensures
            self.span(s.subrange(0, i + 1)) == self.span(s.subrange(0, i)) + if is_digit(s[i]) || s[i]
                == '.' {
                self.size.width as int
            } else {
                0
            },
            0 <= self.span(s.subrange(0, i + 1)) <= self.span(s),
        decreases s.len(), i,
    {
        assert(s.subrange(0, i + 1).drop_last() =~= s.subrange(0, i));
        if i + 1 < s.len() {
            assert(s.drop_last().subrange(0, i + 1) =~= s.subrange(0, i + 1));
            assert(s.drop_last().subrange(0, i) =~= s.subrange(0, i));
            self.lemma_span_prefix(s.drop_last(), i);
            assert(self.span(s) >= self.span(s.drop_last()));
        } else {
            assert(s.subrange(0, i + 1) =~= s);
            if i > 0 {
                self.lemma_span_prefix(s, i - 1);
            }
        }
    }

    /// The advance over a prefix grows by one character at a time and never
    /// passes the advance over the whole text.
    pub proof fn lemma_text_advance_prefix(self, s: Seq<char>, i: int)
        requires
            self.wf(),
            0 <= i < s.len(),
        ensures
            self.text_advance(s.subrange(0, i + 1)) == self.text_advance(s.subrange(0, i))
                + self.advance(s[i]),
            0 <= self.text_advance(s.subrange(0, i + 1)) <= self.text_advance(s),
        decreases s.len(), i,
    {
        assert(s.subrange(0, i + 1).drop_last() =~= s.subrange(0, i));
        self.lemma_advance_nonneg(s[i]);
        if i + 1 < s.len() {
            assert(s.drop_last().subrange(0, i + 1) =~= s.subrange(0, i + 1));
            assert(s.drop_last().subrange(0, i) =~= s.subrange(0, i));
            self.lemma_advance_nonneg(s.last());
            self.lemma_text_advance_prefix(s.drop_last(), i);
            assert(self.text_advance(s) == self.text_advance(s.drop_last()) + self.advance(s.last()));
        } else {
            assert(s.subrange(0, i + 1) =~= s);
            if i > 0 {
                self.lemma_text_advance_prefix(s, i - 1);
            }
        }
    }

    /// The cell at `at` on the surface `target`.
    fn cell_area(&self, at: Point, target: Rect) -> (r: Option<Rect>)
        requires
            self.wf(),
            target.fits(),
            at.x + self.size.width <= COORD_MAX,
            at.y + self.size.height <= COORD_MAX,
        ensures
            r == self.cell_at(at, target),
            r matches Some(c) ==> c.bounded() && c.size.width <= self.size.width,
    {
        let req = Rect { top_left: at, size: self.size };
        let c = intersection(req, target);
        if c.size.width == 0 || c.size.height == 0 {
            None
        } else {
            Some(c)
        }
    }

    /// Lays out `text` from `pos` on a surface whose bounds are `target`: for
    /// each character the part of its cell on the surface is cleared to the
    /// background color, when there is one, and its glyph drawn there; the
    /// cursor then moves right by the glyph's advance in that part. Characters
    /// other than digits and `.` draw nothing and do not move the cursor.
    /// Returns the shapes in drawing order and the final cursor. The baseline
    /// is not used.
    pub fn draw_string(&self, text: &str, pos: Point, baseline: Baseline, target: Rect) -> (r: (
        Vec<DrawOp<C>>,
        Point,
    ))
        requires
            self.wf(),
            target.fits(),
            pos.x + self.span(text@) + self.size.width <= COORD_MAX,
            pos.y + self.size.height <= COORD_MAX,
        ensures
            r.0@ == self.string_ops(text@, pos, target),
            r.1 == self.cursor_after(text@, pos, target),
    {
        let n = text.unicode_len();
        let mut out: Vec<DrawOp<C>> = Vec::new();
        let mut cur = pos;
        let mut i: usize = 0;
        while i < n
            invariant
                self.wf(),
                target.fits(),
                pos.x + self.span(text@) + self.size.width <= COORD_MAX,
                pos.y + self.size.height <= COORD_MAX,
                n == text@.len(),
                i <= n,
                cur == self.cursor_after(text@.subrange(0, i as int), pos, target),
                pos.x <= cur.x <= pos.x + self.span(text@.subrange(0, i as int)),
                cur.y == pos.y,
                out@ == self.string_ops(text@.subrange(0, i as int), pos, target),
            decreases n - i,
        {
            let c = text.get_char(i);
            proof {
                self.lemma_span_prefix(text@, i as int);
                assert(text@.subrange(0, i + 1).drop_last() =~= text@.subrange(0, i as int));
                assert(text@.subrange(0, i + 1).last() == c);
            }
            let ghost before = out@;
            let w = if let Some(cell) = self.cell_area(cur, target) {
                if let Some(bg) = self.background_color {
                    out.push(DrawOp { origin: cell.top_left, shape: Shape::Fill(cell.size), color: bg });
                }
                if '0' <= c && c <= '9' {
                    self.draw_number(c as u32 - '0' as u32, false, cell, &mut out)
                } else if c == '.' {
                    self.draw_number(0, true, cell, &mut out)
                } else {
                    0
                }
            } else {
                0
            };
            assert(w == self.cell_advance(c, cur, target));
            proof {
                if let Some(cl) = self.cell_at(cur, target) {
                    self.lemma_point_advance_bounds(cl.size.width as int);
                }
            }
            assert(w <= if is_digit(c) || c == '.' { self.size.width as int } else { 0 });
            assert(out@ =~= before + self.char_ops(c, cur, target));
            cur = Point { x: cur.x + w as i32, y: cur.y };
            assert(cur == self.cursor_after(text@.subrange(0, i + 1), pos, target));
            i = i + 1;
        }
        proof {
            assert(text@.subrange(0, n as int) =~= text@);
        }
        (out, cur)
    }
}

impl<C: Copy> Font7Seg<C> {
    /// The width measured for `.`: its advance in a whole cell.
    pub fn calc_point_width(&self) -> (r: u32)
        requires
            self.wf(),
        ensures
            r == self.point_advance(),
            r <= self.size.width,
    {
        self.point_advance_for(self.size.width)
    }

    /// The metrics of `s` measured from `pos`.
    pub open spec fn metrics(self, s: Seq<char>, pos: Point) -> TextMetrics {
        let w = self.text_advance(s);
        TextMetrics {
            bounding_box: Rect {
                top_left: pos,
                size: Size { width: w as u32, height: self.size.height },
            },
            next_position: Point { x: (pos.x + w) as i32, y: pos.y },
        }
    }

    /// Measures `text` without drawing: the box from `pos` as wide as the
    /// text's measured width (`text_advance`) and one line high, and the position right after
    /// it. The baseline is not used.
    pub fn measure_string(&self, text: &str, pos: Point, baseline: Baseline) -> (r: TextMetrics)
        requires
            self.wf(),
            pos.x + self.text_advance(text@) <= COORD_MAX,
        ensures
            r == self.metrics(text@, pos),
            r.bounding_box.size.width == self.text_advance(text@),
            r.next_position.x == pos.x + self.text_advance(text@),
    {
        let n = text.unicode_len();
        let mut width: i64 = 0;
        let mut i: usize = 0;
        proof {
            if n > 0 {
                assert(text@.subrange(0, n as int) =~= text@);
                self.lemma_text_advance_prefix(text@, n - 1);
            }
        }
        while i < n
            invariant
                self.wf(),
                pos.x + self.text_advance(text@) <= COORD_MAX,
                n == text@.len(),
                i <= n,
                width == self.text_advance(text@.subrange(0, i as int)),
                0 <= width <= self.text_advance(text@),
            decreases n - i,
        {
            let c = text.get_char(i);
            proof {
                self.lemma_text_advance_prefix(text@, i as int);
            }
            if '0' <= c && c <= '9' {
                width = width + self.size.width as i64;
            } else if c == '.' {
                width = width + self.calc_point_width() as i64;
            }
            i = i + 1;
        }
        proof {
            assert(text@.subrange(0, n as int) =~= text@);
        }
        TextMetrics {
            bounding_box: Rect { top_left: pos, size: Size { width: width as u32, height: self.size.height } },
            next_position: Point { x: (pos.x as i64 + width) as i32, y: pos.y },
        }
    }

    /// The height of one line of text: the cell height.
    pub fn line_height(&self) -> (r: u32)
        ensures
            r == self.size.height,
    {
        self.size.height
    }

    /// Sets the color of the digits; `None` keeps the current one.
    pub fn set_text_color(&mut self, text_color: Option<C>)
        ensures
            final(self).text_color == match text_color {
                Some(c) => c,
                None => old(self).text_color,
            },
            final(self).background_color == old(self).background_color,
            final(self).size == old(self).size,
            final(self).line_width_rate == old(self).line_width_rate,
            final(self).top_margin_rate == old(self).top_margin_rate,
            final(self).left_margin_rate == old(self).left_margin_rate,
            final(self).point_width_rate == old(self).point_width_rate,
    {
        if let Some(color) = text_color {
            self.text_color = color;
        }
    }

    /// Sets the color each cell is cleared to before its glyph is drawn;
    /// `None` leaves the cells as they are.
    pub fn set_background_color(&mut self, background_color: Option<C>)
        ensures
            final(self).background_color == background_color,
            final(self).text_color == old(self).text_color,
            final(self).size == old(self).size,
            final(self).line_width_rate == old(self).line_width_rate,
            final(self).top_margin_rate == old(self).top_margin_rate,
            final(self).left_margin_rate == old(self).left_margin_rate,
            final(self).point_width_rate == old(self).point_width_rate,
    {
        self.background_color = background_color;
    }

    /// The position `width` blank cells to the right of `pos`; nothing is drawn.
    pub fn draw_whitespace(&self, width: u32, pos: Point, baseline: Baseline) -> (r: Point)
        requires
            pos.x + self.size.width * width <= COORD_MAX,
        ensures
            r.x == pos.x + self.size.width * width,
            r.y == pos.y,
    {
        assert(0 <= self.size.width * width) by (nonlinear_arith);
        let step = self.size.width as u64 * width as u64;
        Point { x: (pos.x as i64 + step as i64) as i32, y: pos.y }
    }
}

} // verus!
