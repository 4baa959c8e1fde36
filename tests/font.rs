use font_7seg::font::{segment_pattern, Baseline, Font7Seg};
use font_7seg::geometry::{crop, Point, Rect, Size};
use font_7seg::shapes::{draw_segment_vert, DrawOp, Shape};

const RED: u32 = 0xf800;
const BLUE: u32 = 0x001f;

fn screen() -> Rect {
    Rect::new(Point::new(0, 0), Size::new(1000, 1000))
}

fn p(x: i32, y: i32) -> Point {
    Point::new(x, y)
}

fn fills(ops: &[DrawOp<u32>]) -> usize {
    ops.iter().filter(|o| matches!(o.shape, Shape::Fill(_))).count()
}

#[test]
fn new_uses_default_rates() {
    let font = Font7Seg::new(Size::new(10, 20), RED);
    assert_eq!(font.character_size(), Size::new(10, 20));
    assert_eq!(font.line_height(), 20);
    assert_eq!(font.line_width_rate, 200);
    assert_eq!(font.top_margin_rate, 50);
    assert_eq!(font.left_margin_rate, 50);
    assert_eq!(font.point_width_rate, 200);
    assert_eq!(font.background_color, None);
}

#[test]
fn digit_patterns() {
    assert_eq!(segment_pattern(8), 0b0111_1111);
    assert_eq!(segment_pattern(1), 0b0000_0110);
    assert_eq!(segment_pattern(0), 0b0011_1111);
    assert_eq!(segment_pattern(18), 0b0111_1111);
}

#[test]
fn eight_lights_all_segments_and_one_two() {
    let font = Font7Seg::new(Size::new(20, 40), RED);
    let (eight, _) = font.draw_string("8", p(0, 0), Baseline::Top, screen());
    assert_eq!(eight.len(), 7 * 3);
    let (one, _) = font.draw_string("1", p(0, 0), Baseline::Top, screen());
    assert_eq!(one.len(), 2 * 3);
    let (zero, _) = font.draw_string("0", p(0, 0), Baseline::Top, screen());
    assert_eq!(zero.len(), 6 * 3);
}

#[test]
fn segment_a_geometry() {
    let font = Font7Seg::new(Size::new(20, 40), RED);
    let (ops, _) = font.draw_string("7", p(0, 0), Baseline::Top, screen());
    assert_eq!(ops[0].origin, p(4, 2));
    assert_eq!(ops[0].shape, Shape::Triangle(p(0, 2), p(2, 0), p(2, 4)));
    assert_eq!(ops[1].shape, Shape::Triangle(p(9, 0), p(12, 2), p(9, 4)));
    assert_eq!(ops[2].shape, Shape::Rectangle(p(2, 4), p(9, 0)));
    assert_eq!(ops[0].color, RED);
}

#[test]
fn advance_over_digits() {
    let font = Font7Seg::new(Size::new(10, 20), RED);
    let (_, cur) = font.draw_string("0123", p(1, 1), Baseline::Top, screen());
    assert_eq!(cur, p(41, 1));
}

#[test]
fn advance_over_point() {
    let font = Font7Seg::new(Size::new(10, 20), RED);
    let (ops, cur) = font.draw_string("0123.", p(0, 0), Baseline::Top, screen());
    assert_eq!(cur, p(44, 0));
    assert!(matches!(ops[ops.len() - 1].shape, Shape::Circle(_, _)));
}

#[test]
fn unknown_character_skipped() {
    let font = Font7Seg::new(Size::new(10, 20), RED);
    let (ops, cur) = font.draw_string("0x1", p(0, 0), Baseline::Top, screen());
    assert_eq!(cur, p(20, 0));
    let (zero, _) = font.draw_string("0", p(0, 0), Baseline::Top, screen());
    let (one, _) = font.draw_string("1", p(10, 0), Baseline::Top, screen());
    assert_eq!(ops.len(), zero.len() + one.len());
    for (a, b) in ops[zero.len()..].iter().zip(one.iter()) {
        assert_eq!(a.origin, b.origin);
        assert_eq!(a.shape, b.shape);
    }
}

#[test]
fn measure_sums_characters() {
    let font = Font7Seg::new(Size::new(10, 20), RED);
    let m = font.measure_string("12.3a", p(5, 7), Baseline::Top);
    assert_eq!(m.bounding_box, Rect::new(p(5, 7), Size::new(34, 20)));
    assert_eq!(m.next_position, p(39, 7));
    let empty = font.measure_string("", p(5, 7), Baseline::Bottom);
    assert_eq!(empty.bounding_box.size, Size::new(0, 20));
    assert_eq!(empty.next_position, p(5, 7));
}

#[test]
fn measure_digits_and_point() {
    let font = Font7Seg::new(Size::new(10, 20), RED);
    let m = font.measure_string("0123.", p(0, 0), Baseline::Top);
    assert_eq!(m.next_position.x, 40 + font.calc_point_width() as i32);
}

#[test]
fn measure_is_repeatable() {
    let font = Font7Seg::new(Size::new(13, 29), RED);
    let a = font.measure_string("9.87x", p(-3, 4), Baseline::Middle);
    let b = font.measure_string("9.87x", p(-3, 4), Baseline::Middle);
    assert_eq!(a, b);
}

#[test]
fn point_width_values() {
    assert_eq!(Font7Seg::new(Size::new(10, 20), RED).calc_point_width(), 4);
    assert_eq!(Font7Seg::new(Size::new(20, 40), RED).calc_point_width(), 6);
}

#[test]
fn background_clears_each_cell_first() {
    let mut font = Font7Seg::new(Size::new(10, 20), RED);
    font.set_background_color(Some(BLUE));
    let (ops, _) = font.draw_string("1x.", p(3, 4), Baseline::Top, screen());
    assert_eq!(ops[0].origin, p(3, 4));
    assert_eq!(ops[0].shape, Shape::Fill(Size::new(10, 20)));
    assert_eq!(ops[0].color, BLUE);
    assert_eq!(fills(&ops), 3);
    assert_eq!(ops[7].origin, p(13, 4));
    assert_eq!(ops[7].shape, Shape::Fill(Size::new(10, 20)));
}

#[test]
fn no_background_no_clear() {
    let mut font = Font7Seg::new(Size::new(10, 20), RED);
    font.set_background_color(Some(BLUE));
    font.set_background_color(None);
    let (ops, _) = font.draw_string("0123.", p(0, 0), Baseline::Top, screen());
    assert_eq!(fills(&ops), 0);
}

#[test]
fn text_color_setter() {
    let mut font = Font7Seg::new(Size::new(10, 20), RED);
    font.set_text_color(None);
    assert_eq!(font.text_color, RED);
    font.set_text_color(Some(BLUE));
    assert_eq!(font.text_color, BLUE);
    let (ops, _) = font.draw_string("1", p(0, 0), Baseline::Top, screen());
    assert!(ops.iter().all(|o| o.color == BLUE));
}

#[test]
fn whitespace_advances_by_cells() {
    let font = Font7Seg::new(Size::new(10, 20), RED);
    assert_eq!(font.draw_whitespace(3, p(2, 5), Baseline::Top), p(32, 5));
}

#[test]
fn cell_cut_at_surface_edge() {
    let font = Font7Seg::new(Size::new(10, 20), RED);
    let small = Rect::new(p(0, 0), Size::new(15, 15));
    let mut bg = font;
    bg.set_background_color(Some(BLUE));
    let (ops, cur) = bg.draw_string("8", p(10, 0), Baseline::Top, small);
    assert_eq!(cur, p(15, 0));
    assert_eq!(ops[0].origin, p(10, 0));
    assert_eq!(ops[0].shape, Shape::Fill(Size::new(5, 15)));
    let (none, off) = font.draw_string("8", p(100, 0), Baseline::Top, small);
    assert!(none.is_empty());
    assert_eq!(off, p(100, 0));
}

#[test]
fn crop_keeps_inside_part() {
    let parent = Rect::new(p(10, 10), Size::new(5, 5));
    let r = crop(parent, -2, -2, Size::new(4, 4));
    assert_eq!(r, Some(Rect::new(p(10, 10), Size::new(2, 2))));
    assert_eq!(crop(parent, 6, 0, Size::new(4, 4)), None);
}

#[test]
fn glyph_shapes_start_inside_margins() {
    let font = Font7Seg::new(Size::new(20, 40), RED);
    let (ops, _) = font.draw_string("8.", p(7, 9), Baseline::Top, screen());
    assert_eq!(ops.len(), 22);
    for (k, o) in ops.iter().enumerate() {
        let left = if k < 21 { 7 } else { 27 };
        assert!(o.origin.x >= left + 1 && o.origin.x < left + 19);
        assert!(o.origin.y >= 9 + 2 && o.origin.y < 9 + 38);
    }
}

#[test]
fn decimal_point_geometry() {
    let font = Font7Seg::new(Size::new(20, 40), RED);
    let (ops, cur) = font.draw_string(".", p(0, 0), Baseline::Top, screen());
    assert_eq!(cur, p(6, 0));
    assert_eq!(ops.len(), 1);
    assert_eq!(ops[0].origin, p(1, 2));
    assert_eq!(ops[0].shape, Shape::Circle(p(2, 32), 4));
}

#[test]
fn drawing_ends_where_measuring_does() {
    let font = Font7Seg::new(Size::new(10, 20), RED);
    let (_, cur) = font.draw_string("0123.", p(1, 1), Baseline::Top, screen());
    assert_eq!(cur, p(41 + font.calc_point_width() as i32, 1));
    assert_eq!(cur, p(45, 1));
    let m = font.measure_string("0123.", p(1, 1), Baseline::Top);
    assert_eq!(m.next_position, cur);
}

#[test]
fn vertical_bars_trimmed_and_split_in_half() {
    let font = Font7Seg::new(Size::new(20, 40), RED);
    let (ops, _) = font.draw_string("1", p(0, 0), Baseline::Top, screen());
    assert_eq!(ops.len(), 6);
    assert_eq!(ops[0].origin, p(15, 3));
    assert_eq!(ops[0].shape, Shape::Triangle(p(2, 0), p(4, 2), p(0, 2)));
    assert_eq!(ops[1].shape, Shape::Triangle(p(4, 13), p(2, 16), p(0, 13)));
    assert_eq!(ops[2].shape, Shape::Rectangle(p(0, 2), p(4, 13)));
    assert_eq!(ops[3].origin, p(15, 21));
    assert_eq!(ops[4].shape, Shape::Triangle(p(4, 13), p(2, 16), p(0, 13)));
}

#[test]
fn vertical_bar_stays_in_square_area() {
    let area = Rect::new(p(0, 0), Size::new(10, 10));
    let mut ops: Vec<DrawOp<u32>> = Vec::new();
    draw_segment_vert(area, RED, &mut ops);
    assert_eq!(ops.len(), 3);
    assert_eq!(ops[0].origin, p(0, 1));
    let inside = |q: &Point| q.x >= 0 && q.x <= 10 && q.y >= 0 && q.y <= 8;
    for o in ops.iter() {
        match o.shape {
            Shape::Triangle(a, b, c) => assert!(inside(&a) && inside(&b) && inside(&c)),
            Shape::Rectangle(a, b) => assert!(inside(&a) && inside(&b)),
            _ => panic!("unexpected shape"),
        }
    }
}
