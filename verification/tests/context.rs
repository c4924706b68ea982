use moto_dashboard::color::{Color, Font, Style, TextStyle};
use moto_dashboard::dashboard::{DashboardContext, RingOffsets, L_OFFSET, N_OFFSET, OUTER_OFFSET, P_OFFSET};
use moto_dashboard::geometry::{Point, Rectangle, Size};

/// Offsets that name their own degree: `(a, -a)` at degree `a`, plus a ring tag.
fn tagged_ring(tag: i32) -> Vec<(i32, i32)> {
    (0..360).map(|a| (a + tag, -a)).collect()
}

fn tagged_offsets() -> RingOffsets {
    RingOffsets { outer: tagged_ring(0), p: tagged_ring(1000), l: tagged_ring(2000), n: tagged_ring(3000) }
}

fn context() -> DashboardContext<220, 220> {
    DashboardContext::<220, 220>::new(&tagged_offsets())
}

#[test]
fn ring_radii_are_half_the_width_less_each_offset() {
    assert_eq!(DashboardContext::<220, 220>::ring_radius(OUTER_OFFSET), 100);
    assert_eq!(DashboardContext::<220, 220>::ring_radius(P_OFFSET), 90);
    assert_eq!(DashboardContext::<220, 220>::ring_radius(L_OFFSET), 70);
    assert_eq!(DashboardContext::<220, 220>::ring_radius(N_OFFSET), 40);
}

#[test]
fn centre_is_half_the_gauge_size() {
    let c = DashboardContext::<220, 180>::new(&tagged_offsets());
    assert_eq!(c.centre, Point { x: 110, y: 90 });
}

#[test]
fn ring_position_zero_lies_at_120_degrees() {
    let c = context();
    assert_eq!(c.outer.len(), 360);
    assert_eq!(c.outer[0], Point { x: 110 + 120, y: 110 - 120 });
    assert_eq!(c.p_point[0], Point { x: 110 + 1120, y: 110 - 120 });
    assert_eq!(c.l_point[0], Point { x: 110 + 2120, y: 110 - 120 });
    assert_eq!(c.n_point[0], Point { x: 110 + 3120, y: 110 - 120 });
}

#[test]
fn ring_positions_wrap_round_the_circle() {
    let c = context();
    assert_eq!(c.outer[239], Point { x: 110 + 359, y: 110 - 359 });
    assert_eq!(c.outer[240], Point { x: 110, y: 110 });
    assert_eq!(c.outer[359], Point { x: 110 + 119, y: 110 - 119 });
}

#[test]
fn clearing_circle_bounds_the_label_ring() {
    let c = context();
    // Diameter 2 * (110 - 40) = 140; the corner lies (140 - 1) / 2 = 69 from the centre.
    assert_eq!(
        c.clearing_circle_bounds,
        Rectangle { top_left: Point { x: 41, y: 41 }, size: Size { width: 140, height: 140 } }
    );
}

#[test]
fn clearing_circle_of_even_and_zero_diameter() {
    let c = DashboardContext::<80, 80>::new(&tagged_offsets());
    assert_eq!(
        c.clearing_circle_bounds,
        Rectangle { top_left: Point { x: 40, y: 40 }, size: Size { width: 0, height: 0 } }
    );
    let c = DashboardContext::<83, 83>::new(&tagged_offsets());
    // Radius 41, diameter 2: the corner lies (2 - 1) / 2 = 0 from the centre.
    assert_eq!(
        c.clearing_circle_bounds,
        Rectangle { top_left: Point { x: 41, y: 41 }, size: Size { width: 2, height: 2 } }
    );
}

#[test]
fn palette_colours() {
    let c = context();
    assert_eq!(c.back_color, Color { raw: 0x0026 });
    assert_eq!(c.gauge_color, Color { raw: 0x055D });
    assert_eq!(c.purple, Color { raw: 0xEA16 });
    assert_eq!(c.needle_color, Color { raw: 0xF811 });
}

#[test]
fn styles() {
    let c = context();
    let white = Color { raw: 0xFFFF };
    let green = Color { raw: 0x07E0 };
    let dim = Color { raw: 0x2104 };
    let gauge = Color { raw: 0x055D };
    let purple = Color { raw: 0xEA16 };
    assert_eq!(c.outer_style, Style { fill_color: None, stroke_color: Some(gauge), stroke_width: 3 });
    assert_eq!(c.inner_style, Style { fill_color: None, stroke_color: Some(white), stroke_width: 3 });
    assert_eq!(c.redline_style, Style { fill_color: None, stroke_color: Some(purple), stroke_width: 3 });
    assert_eq!(c.tick_style, Style { fill_color: None, stroke_color: Some(white), stroke_width: 2 });
    assert_eq!(c.red_tick_style, Style { fill_color: None, stroke_color: Some(purple), stroke_width: 2 });
    assert_eq!(
        c.needle_style,
        Style { fill_color: None, stroke_color: Some(Color { raw: 0xF811 }), stroke_width: 4 }
    );
    assert_eq!(c.headlight_on_style, Style { fill_color: Some(green), stroke_color: Some(green), stroke_width: 1 });
    assert_eq!(c.headlight_high_style, Style { fill_color: Some(gauge), stroke_color: Some(gauge), stroke_width: 1 });
    assert_eq!(c.indicator_on_style, Style { fill_color: None, stroke_color: Some(green), stroke_width: 2 });
    assert_eq!(c.blinker_on_style, Style { fill_color: Some(green), stroke_color: None, stroke_width: 0 });
    assert_eq!(c.blinker_off_style, Style { fill_color: Some(dim), stroke_color: None, stroke_width: 0 });
    assert_eq!(c.light_off_style, Style { fill_color: Some(dim), stroke_color: Some(dim), stroke_width: 1 });
    assert_eq!(c.text_style, TextStyle { color: white, font: Font::Font8x13 });
    assert_eq!(c.red_text_style, TextStyle { color: purple, font: Font::Font8x13 });
    assert_eq!(c.centre_text_style, TextStyle { color: white, font: Font::Font10x20 });
}

#[test]
fn rgb_channels_are_packed_and_masked() {
    assert_eq!(Color::rgb(4, 8, 4).raw, 0x2104);
    assert_eq!(Color::rgb(31, 0, 0).raw, 0xF800);
    assert_eq!(Color::rgb(0, 63, 0).raw, 0x07E0);
    assert_eq!(Color::rgb(0, 0, 31).raw, 0x001F);
    assert_eq!(Color::rgb(255, 255, 255).raw, 0xFFFF);
    assert_eq!(Color::rgb(32, 64, 32).raw, 0x0000);
    assert_eq!(Color::black().raw, 0);
    assert_eq!(Color::white().raw, 0xFFFF);
    assert_eq!(Color::green().raw, 0x07E0);
    assert_eq!(Color::from_raw(0x1234).raw, 0x1234);
}

#[test]
fn point_offsets_add_componentwise() {
    assert_eq!(Point::new(2, 2).offset_by(Point::new(20, 50)), Point { x: 22, y: 52 });
    assert_eq!(Point::new(-5, 7).offset_by(Point::new(3, -9)), Point { x: -2, y: -2 });
}
