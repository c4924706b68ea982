use moto_dashboard::dashboard::{DashboardContext, RingOffsets};
use moto_dashboard::draw::{DrawOp, Shape};
use moto_dashboard::gauge::Gauge;
use moto_dashboard::color::Style;
use moto_dashboard::geometry::{Point, Rectangle, Size};

type Dial = Gauge<220, 220, 96800, 160>;

/// A context whose ring point at position `i` has `x == 110 + (i + 120) % 360 + tag`.
fn context() -> DashboardContext<220, 220> {
    let ring = |tag: i32| -> Vec<(i32, i32)> { (0..360).map(|a| (a + tag, 0)).collect() };
    DashboardContext::<220, 220>::new(&RingOffsets { outer: ring(0), p: ring(1000), l: ring(2000), n: ring(3000) })
}

fn ring_x(position: i32, tag: i32) -> i32 {
    110 + (position + 120) % 360 + tag
}

fn labels(values: [&str; 13]) -> [heapless::String<3>; 13] {
    values.map(heapless::String::from)
}

fn speedo() -> Dial {
    Dial::new_speedo(
        Point::new(0, 10),
        labels(["0", "20", "40", "60", "80", "100", "120", "140", "160", "180", "200", "220", "240"]),
        heapless::String::from("000"),
        heapless::String::from("KM/H"),
    )
}

fn text_of(op: &DrawOp) -> (&str, Point) {
    match op {
        DrawOp::Text { content, position, .. } => (content.as_str(), *position),
        other => panic!("not a text: {:?}", other),
    }
}

#[test]
fn new_gauge_reads_zero() {
    let g = speedo();
    assert_eq!(g.value(), 0);
    assert_eq!(g.bounding_box(), Rectangle { top_left: Point { x: 0, y: 10 }, size: Size { width: 220, height: 220 } });
    assert_eq!(g.line1().as_str(), "000");
    assert_eq!(g.line2().as_str(), "KM/H");
    assert_eq!(g.texts[12].as_str(), "240");
}

#[test]
fn setters_replace_one_field() {
    let mut g = speedo();
    g.set_value(88);
    g.set_line1(heapless::String::from("abc"));
    g.set_line2(heapless::String::from("MPH"));
    assert_eq!(g.value(), 88);
    assert_eq!(g.line1().as_str(), "abc");
    assert_eq!(g.line2().as_str(), "MPH");
    assert_eq!(g.texts[1].as_str(), "20");
}

#[test]
fn static_dial_has_rims_red_line_and_26_ticks() {
    let c = context();
    let ops = speedo().draw_static(&c);
    assert_eq!(ops.len(), 3 + 26 + 13);
    let centre = Point { x: 110, y: 110 };
    assert_eq!(
        ops[0],
        DrawOp::Styled {
            shape: Shape::Arc { center: centre, diameter: 210, start_degrees: 120, sweep_degrees: 300 },
            style: c.outer_style,
        }
    );
    assert_eq!(
        ops[1],
        DrawOp::Styled {
            shape: Shape::Arc { center: centre, diameter: 200, start_degrees: 120, sweep_degrees: 300 },
            style: c.inner_style,
        }
    );
    assert_eq!(
        ops[2],
        DrawOp::Styled {
            shape: Shape::Arc { center: centre, diameter: 180, start_degrees: 0, sweep_degrees: 60 },
            style: c.redline_style,
        }
    );
    // Tick 0: a line and the value "0".
    assert_eq!(
        ops[3],
        DrawOp::Styled {
            shape: Shape::Line {
                start: Point { x: ring_x(0, 0), y: 110 },
                end: Point { x: ring_x(0, 1000), y: 110 },
            },
            style: c.tick_style,
        }
    );
    assert_eq!(text_of(&ops[4]), ("0", Point { x: ring_x(0, 2000), y: 110 }));
    // Tick 1 has no value.
    assert!(matches!(ops[5], DrawOp::Styled { .. }));
    // Tick 24, in the red zone, shows "240" at ring position 288.
    assert_eq!(
        ops[39],
        DrawOp::Styled {
            shape: Shape::Line {
                start: Point { x: ring_x(288, 0), y: 110 },
                end: Point { x: ring_x(288, 1000), y: 110 },
            },
            style: c.red_tick_style,
        }
    );
    assert_eq!(text_of(&ops[40]), ("240", Point { x: ring_x(288, 2000), y: 110 }));
    match &ops[40] {
        DrawOp::Text { style, .. } => assert_eq!(*style, c.red_text_style),
        _ => unreachable!(),
    }
    // The last tick, 25, sits at ring position 300.
    match &ops[41] {
        DrawOp::Styled { shape: Shape::Line { start, .. }, .. } => assert_eq!(start.x, ring_x(300, 0)),
        other => panic!("{:?}", other),
    }
}

#[test]
fn clear_mask_fills_the_middle_with_the_background() {
    let c = context();
    assert_eq!(
        speedo().draw_clear_mask(&c),
        DrawOp::Styled {
            shape: Shape::Circle { center: Point { x: 110, y: 110 }, diameter: 160 },
            style: Style { fill_color: Some(c.back_color), stroke_color: None, stroke_width: 0 },
        }
    );
}

#[test]
fn dynamic_part_shows_labels_needle_and_reading() {
    let c = context();
    let mut g = speedo();
    g.set_value(200);
    let ops = g.draw_dynamic(&c);
    assert_eq!(ops.len(), 13 + 4);
    assert_eq!(text_of(&ops[0]), ("0", Point { x: ring_x(0, 2000), y: 110 }));
    assert_eq!(text_of(&ops[12]), ("240", Point { x: ring_x(288, 2000), y: 110 }));
    // 200 * 6 / 5 = 240: the needle points at ring position 240, tick 20.
    assert_eq!(
        ops[13],
        DrawOp::Styled {
            shape: Shape::Line {
                start: Point { x: ring_x(240, 2000), y: 110 },
                end: Point { x: ring_x(240, 3000), y: 110 },
            },
            style: c.needle_style,
        }
    );
    assert_eq!(
        ops[14],
        DrawOp::Styled {
            shape: Shape::Arc { center: Point { x: 110, y: 110 }, diameter: 75, start_degrees: 100, sweep_degrees: 340 },
            style: c.outer_style,
        }
    );
    assert_eq!(text_of(&ops[15]), ("200", Point { x: 110, y: 110 }));
    assert_eq!(text_of(&ops[16]), ("KM/H", Point { x: 110, y: 128 }));
    assert_eq!(g.line1().as_str(), "200");
    assert_eq!(g.value(), 200);
}

#[test]
fn needle_meets_each_tick_at_its_printed_value() {
    let c = context();
    for i in 0..26 {
        let mut g = speedo();
        g.set_value(10 * i);
        let ops = g.draw_dynamic(&c);
        match &ops[13] {
            DrawOp::Styled { shape: Shape::Line { start, .. }, .. } => {
                assert_eq!(start.x, ring_x(12 * i, 2000))
            }
            other => panic!("{:?}", other),
        }
    }
}

#[test]
fn needle_rounds_down_and_wraps() {
    let c = context();
    let position = |value: i32| -> i32 {
        let mut g = speedo();
        g.set_value(value);
        match &g.draw_dynamic(&c)[13] {
            DrawOp::Styled { shape: Shape::Line { start, .. }, .. } => start.x,
            other => panic!("{:?}", other),
        }
    };
    assert_eq!(position(4), ring_x(4, 2000)); // 4.8 rounds down to 4
    assert_eq!(position(299), ring_x(358, 2000));
    assert_eq!(position(300), ring_x(0, 2000)); // 360 wraps to 0
    assert_eq!(position(999_999), ring_x(1_199_998 % 360, 2000));
}

#[test]
fn widest_and_narrowest_readings_fill_the_first_line() {
    let c = context();
    let mut g = speedo();
    g.set_value(999_999);
    let ops = g.draw_dynamic(&c);
    assert_eq!(text_of(&ops[15]).0, "999999");
    assert_eq!(g.line1().as_str(), "999999");
    g.set_value(0);
    g.draw_dynamic(&c);
    assert_eq!(g.line1().as_str(), "0");
}

#[test]
fn red_zone_starts_at_tick_20_on_the_red_line() {
    let c = context();
    let ops = speedo().draw_static(&c);
    let style_at = |k: usize| match &ops[k] {
        DrawOp::Styled { style, .. } => *style,
        other => panic!("{:?}", other),
    };
    // Tick i starts at step 3 + i + (i + 1) / 2.
    assert_eq!(style_at(3 + 19 + 10), c.tick_style);
    assert_eq!(style_at(3 + 20 + 10), c.red_tick_style);
    // Tick 20 lies at ring position 240, which is 0 degrees: the start of the red line.
    match &ops[3 + 20 + 10] {
        DrawOp::Styled { shape: Shape::Line { start, .. }, .. } => assert_eq!(start.x, 110),
        other => panic!("{:?}", other),
    }
}
