use moto_dashboard::color::Style;
use moto_dashboard::dashboard::{DashboardContext, RingOffsets};
use moto_dashboard::draw::{DrawOp, Shape};
use moto_dashboard::geometry::{CornerRadii, Point, Rectangle, Size};
use moto_dashboard::status_screen::{LightIndicator, StatusScreen};

type Screen = StatusScreen<80, 160, 25600, 220, 220>;

fn context() -> DashboardContext<220, 220> {
    let ring: Vec<(i32, i32)> = (0..360).map(|a| (a, 0)).collect();
    DashboardContext::<220, 220>::new(&RingOffsets {
        outer: ring.clone(),
        p: ring.clone(),
        l: ring.clone(),
        n: ring,
    })
}

fn style_of(op: &DrawOp) -> Style {
    match op {
        DrawOp::Styled { style, .. } => *style,
        other => panic!("not a shape: {:?}", other),
    }
}

#[test]
fn new_screen_has_every_lamp_off() {
    let s = Screen::new();
    assert_eq!(s.left_blinker(), LightIndicator::Off);
    assert_eq!(s.right_blinker(), LightIndicator::Off);
    assert_eq!(s.headlight_indicator(), LightIndicator::Off);
}

#[test]
fn setters_change_one_lamp_each() {
    let mut s = Screen::new();
    s.set_left_blinker(LightIndicator::On);
    assert_eq!(s.left_blinker(), LightIndicator::On);
    assert_eq!(s.right_blinker(), LightIndicator::Off);
    s.set_right_blinker(LightIndicator::High);
    assert_eq!(s.right_blinker(), LightIndicator::High);
    assert_eq!(s.left_blinker(), LightIndicator::On);
    s.set_headlight_indicator(LightIndicator::High);
    assert_eq!(s.headlight_indicator(), LightIndicator::High);
    assert_eq!(s.left_blinker(), LightIndicator::On);
    assert_eq!(s.right_blinker(), LightIndicator::High);
}

#[test]
fn dark_screen_draws_headlight_then_arrows() {
    let c = context();
    let ops = Screen::new().draw(&c);
    assert_eq!(ops.len(), 9);
    let off = c.light_off_style;
    assert_eq!(
        ops[0],
        DrawOp::Styled {
            shape: Shape::RoundedRectangle {
                area: Rectangle { top_left: Point { x: 22, y: 52 }, size: Size { width: 16, height: 20 } },
                corners: CornerRadii {
                    top_left: Size { width: 7, height: 7 },
                    top_right: Size { width: 0, height: 0 },
                    bottom_right: Size { width: 0, height: 0 },
                    bottom_left: Size { width: 7, height: 7 },
                },
            },
            style: off,
        }
    );
    assert_eq!(
        ops[1],
        DrawOp::Styled { shape: Shape::Line { start: Point { x: 41, y: 52 }, end: Point { x: 47, y: 54 } }, style: off }
    );
    assert_eq!(
        ops[4],
        DrawOp::Styled { shape: Shape::Line { start: Point { x: 41, y: 67 }, end: Point { x: 47, y: 69 } }, style: off }
    );
    assert_eq!(
        ops[5],
        DrawOp::Styled {
            shape: Shape::Triangle {
                vertex1: Point { x: 1, y: 14 },
                vertex2: Point { x: 20, y: 0 },
                vertex3: Point { x: 20, y: 28 },
            },
            style: off,
        }
    );
    assert_eq!(
        ops[6],
        DrawOp::Styled {
            shape: Shape::Rectangle {
                area: Rectangle { top_left: Point { x: 20, y: 8 }, size: Size { width: 16, height: 14 } },
            },
            style: off,
        }
    );
    // The right arrow's dark state has a style of its own.
    assert_eq!(
        ops[7],
        DrawOp::Styled {
            shape: Shape::Triangle {
                vertex1: Point { x: 79, y: 14 },
                vertex2: Point { x: 60, y: 0 },
                vertex3: Point { x: 60, y: 28 },
            },
            style: c.blinker_off_style,
        }
    );
    assert_eq!(
        ops[8],
        DrawOp::Styled {
            shape: Shape::Rectangle {
                area: Rectangle { top_left: Point { x: 44, y: 8 }, size: Size { width: 16, height: 14 } },
            },
            style: c.blinker_off_style,
        }
    );
}

#[test]
fn lamp_states_choose_styles() {
    let c = context();
    let mut s = Screen::new();
    s.set_left_blinker(LightIndicator::On);
    s.set_right_blinker(LightIndicator::High);
    s.set_headlight_indicator(LightIndicator::On);
    let ops = s.draw(&c);
    for op in &ops[0..5] {
        assert_eq!(style_of(op), c.headlight_on_style);
    }
    assert_eq!(style_of(&ops[5]), c.blinker_on_style);
    assert_eq!(style_of(&ops[6]), c.blinker_on_style);
    assert_eq!(style_of(&ops[7]), c.light_off_style);
    assert_eq!(style_of(&ops[8]), c.light_off_style);

    s.set_left_blinker(LightIndicator::High);
    s.set_right_blinker(LightIndicator::On);
    s.set_headlight_indicator(LightIndicator::High);
    let ops = s.draw(&c);
    assert_eq!(style_of(&ops[0]), c.headlight_high_style);
    assert_eq!(style_of(&ops[5]), c.light_off_style);
    assert_eq!(style_of(&ops[7]), c.blinker_on_style);
}
