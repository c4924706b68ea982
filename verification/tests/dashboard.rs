use moto_dashboard::color::Color;
use moto_dashboard::dashboard::{
    BlinkState, Dashboard, DashboardContext, DashboardEvent, Headlights, RingOffsets,
};
use moto_dashboard::draw::{Command, DrawOp, Surface};
use moto_dashboard::geometry::{Point, Rectangle, Size};
use moto_dashboard::status_screen::LightIndicator;

type Board = Dashboard<220, 220, 96800, 160, 80, 160, 25600>;

fn context() -> DashboardContext<220, 220> {
    let ring: Vec<(i32, i32)> = (0..360).map(|a| (a, a)).collect();
    DashboardContext::<220, 220>::new(&RingOffsets { outer: ring.clone(), p: ring.clone(), l: ring.clone(), n: ring })
}

fn lamps(d: &Board) -> (LightIndicator, LightIndicator, LightIndicator) {
    let s = d.status_screen();
    (s.left_blinker(), s.right_blinker(), s.headlight_indicator())
}

#[test]
fn new_dashboard_layout_and_labels() {
    let d = Board::new();
    let left = d.left_gauge();
    let right = d.right_gauge();
    assert_eq!(left.bounding_box(), Rectangle { top_left: Point { x: 0, y: 10 }, size: Size { width: 220, height: 220 } });
    assert_eq!(right.bounding_box(), Rectangle { top_left: Point { x: 316, y: 10 }, size: Size { width: 220, height: 220 } });
    let left_labels: Vec<&str> = left.texts.iter().map(|t| t.as_str()).collect();
    assert_eq!(left_labels, ["0", "20", "40", "60", "80", "100", "120", "140", "160", "180", "200", "220", "240"]);
    let right_labels: Vec<&str> = right.texts.iter().map(|t| t.as_str()).collect();
    assert_eq!(right_labels, ["0", "1", "2", "3", "4", "5", "6", "7", "8", "9", "10", "11", "12"]);
    assert_eq!(left.line1().as_str(), "000");
    assert_eq!(left.line2().as_str(), "KM/H");
    assert_eq!(right.line1().as_str(), "");
    assert_eq!(right.line2().as_str(), "000000");
    assert_eq!(left.value(), 0);
    assert_eq!(right.value(), 0);
    assert_eq!(lamps(&d), (LightIndicator::Off, LightIndicator::Off, LightIndicator::Off));
}

#[test]
fn narrow_gauges_sit_flush_right() {
    let d = Dashboard::<100, 100, 20000, 60, 80, 160, 25600>::new();
    assert_eq!(d.right_gauge().bounding_box().top_left, Point { x: 436, y: 10 });
}

#[test]
fn readings_go_to_their_gauges() {
    let mut d = Board::new();
    d.apply_event(DashboardEvent::Rpm(120));
    d.apply_event(DashboardEvent::MotorRpm(7));
    assert_eq!(d.left_gauge().value(), 120);
    assert_eq!(d.right_gauge().value(), 7);
    assert_eq!(lamps(&d), (LightIndicator::Off, LightIndicator::Off, LightIndicator::Off));
}

#[test]
fn odometer_is_zero_padded_to_six() {
    let mut d = Board::new();
    d.apply_event(DashboardEvent::Odo(42));
    assert_eq!(d.right_gauge().line2().as_str(), "000042");
    d.apply_event(DashboardEvent::Odo(-5));
    assert_eq!(d.right_gauge().line2().as_str(), "-00005");
    d.apply_event(DashboardEvent::Odo(999_999));
    assert_eq!(d.right_gauge().line2().as_str(), "999999");
    d.apply_event(DashboardEvent::Odo(-99_999));
    assert_eq!(d.right_gauge().line2().as_str(), "-99999");
    assert_eq!(d.left_gauge().line2().as_str(), "KM/H");
}

#[test]
fn blink_messages_light_one_arrow_at_most() {
    let mut d = Board::new();
    d.apply_event(DashboardEvent::HeadlightCommand(Headlights::High));
    d.apply_event(DashboardEvent::Blink(BlinkState::LeftOn));
    assert_eq!(lamps(&d), (LightIndicator::On, LightIndicator::Off, LightIndicator::High));
    d.apply_event(DashboardEvent::Blink(BlinkState::RightOn));
    assert_eq!(lamps(&d), (LightIndicator::Off, LightIndicator::On, LightIndicator::High));
    d.apply_event(DashboardEvent::Blink(BlinkState::AllOff));
    assert_eq!(lamps(&d), (LightIndicator::Off, LightIndicator::Off, LightIndicator::High));
}

#[test]
fn headlight_commands() {
    let mut d = Board::new();
    d.set_left_blinker(LightIndicator::On);
    d.apply_event(DashboardEvent::HeadlightCommand(Headlights::Low));
    assert_eq!(lamps(&d), (LightIndicator::On, LightIndicator::Off, LightIndicator::On));
    d.apply_event(DashboardEvent::HeadlightCommand(Headlights::High));
    assert_eq!(lamps(&d).2, LightIndicator::High);
    d.apply_event(DashboardEvent::HeadlightCommand(Headlights::Off));
    assert_eq!(lamps(&d), (LightIndicator::On, LightIndicator::Off, LightIndicator::Off));
    assert_eq!(d.left_gauge().value(), 0);
}

#[test]
fn ignored_messages_change_nothing() {
    let mut d = Board::new();
    d.apply_event(DashboardEvent::Rpm(33));
    d.apply_event(DashboardEvent::Ignored);
    assert_eq!(d.left_gauge().value(), 33);
    assert_eq!(d.right_gauge().line2().as_str(), "000000");
    assert_eq!(lamps(&d), (LightIndicator::Off, LightIndicator::Off, LightIndicator::Off));
}

#[test]
fn setters_reach_the_right_part() {
    let mut d = Board::new();
    d.set_left_line1(heapless::String::from("a"));
    d.set_left_line2(heapless::String::from("b"));
    d.set_right_line1(heapless::String::from("c"));
    d.set_right_line2(heapless::String::from("d"));
    d.set_left_value(1);
    d.set_right_value(2);
    d.set_right_blinker(LightIndicator::High);
    d.set_headlight_indicator(LightIndicator::On);
    assert_eq!(d.left_gauge().line1().as_str(), "a");
    assert_eq!(d.left_gauge().line2().as_str(), "b");
    assert_eq!(d.right_gauge().line1().as_str(), "c");
    assert_eq!(d.right_gauge().line2().as_str(), "d");
    assert_eq!(d.left_gauge().value(), 1);
    assert_eq!(d.right_gauge().value(), 2);
    assert_eq!(lamps(&d), (LightIndicator::Off, LightIndicator::High, LightIndicator::On));
}

#[test]
fn static_frame_clears_then_draws_both_dials() {
    let c = context();
    let d = Board::new();
    let frame = d.draw_static(&c);
    assert_eq!(frame.len(), 1 + 2 * 42);
    assert_eq!(frame[0], Command::Draw { surface: Surface::Gauges, op: DrawOp::Clear { color: Color { raw: 0 } } });
    assert!(frame.iter().all(|c| matches!(c, Command::Draw { surface: Surface::Gauges, .. })));
    assert_eq!(frame[1..43], frame[43..85]);
}

#[test]
fn redraw_frame_order_and_viewports() {
    let c = context();
    let mut d = Board::new();
    d.apply_event(DashboardEvent::Rpm(88));
    d.apply_event(DashboardEvent::MotorRpm(3));
    let frame = d.redraw(&c);
    // Per gauge: clear mask, 17 dynamic steps, present; then 9 status steps and a present.
    assert_eq!(frame.len(), 2 * (1 + 17 + 1) + 9 + 1);
    assert_eq!(
        frame[18],
        Command::Present {
            surface: Surface::Gauges,
            viewport: Rectangle { top_left: Point { x: 0, y: 10 }, size: Size { width: 220, height: 220 } },
        }
    );
    assert_eq!(
        frame[37],
        Command::Present {
            surface: Surface::Gauges,
            viewport: Rectangle { top_left: Point { x: 316, y: 10 }, size: Size { width: 220, height: 220 } },
        }
    );
    assert!(matches!(frame[38], Command::Draw { surface: Surface::Status, .. }));
    assert_eq!(
        frame[47],
        Command::Present {
            surface: Surface::Status,
            viewport: Rectangle { top_left: Point { x: 228, y: 30 }, size: Size { width: 80, height: 160 } },
        }
    );
    match &frame[16] {
        Command::Draw { op: DrawOp::Text { content, .. }, .. } => assert_eq!(content, "88"),
        other => panic!("{:?}", other),
    }
    assert_eq!(d.left_gauge().line1().as_str(), "88");
    assert_eq!(d.right_gauge().line1().as_str(), "3");
}

#[test]
fn second_redraw_draws_the_same_frame() {
    let c = context();
    let mut d = Board::new();
    d.apply_event(DashboardEvent::Rpm(150));
    d.apply_event(DashboardEvent::Blink(BlinkState::RightOn));
    let first = d.redraw(&c);
    let second = d.redraw(&c);
    assert_eq!(first, second);
}
