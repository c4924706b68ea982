//! The dashboard: its shared drawing context (ring points, colours, styles)
//! and the state of its two gauges and status screen.
use vstd::prelude::*;

use crate::color::{
    rgb565_bits, fill_style, filled_outline_style, rgb_color, stroke_style, Color, Font, Style, TextStyle,
};
use crate::draw::{
    on_surface, push_command, push_ops_on, Command, CommandView, DrawOp, DrawOpView, Surface,
};
use crate::gauge::{
    clear_mask_op, drawable_value, dynamic_ops, lemma_dynamic_layout, lemma_static_dial, static_ops,
    Gauge, GaugeView,
};
use crate::geometry::{circle_bounds, spec_circle_bounds, Point, Rectangle, Size};
use crate::numeric::{
    decimal, decimal_string, lemma_decimal_fits, lemma_zero_padded6_fits, pow10, usize_to_i32,
    zero_padded, zero_padded6_string,
};
use crate::draw::Shape;
use crate::status_screen::{
    lemma_status_layout, status_ops, styled, IndicatorLights, LightIndicator, StatusScreen,
};
use crate::text::{label_chars, label_from_str, line_chars, line_from_str};

verus! {

/// How far inside the gauge's rim the outer ring of tick ends lies, in pixels.
pub const OUTER_OFFSET: i32 = 10;
/// How far inside the rim the inner ends of the ticks lie.
pub const P_OFFSET: i32 = 20;
/// How far inside the rim the labels and the needle's tail lie.
pub const L_OFFSET: i32 = 40;
/// How far inside the rim the needle's tip lies.
pub const N_OFFSET: i32 = 70;

/// `OUTER_OFFSET` as an amount by which a gauge's width is reduced.
pub const I_OUTER_OFFSET: u32 = 10;
/// `P_OFFSET` as an amount by which a gauge's width is reduced.
pub const I_P_OFFSET: u32 = 20;
/// `L_OFFSET` as an amount by which a gauge's width is reduced.
pub const I_L_OFFSET: u32 = 40;
/// `N_OFFSET` as an amount by which a gauge's width is reduced.
pub const I_N_OFFSET: u32 = 70;

/// For each of the four rings of a gauge, the offset from the gauge's centre
/// of the ring's point at each whole degree `0..360`: the radius times the cosine
/// and times the sine of the angle, each truncated toward zero.
pub struct RingOffsets {
    pub outer: Vec<(i32, i32)>,
    pub p: Vec<(i32, i32)>,
    pub l: Vec<(i32, i32)>,
    pub n: Vec<(i32, i32)>,
}

/// Bound on the magnitude of a ring offset.
pub open spec fn offsets_bounded(v: Seq<(i32, i32)>) -> bool {
    &&& v.len() == 360
    &&& forall|a: int|
        0 <= a < 360 ==> -0x4000_0000 <= #[trigger] v[a].0 <= 0x4000_0000 && -0x4000_0000
            <= v[a].1 <= 0x4000_0000
}

impl RingOffsets {
    /// Each ring has one offset per degree, of a magnitude that a screen can hold.
    pub open spec fn wf(&self) -> bool {
        &&& offsets_bounded(self.outer@)
        &&& offsets_bounded(self.p@)
        &&& offsets_bounded(self.l@)
        &&& offsets_bounded(self.n@)
    }
}

/// The point of a ring at position `i` (`0..360`): position 0 lies 120 degrees
/// round from the positive x axis, and positions run on by one degree each.
pub open spec fn ring_point(centre: Point, offsets: Seq<(i32, i32)>, i: int) -> Point {
    Point {
        x: (offsets[(i + 120) % 360].0 + centre.x) as i32,
        y: (offsets[(i + 120) % 360].1 + centre.y) as i32,
    }
}

/// Everything that the gauges and the status screen are drawn with: four rings
/// of 360 points each, the centre of a gauge, the colours and the styles.
pub struct DashboardContext<const GAUGE_WIDTH: usize, const GAUGE_HEIGHT: usize> {
    pub outer: Vec<Point>,
    pub p_point: Vec<Point>,
    pub l_point: Vec<Point>,
    pub n_point: Vec<Point>,
    pub centre: Point,
    pub back_color: Color,
    pub gauge_color: Color,
    pub purple: Color,
    pub needle_color: Color,
    pub outer_style: Style,
    pub inner_style: Style,
    pub redline_style: Style,
    pub tick_style: Style,
    pub red_tick_style: Style,
    pub needle_style: Style,
    pub headlight_on_style: Style,
    pub indicator_on_style: Style,
    pub blinker_on_style: Style,
    pub blinker_off_style: Style,
    pub headlight_high_style: Style,
    pub light_off_style: Style,
    pub text_style: TextStyle,
    pub red_text_style: TextStyle,
    pub centre_text_style: TextStyle,
    pub clearing_circle_bounds: Rectangle,
}

/// The radius of a gauge of the given width: half the width, rounded down.
pub open spec fn gauge_radius(gauge_width: usize) -> int {
    (gauge_width / 2) as int
}

impl<const GAUGE_WIDTH: usize, const GAUGE_HEIGHT: usize> DashboardContext<
    GAUGE_WIDTH,
    GAUGE_HEIGHT,
> {
    /// Every ring holds one point per degree.
    pub open spec fn wf(&self) -> bool {
        &&& self.outer.len() == 360
        &&& self.p_point.len() == 360
        &&& self.l_point.len() == 360
        &&& self.n_point.len() == 360
    }

    /// The radius of the ring that lies `offset` pixels inside the rim.
    pub fn ring_radius(offset: i32) -> (r: i32)
        requires
            GAUGE_WIDTH <= i32::MAX,
            i32::MIN <= gauge_radius(GAUGE_WIDTH) - offset <= i32::MAX,
        ensures
            r == gauge_radius(GAUGE_WIDTH) - offset,
    {
        (GAUGE_WIDTH / 2) as i32 - offset
    }

    /// Builds the context from the ring offsets, which are to be computed for the
    /// radii that `ring_radius` gives for `OUTER_OFFSET`, `P_OFFSET`, `L_OFFSET`
    /// and `N_OFFSET`.
    ///
    /// The gauge width stays below 2^24 so that its radius, and the diameter of
    /// the clearing circle, are exact in 32-bit floating point, in which the
    /// ring offsets are computed.
    pub fn new(rings: &RingOffsets) -> (ctx: Self)
        requires
            rings.wf(),
            GAUGE_WIDTH < 0x100_0000,
            GAUGE_HEIGHT <= i32::MAX,
            gauge_radius(GAUGE_WIDTH) >= L_OFFSET,
        ensures
            ctx.wf(),
            ctx.centre == (Point { x: (GAUGE_WIDTH / 2) as i32, y: (GAUGE_HEIGHT / 2) as i32 }),
            forall|i: int|
                0 <= i < 360 ==> {
                    &&& #[trigger] ctx.outer@[i] == ring_point(ctx.centre, rings.outer@, i)
                    &&& ctx.p_point@[i] == ring_point(ctx.centre, rings.p@, i)
                    &&& ctx.l_point@[i] == ring_point(ctx.centre, rings.l@, i)
                    &&& ctx.n_point@[i] == ring_point(ctx.centre, rings.n@, i)
                },
            forall|i: int|
                0 <= i < 360 ==> {
                    &&& (#[trigger] ctx.outer@[i]).x == rings.outer@[(i + 120) % 360].0 + ctx.centre.x
                    &&& ctx.outer@[i].y == rings.outer@[(i + 120) % 360].1 + ctx.centre.y
                    &&& ctx.p_point@[i].x == rings.p@[(i + 120) % 360].0 + ctx.centre.x
                    &&& ctx.p_point@[i].y == rings.p@[(i + 120) % 360].1 + ctx.centre.y
                    &&& ctx.l_point@[i].x == rings.l@[(i + 120) % 360].0 + ctx.centre.x
                    &&& ctx.l_point@[i].y == rings.l@[(i + 120) % 360].1 + ctx.centre.y
                    &&& ctx.n_point@[i].x == rings.n@[(i + 120) % 360].0 + ctx.centre.x
                    &&& ctx.n_point@[i].y == rings.n@[(i + 120) % 360].1 + ctx.centre.y
                },
            ctx.clearing_circle_bounds == spec_circle_bounds(
                ctx.centre,
                (2 * (gauge_radius(GAUGE_WIDTH) - L_OFFSET)) as u32,
            ),
            ctx.back_color == (Color { raw: 0x0026 }),
            ctx.gauge_color == (Color { raw: 0x055D }),
            ctx.purple == (Color { raw: 0xEA16 }),
            ctx.needle_color == (Color { raw: 0xF811 }),
            ctx.outer_style == stroke_style(ctx.gauge_color, 3),
            ctx.inner_style == stroke_style(rgb_color(31, 63, 31), 3),
            ctx.redline_style == stroke_style(ctx.purple, 3),
            ctx.tick_style == stroke_style(rgb_color(31, 63, 31), 2),
            ctx.red_tick_style == stroke_style(ctx.purple, 2),
            ctx.needle_style == stroke_style(ctx.needle_color, 4),
            ctx.headlight_on_style == filled_outline_style(
                rgb_color(0, 63, 0),
                rgb_color(0, 63, 0),
                1,
            ),
            ctx.indicator_on_style == stroke_style(rgb_color(0, 63, 0), 2),
            ctx.blinker_on_style == fill_style(rgb_color(0, 63, 0)),
            ctx.blinker_off_style == fill_style(rgb_color(4, 8, 4)),
            ctx.headlight_high_style == filled_outline_style(ctx.gauge_color, ctx.gauge_color, 1),
            ctx.light_off_style == filled_outline_style(rgb_color(4, 8, 4), rgb_color(4, 8, 4), 1),
            ctx.text_style == (TextStyle { color: rgb_color(31, 63, 31), font: Font::Font8x13 }),
            ctx.red_text_style == (TextStyle { color: ctx.purple, font: Font::Font8x13 }),
            ctx.centre_text_style == (TextStyle {
                color: rgb_color(31, 63, 31),
                font: Font::Font10x20,
            }),
    {
        let cx = (GAUGE_WIDTH / 2) as i32;
        let cy = (GAUGE_HEIGHT / 2) as i32;
        let centre = Point::new(cx, cy);
        let r = cx;
        let clearing_circle_bounds = circle_bounds(centre, (2 * (r - L_OFFSET)) as u32);
        let back_color = Color::from_raw(0x0026);
        let gauge_color = Color::from_raw(0x055D);
        let purple = Color::from_raw(0xEA16);
        let needle_color = Color::from_raw(0xF811);
        let white = Color::white();
        let green = Color::green();
        let dim = Color::rgb(0x4, 0x8, 0x4);
        let mut outer: Vec<Point> = Vec::new();
        let mut p_point: Vec<Point> = Vec::new();
        let mut l_point: Vec<Point> = Vec::new();
        let mut n_point: Vec<Point> = Vec::new();
        let mut i: usize = 0;
        while i < 360
            invariant
                0 <= i <= 360,
                rings.wf(),
                centre == (Point { x: cx, y: cy }),
                0 <= cx < 0x80_0000,
                0 <= cy < 0x4000_0000,
                outer.len() == i,
                p_point.len() == i,
                l_point.len() == i,
                n_point.len() == i,
                forall|j: int|
                    0 <= j < i ==> {
                        &&& #[trigger] outer@[j] == ring_point(centre, rings.outer@, j)
                        &&& p_point@[j] == ring_point(centre, rings.p@, j)
                        &&& l_point@[j] == ring_point(centre, rings.l@, j)
                        &&& n_point@[j] == ring_point(centre, rings.n@, j)
                    },
            decreases 360 - i,
        {
            let a = (i + 120) % 360;
            outer.push(Point { x: rings.outer[a].0 + cx, y: rings.outer[a].1 + cy });
            p_point.push(Point { x: rings.p[a].0 + cx, y: rings.p[a].1 + cy });
            l_point.push(Point { x: rings.l[a].0 + cx, y: rings.l[a].1 + cy });
            n_point.push(Point { x: rings.n[a].0 + cx, y: rings.n[a].1 + cy });
            i = i + 1;
        }
        DashboardContext {
            outer,
            p_point,
            l_point,
            n_point,
            centre,
            back_color,
            gauge_color,
            purple,
            needle_color,
            outer_style: Style::stroke(gauge_color, 3),
            inner_style: Style::stroke(white, 3),
            redline_style: Style::stroke(purple, 3),
            tick_style: Style::stroke(white, 2),
            red_tick_style: Style::stroke(purple, 2),
            needle_style: Style::stroke(needle_color, 4),
            headlight_on_style: Style::filled_outline(green, green, 1),
            indicator_on_style: Style::stroke(green, 2),
            blinker_on_style: Style::fill(green),
            blinker_off_style: Style::fill(dim),
            headlight_high_style: Style::filled_outline(gauge_color, gauge_color, 1),
            light_off_style: Style::filled_outline(dim, dim, 1),
            text_style: TextStyle { color: white, font: Font::Font8x13 },
            red_text_style: TextStyle { color: purple, font: Font::Font8x13 },
            centre_text_style: TextStyle { color: white, font: Font::Font10x20 },
            clearing_circle_bounds,
        }
    }
}

} // verus!

verus! {

/// A blinker message: which side blinks, if any.
#[derive(Clone, Copy, Debug, PartialEq, Eq, Structural)]
pub enum BlinkState {
    LeftOn,
    RightOn,
    AllOff,
}

/// A headlight command.
#[derive(Clone, Copy, Debug, PartialEq, Eq, Structural)]
pub enum Headlights {
    Low,
    High,
    Off,
}

/// A message that the dashboard acts on, with its readings as `i32`.
#[derive(Clone, Copy, Debug, PartialEq, Eq, Structural)]
pub enum DashboardEvent {
    /// The motor's speed: shown on the right gauge.
    MotorRpm(i32),
    /// The road speed: shown on the left gauge.
    Rpm(i32),
    /// The odometer: shown as six digits under the right gauge's reading.
    Odo(i32),
    /// The blinkers.
    Blink(BlinkState),
    /// The headlight.
    HeadlightCommand(Headlights),
    /// Any other message, which the dashboard does not show.
    Ignored,
}

/// The state of the dashboard as values.
pub struct DashboardView {
    pub left: GaugeView,
    pub right: GaugeView,
    pub status: IndicatorLights,
}

/// The dashboard: a speed gauge on the left, a motor gauge on the right and
/// the status screen between them.
pub struct Dashboard<
    const GAUGE_WIDTH: usize,
    const GAUGE_HEIGHT: usize,
    const GAUGE_FRAMEBUFFER_SIZE: usize,
    const GAUGE_CLEAR_RADIUS: usize,
    const STATUS_SCREEN_WIDTH: usize,
    const STATUS_SCREEN_HEIGHT: usize,
    const STATS_SCREEN_FRAMEBUFFER_SIZE: usize,
> {
    left_gauge: Gauge<GAUGE_WIDTH, GAUGE_HEIGHT, GAUGE_FRAMEBUFFER_SIZE, GAUGE_CLEAR_RADIUS>,
    right_gauge: Gauge<GAUGE_WIDTH, GAUGE_HEIGHT, GAUGE_FRAMEBUFFER_SIZE, GAUGE_CLEAR_RADIUS>,
    status_screen: StatusScreen<
        STATUS_SCREEN_WIDTH,
        STATUS_SCREEN_HEIGHT,
        STATS_SCREEN_FRAMEBUFFER_SIZE,
        GAUGE_WIDTH,
        GAUGE_HEIGHT,
    >,
}

impl<
    const GW: usize,
    const GH: usize,
    const GFB: usize,
    const GCR: usize,
    const SW: usize,
    const SH: usize,
    const SFB: usize,
> View for Dashboard<GW, GH, GFB, GCR, SW, SH, SFB> {
    type V = DashboardView;

    closed spec fn view(&self) -> DashboardView {
        DashboardView {
            left: self.left_gauge@,
            right: self.right_gauge@,
            status: self.status_screen@,
        }
    }
}

/// A drawing step on the gauge buffer, as a frame step.
pub open spec fn on_gauges(op: DrawOpView) -> CommandView {
    CommandView::Draw { surface: Surface::Gauges, op }
}

/// The frame that draws the unchanging parts: the gauge buffer cleared to
/// black, then the dial drawn for each of the two gauges.
pub open spec fn static_plan<const GW: usize, const GH: usize>(
    ctx: &DashboardContext<GW, GH>,
) -> Seq<CommandView> {
    seq![on_gauges(DrawOpView::Clear { color: rgb_color(0, 0, 0) })] + on_surface(
        Surface::Gauges,
        static_ops(ctx, GW, GH),
    ) + on_surface(Surface::Gauges, static_ops(ctx, GW, GH))
}

/// The frame steps of one gauge: clear its middle, draw its changing part,
/// then send the buffer to the gauge's place on the display.
pub open spec fn gauge_frame<const GW: usize, const GH: usize>(
    ctx: &DashboardContext<GW, GH>,
    clear_diameter: usize,
    g: GaugeView,
) -> Seq<CommandView> {
    seq![on_gauges(clear_mask_op(ctx, GW, GH, clear_diameter))] + on_surface(
        Surface::Gauges,
        dynamic_ops(ctx, GW, GH, g),
    ) + seq![CommandView::Present { surface: Surface::Gauges, viewport: g.bounding_box }]
}

/// Where the status screen goes on the display: `w` by `h` pixels at (228, 30).
pub open spec fn status_viewport(w: usize, h: usize) -> Rectangle {
    Rectangle { top_left: Point { x: 228, y: 30 }, size: Size { width: w as u32, height: h as u32 } }
}

/// The frame that refreshes the display: the left gauge, the right gauge, then
/// the status screen.
pub open spec fn redraw_plan<const GW: usize, const GH: usize>(
    ctx: &DashboardContext<GW, GH>,
    clear_diameter: usize,
    status_w: usize,
    status_h: usize,
    d: DashboardView,
) -> Seq<CommandView> {
    gauge_frame(ctx, clear_diameter, d.left) + gauge_frame(ctx, clear_diameter, d.right)
        + on_surface(Surface::Status, status_ops(ctx, d.status)) + seq![
        CommandView::Present { surface: Surface::Status, viewport: status_viewport(status_w, status_h) },
    ]
}

/// What the dashboard holds after an event, but for the odometer line, whose
/// text the odometer event sets.
pub open spec fn after_event(d: DashboardView, e: DashboardEvent) -> DashboardView {
    match e {
        DashboardEvent::MotorRpm(v) => DashboardView { right: GaugeView { value: v, ..d.right }, ..d },
        DashboardEvent::Rpm(v) => DashboardView { left: GaugeView { value: v, ..d.left }, ..d },
        DashboardEvent::Odo(_) => d,
        DashboardEvent::Blink(b) => {
            let (left, right) = match b {
                BlinkState::LeftOn => (LightIndicator::On, LightIndicator::Off),
                BlinkState::RightOn => (LightIndicator::Off, LightIndicator::On),
                BlinkState::AllOff => (LightIndicator::Off, LightIndicator::Off),
            };
            DashboardView {
                status: IndicatorLights { left_blinker: left, right_blinker: right, ..d.status },
                ..d
            }
        },
        DashboardEvent::HeadlightCommand(h) => {
            let lamp = match h {
                Headlights::Low => LightIndicator::On,
                Headlights::High => LightIndicator::High,
                Headlights::Off => LightIndicator::Off,
            };
            DashboardView { status: IndicatorLights { headlight_indicator: lamp, ..d.status }, ..d }
        },
        DashboardEvent::Ignored => d,
    }
}

/// A blinker message never lights both arrows at once.
pub proof fn lemma_blinkers_exclusive(d: DashboardView, b: BlinkState)
    ensures
        !(after_event(d, DashboardEvent::Blink(b)).status.left_blinker == LightIndicator::On
            && after_event(d, DashboardEvent::Blink(b)).status.right_blinker == LightIndicator::On),
{
}

/// Each message changes only its own part of the dashboard: readings leave
/// the status screen and the other gauge alone, lamp messages leave both
/// gauges alone, and ignored messages change nothing.
pub proof fn lemma_event_locality(d: DashboardView, e: DashboardEvent)
    ensures
        e is MotorRpm ==> after_event(d, e).left == d.left && after_event(d, e).status == d.status,
        e is Rpm ==> after_event(d, e).right == d.right && after_event(d, e).status == d.status,
        (e is Blink || e is HeadlightCommand) ==> after_event(d, e).left == d.left
            && after_event(d, e).right == d.right,
        e is Blink ==> after_event(d, e).status.headlight_indicator == d.status.headlight_indicator,
        e is HeadlightCommand ==> after_event(d, e).status.left_blinker == d.status.left_blinker
            && after_event(d, e).status.right_blinker == d.status.right_blinker,
        e is Ignored ==> after_event(d, e) == d,
{
}

/// A reading always replaces the gauge's value, whatever it was: after a road
/// speed `v` the left gauge reads `v`, after a motor speed `v` the right gauge
/// reads `v`; nothing else changes.
pub proof fn lemma_readings_replace(d: DashboardView, v: i32)
    ensures
        after_event(d, DashboardEvent::Rpm(v)).left.value == v,
        after_event(d, DashboardEvent::Rpm(v)).left.texts == d.left.texts,
        after_event(d, DashboardEvent::Rpm(v)).left.line1 == d.left.line1,
        after_event(d, DashboardEvent::Rpm(v)).left.line2 == d.left.line2,
        after_event(d, DashboardEvent::Rpm(v)).left.bounding_box == d.left.bounding_box,
        after_event(d, DashboardEvent::Rpm(v)).right == d.right,
        after_event(d, DashboardEvent::Rpm(v)).status == d.status,
        after_event(d, DashboardEvent::MotorRpm(v)).right.value == v,
        after_event(d, DashboardEvent::MotorRpm(v)).right.texts == d.right.texts,
        after_event(d, DashboardEvent::MotorRpm(v)).right.line1 == d.right.line1,
        after_event(d, DashboardEvent::MotorRpm(v)).right.line2 == d.right.line2,
        after_event(d, DashboardEvent::MotorRpm(v)).right.bounding_box == d.right.bounding_box,
        after_event(d, DashboardEvent::MotorRpm(v)).left == d.left,
        after_event(d, DashboardEvent::MotorRpm(v)).status == d.status,
{
}

/// Two readings in a row leave the second: the last message wins.
pub proof fn lemma_last_reading_wins(d: DashboardView, v1: i32, v2: i32)
    ensures
        after_event(after_event(d, DashboardEvent::Rpm(v1)), DashboardEvent::Rpm(v2)).left.value == v2,
        after_event(after_event(d, DashboardEvent::MotorRpm(v1)), DashboardEvent::MotorRpm(v2)).right.value
            == v2,
{
}

/// Lamp messages: a blinker message lights the left arrow exactly for
/// `LeftOn` and the right arrow exactly for `RightOn`, turning the other off; a
/// headlight command shows low beam as on, high as high and off as off.
pub proof fn lemma_lamp_messages(d: DashboardView, b: BlinkState, h: Headlights)
    ensures
        after_event(d, DashboardEvent::Blink(b)).status.left_blinker == (if b == BlinkState::LeftOn {
            LightIndicator::On
        } else {
            LightIndicator::Off
        }),
        after_event(d, DashboardEvent::Blink(b)).status.right_blinker == (if b == BlinkState::RightOn {
            LightIndicator::On
        } else {
            LightIndicator::Off
        }),
        after_event(d, DashboardEvent::HeadlightCommand(h)).status.headlight_indicator == (if h
            == Headlights::Low {
            LightIndicator::On
        } else if h == Headlights::High {
            LightIndicator::High
        } else {
            LightIndicator::Off
        }),
{
}

/// The refresh frame, step by step: for the left gauge, its clear mask, its 17
/// changing steps and its placement at its bounding box (steps 0 to 18); the
/// same for the right gauge (steps 19 to 37); then the status screen's own nine
/// steps for the current lamp states, the left arrow lit exactly when the left
/// blinker is on and the right exactly when the right one is (steps 38 to 46);
/// and its placement at (228, 30) (step 47).
pub proof fn lemma_redraw_layout<const GW: usize, const GH: usize>(
    ctx: &DashboardContext<GW, GH>,
    clear_diameter: usize,
    status_w: usize,
    status_h: usize,
    d: DashboardView,
)
    ensures
        ({
            let f = redraw_plan(ctx, clear_diameter, status_w, status_h, d);
            &&& f.len() == 48
            &&& f[0] == on_gauges(clear_mask_op(ctx, GW, GH, clear_diameter))
            &&& forall|k: int|
                0 <= k < 17 ==> #[trigger] f[k + 1] == on_gauges(dynamic_ops(ctx, GW, GH, d.left)[k])
            &&& f[18] == CommandView::Present { surface: Surface::Gauges, viewport: d.left.bounding_box }
            &&& f[19] == on_gauges(clear_mask_op(ctx, GW, GH, clear_diameter))
            &&& forall|k: int|
                0 <= k < 17 ==> #[trigger] f[k + 20] == on_gauges(dynamic_ops(ctx, GW, GH, d.right)[k])
            &&& f[37] == CommandView::Present { surface: Surface::Gauges, viewport: d.right.bounding_box }
            &&& forall|j: int|
                0 <= j < 9 ==> #[trigger] f[j + 38] == CommandView::Draw {
                    surface: Surface::Status,
                    op: status_ops(ctx, d.status)[j],
                }
            &&& f[43] == CommandView::Draw {
                surface: Surface::Status,
                op: styled(
                    Shape::Triangle {
                        vertex1: Point { x: 1, y: 14 },
                        vertex2: Point { x: 20, y: 0 },
                        vertex3: Point { x: 20, y: 28 },
                    },
                    if d.status.left_blinker == LightIndicator::On {
                        ctx.blinker_on_style
                    } else {
                        ctx.light_off_style
                    },
                ),
            }
            &&& f[45] == CommandView::Draw {
                surface: Surface::Status,
                op: styled(
                    Shape::Triangle {
                        vertex1: Point { x: 79, y: 14 },
                        vertex2: Point { x: 60, y: 0 },
                        vertex3: Point { x: 60, y: 28 },
                    },
                    if d.status.right_blinker == LightIndicator::On {
                        ctx.blinker_on_style
                    } else if d.status.right_blinker == LightIndicator::Off {
                        ctx.blinker_off_style
                    } else {
                        ctx.light_off_style
                    },
                ),
            }
            &&& f[47] == CommandView::Present {
                surface: Surface::Status,
                viewport: Rectangle {
                    top_left: Point { x: 228, y: 30 },
                    size: Size { width: status_w as u32, height: status_h as u32 },
                },
            }
        }),
{
    lemma_dynamic_layout(ctx, GW, GH, d.left);
    lemma_dynamic_layout(ctx, GW, GH, d.right);
    lemma_status_layout(ctx, d.status);
    let f = redraw_plan(ctx, clear_diameter, status_w, status_h, d);
    let gl = gauge_frame(ctx, clear_diameter, d.left);
    let gr = gauge_frame(ctx, clear_diameter, d.right);
    let st = on_surface(Surface::Status, status_ops(ctx, d.status));
    assert(gl.len() == 19);
    assert(gr.len() == 19);
    assert(st.len() == 9);
    assert forall|k: int| 0 <= k < 17 implies #[trigger] f[k + 1] == on_gauges(
        dynamic_ops(ctx, GW, GH, d.left)[k],
    ) by {
        assert(f[k + 1] == gl[k + 1]);
    }
    assert forall|k: int| 0 <= k < 17 implies #[trigger] f[k + 20] == on_gauges(
        dynamic_ops(ctx, GW, GH, d.right)[k],
    ) by {
        assert(f[k + 20] == gr[k + 1]);
    }
    assert forall|j: int| 0 <= j < 9 implies #[trigger] f[j + 38] == CommandView::Draw {
        surface: Surface::Status,
        op: status_ops(ctx, d.status)[j],
    } by {
        assert(f[j + 38] == st[j]);
    }
    assert(f[43] == st[5]);
    assert(f[45] == st[7]);
}

/// The frame of the unchanging parts clears the gauge buffer to black and then
/// draws the same dial twice, once for each gauge, every step on the gauge
/// buffer.
pub proof fn lemma_static_plan_layout<const GW: usize, const GH: usize>(
    ctx: &DashboardContext<GW, GH>,
)
    ensures
        static_plan(ctx).len() == 85,
        static_plan(ctx)[0] == on_gauges(DrawOpView::Clear { color: Color { raw: 0 } }),
        forall|k: int|
            0 <= k < 42 ==> #[trigger] static_plan(ctx)[k + 1] == on_gauges(static_ops(ctx, GW, GH)[k])
                && static_plan(ctx)[k + 43] == on_gauges(static_ops(ctx, GW, GH)[k]),
{
    lemma_static_dial(ctx, GW, GH);
    assert(rgb_color(0, 0, 0) == Color { raw: 0 }) by {
        assert(rgb565_bits(0, 0, 0) == 0u16) by (bit_vector);
    }
}

/// A frame does not depend on the gauges' first lines, the only part of the
/// state that a redraw changes: redrawing again draws the same frame.
pub proof fn lemma_redraw_repeatable<const GW: usize, const GH: usize>(
    ctx: &DashboardContext<GW, GH>,
    clear_diameter: usize,
    status_w: usize,
    status_h: usize,
    d: DashboardView,
    left_line1: heapless::String<6>,
    right_line1: heapless::String<6>,
)
    ensures
        redraw_plan(
            ctx,
            clear_diameter,
            status_w,
            status_h,
            DashboardView {
                left: GaugeView { line1: left_line1, ..d.left },
                right: GaugeView { line1: right_line1, ..d.right },
                ..d
            },
        ) == redraw_plan(ctx, clear_diameter, status_w, status_h, d),
{
    let d2 = DashboardView {
        left: GaugeView { line1: left_line1, ..d.left },
        right: GaugeView { line1: right_line1, ..d.right },
        ..d
    };
    assert(d2.left.texts == d.left.texts);
    assert(dynamic_ops(ctx, GW, GH, d2.left) == dynamic_ops(ctx, GW, GH, d.left));
    assert(dynamic_ops(ctx, GW, GH, d2.right) == dynamic_ops(ctx, GW, GH, d.right));
}

/// Odometer readings that fit six characters.
pub open spec fn odo_fits(v: int) -> bool {
    -99_999 <= v <= 999_999
}

/// Makes a scale label from a value of at most three digits.
fn scale_label(v: i32) -> (l: heapless::String<3>)
    requires
        0 <= v <= 999,
    ensures
        label_chars(l) == decimal(v as int),
{
    let s = decimal_string(v);
    proof {
        reveal_with_fuel(pow10, 4);
        lemma_decimal_fits(v as int, 3);
        vstd::utf8::is_ascii_chars_encode_utf8(s@);
    }
    label_from_str(s.as_str()).unwrap()
}

impl<
    const GW: usize,
    const GH: usize,
    const GFB: usize,
    const GCR: usize,
    const SW: usize,
    const SH: usize,
    const SFB: usize,
> Dashboard<GW, GH, GFB, GCR, SW, SH, SFB> {
    /// A dashboard reading zero: the left gauge at (0, 10) scaled 0 to 240
    /// with "000" over "KM/H", the right gauge flush with the right edge of the
    /// 536-pixel display scaled 0 to 12 with an empty line over "000000", and
    /// every lamp off.
    pub fn new() -> (d: Self)
        requires
            GW <= i32::MAX,
        ensures
            d@.left.bounding_box == (Rectangle {
                top_left: Point { x: 0, y: 10 },
                size: Size { width: GW as u32, height: GH as u32 },
            }),
            d@.right.bounding_box == (Rectangle {
                top_left: Point { x: (536 - GW as int) as i32, y: 10 },
                size: Size { width: GW as u32, height: GH as u32 },
            }),
            d@.left.value == 0,
            d@.right.value == 0,
            d@.left.texts.len() == 13,
            d@.right.texts.len() == 13,
            forall|k: int|
                0 <= k < 13 ==> label_chars(#[trigger] d@.left.texts[k]) == decimal(20 * k)
                    && label_chars(d@.right.texts[k]) == decimal(k),
            line_chars(d@.left.line1) == "000"@,
            line_chars(d@.left.line2) == "KM/H"@,
            line_chars(d@.right.line1) == ""@,
            line_chars(d@.right.line2) == "000000"@,
            d@.status.left_blinker == LightIndicator::Off,
            d@.status.right_blinker == LightIndicator::Off,
            d@.status.headlight_indicator == LightIndicator::Off,
    {
        let left_texts = [
            scale_label(0),
            scale_label(20),
            scale_label(40),
            scale_label(60),
            scale_label(80),
            scale_label(100),
            scale_label(120),
            scale_label(140),
            scale_label(160),
            scale_label(180),
            scale_label(200),
            scale_label(220),
            scale_label(240),
        ];
        let right_texts = [
            scale_label(0),
            scale_label(1),
            scale_label(2),
            scale_label(3),
            scale_label(4),
            scale_label(5),
            scale_label(6),
            scale_label(7),
            scale_label(8),
            scale_label(9),
            scale_label(10),
            scale_label(11),
            scale_label(12),
        ];
        proof {
            reveal_strlit("000");
            reveal_strlit("KM/H");
            reveal_strlit("");
            reveal_strlit("000000");
            vstd::utf8::is_ascii_chars_encode_utf8("000"@);
            vstd::utf8::is_ascii_chars_encode_utf8("KM/H"@);
            vstd::utf8::is_ascii_chars_encode_utf8(""@);
            vstd::utf8::is_ascii_chars_encode_utf8("000000"@);
        }
        let right_x = 536 - usize_to_i32(GW).unwrap();
        let d = Dashboard {
            left_gauge: Gauge::new_speedo(
                Point::new(0, 10),
                left_texts,
                line_from_str("000").unwrap(),
                line_from_str("KM/H").unwrap(),
            ),
            right_gauge: Gauge::new_speedo(
                Point::new(right_x, 10),
                right_texts,
                line_from_str("").unwrap(),
                line_from_str("000000").unwrap(),
            ),
            status_screen: StatusScreen::new(),
        };
        assert forall|k: int| 0 <= k < 13 implies label_chars(#[trigger] d@.left.texts[k])
            == decimal(20 * k) && label_chars(d@.right.texts[k]) == decimal(k) by {
            assert(d@.left.texts == left_texts@);
            assert(d@.right.texts == right_texts@);
        }
        d
    }

    /// The left gauge.
    pub fn left_gauge(&self) -> (g: &Gauge<GW, GH, GFB, GCR>)
        ensures
            g@ == self@.left,
    {
        &self.left_gauge
    }

    /// The right gauge.
    pub fn right_gauge(&self) -> (g: &Gauge<GW, GH, GFB, GCR>)
        ensures
            g@ == self@.right,
    {
        &self.right_gauge
    }

    /// The status screen.
    pub fn status_screen(&self) -> (s: &StatusScreen<SW, SH, SFB, GW, GH>)
        ensures
            s@ == self@.status,
    {
        &self.status_screen
    }

    pub fn set_left_line1(&mut self, text: heapless::String<6>)
        ensures
            final(self)@ == (DashboardView { left: GaugeView { line1: text, ..old(self)@.left }, ..old(self)@ }),
    {
        self.left_gauge.set_line1(text);
    }

    pub fn set_left_line2(&mut self, text: heapless::String<6>)
        ensures
            final(self)@ == (DashboardView { left: GaugeView { line2: text, ..old(self)@.left }, ..old(self)@ }),
    {
        self.left_gauge.set_line2(text);
    }

    pub fn set_right_line1(&mut self, text: heapless::String<6>)
        ensures
            final(self)@ == (DashboardView { right: GaugeView { line1: text, ..old(self)@.right }, ..old(self)@ }),
    {
        self.right_gauge.set_line1(text);
    }

    pub fn set_right_line2(&mut self, text: heapless::String<6>)
        ensures
            final(self)@ == (DashboardView { right: GaugeView { line2: text, ..old(self)@.right }, ..old(self)@ }),
    {
        self.right_gauge.set_line2(text);
    }

    pub fn set_left_value(&mut self, value: i32)
        ensures
            final(self)@ == (DashboardView { left: GaugeView { value, ..old(self)@.left }, ..old(self)@ }),
    {
        self.left_gauge.set_value(value);
    }

    pub fn set_right_value(&mut self, value: i32)
        ensures
            final(self)@ == (DashboardView { right: GaugeView { value, ..old(self)@.right }, ..old(self)@ }),
    {
        self.right_gauge.set_value(value);
    }

    pub fn set_left_blinker(&mut self, value: LightIndicator)
        ensures
            final(self)@ == (DashboardView {
                status: IndicatorLights { left_blinker: value, ..old(self)@.status },
                ..old(self)@
            }),
    {
        self.status_screen.set_left_blinker(value);
    }

    pub fn set_right_blinker(&mut self, value: LightIndicator)
        ensures
            final(self)@ == (DashboardView {
                status: IndicatorLights { right_blinker: value, ..old(self)@.status },
                ..old(self)@
            }),
    {
        self.status_screen.set_right_blinker(value);
    }

    pub fn set_headlight_indicator(&mut self, value: LightIndicator)
        ensures
            final(self)@ == (DashboardView {
                status: IndicatorLights { headlight_indicator: value, ..old(self)@.status },
                ..old(self)@
            }),
    {
        self.status_screen.set_headlight_indicator(value);
    }

    /// The frame that draws the unchanging parts of both gauges into the gauge
    /// buffer.
    pub fn draw_static(&self, dashboard_context: &DashboardContext<GW, GH>) -> (frame: Vec<Command>)
        requires
            dashboard_context.wf(),
            GW as u32 >= I_L_OFFSET,
        ensures
            frame.deep_view() == static_plan(dashboard_context),
    {
        let mut frame: Vec<Command> = Vec::new();
        push_command(&mut frame, Command::Draw { surface: Surface::Gauges, op: DrawOp::Clear { color: Color::black() } });
        let left = self.left_gauge.draw_static(dashboard_context);
        push_ops_on(&mut frame, Surface::Gauges, left);
        let right = self.right_gauge.draw_static(dashboard_context);
        push_ops_on(&mut frame, Surface::Gauges, right);
        frame
    }

    fn gauge_frame(
        frame: &mut Vec<Command>,
        gauge: &mut Gauge<GW, GH, GFB, GCR>,
        dashboard_context: &DashboardContext<GW, GH>,
    )
        requires
            dashboard_context.wf(),
            GW as u32 >= I_N_OFFSET,
            GCR <= u32::MAX,
            dashboard_context.centre.y <= i32::MAX - 18,
            drawable_value(old(gauge)@.value as int),
        ensures
            final(frame).deep_view() == old(frame).deep_view() + gauge_frame(
                dashboard_context,
                GCR,
                old(gauge)@,
            ),
            line_chars(final(gauge)@.line1) == decimal(old(gauge)@.value as int),
            final(gauge)@ == (GaugeView { line1: final(gauge)@.line1, ..old(gauge)@ }),
    {
        let ghost before = frame.deep_view();
        let ghost g = gauge@;
        let clear = gauge.draw_clear_mask(dashboard_context);
        push_command(frame, Command::Draw { surface: Surface::Gauges, op: clear });
        let ops = gauge.draw_dynamic(dashboard_context);
        push_ops_on(frame, Surface::Gauges, ops);
        push_command(frame, Command::Present { surface: Surface::Gauges, viewport: gauge.bounding_box() });
        assert(frame.deep_view() =~= before + gauge_frame(dashboard_context, GCR, g));
    }

    /// The frame that refreshes the display from the current state; each
    /// gauge's first line becomes its reading in decimal.
    pub fn redraw(&mut self, dashboard_context: &DashboardContext<GW, GH>) -> (frame: Vec<Command>)
        requires
            dashboard_context.wf(),
            GW as u32 >= I_N_OFFSET,
            GCR <= u32::MAX,
            dashboard_context.centre.y <= i32::MAX - 18,
            drawable_value(old(self)@.left.value as int),
            drawable_value(old(self)@.right.value as int),
        ensures
            frame.deep_view() == redraw_plan(dashboard_context, GCR, SW, SH, old(self)@),
            frame.deep_view().len() == 48,
            forall|j: int|
                0 <= j < 9 ==> #[trigger] frame.deep_view()[j + 38] == (CommandView::Draw {
                    surface: Surface::Status,
                    op: status_ops(dashboard_context, old(self)@.status)[j],
                }),
            frame.deep_view()[43] == (CommandView::Draw {
                surface: Surface::Status,
                op: styled(
                    Shape::Triangle {
                        vertex1: Point { x: 1, y: 14 },
                        vertex2: Point { x: 20, y: 0 },
                        vertex3: Point { x: 20, y: 28 },
                    },
                    if old(self)@.status.left_blinker == LightIndicator::On {
                        dashboard_context.blinker_on_style
                    } else {
                        dashboard_context.light_off_style
                    },
                ),
            }),
            line_chars(final(self)@.left.line1) == decimal(old(self)@.left.value as int),
            line_chars(final(self)@.right.line1) == decimal(old(self)@.right.value as int),
            final(self)@ == (DashboardView {
                left: GaugeView { line1: final(self)@.left.line1, ..old(self)@.left },
                right: GaugeView { line1: final(self)@.right.line1, ..old(self)@.right },
                ..old(self)@
            }),
    {
        let ghost d = self@;
        let mut frame: Vec<Command> = Vec::new();
        Self::gauge_frame(&mut frame, &mut self.left_gauge, dashboard_context);
        Self::gauge_frame(&mut frame, &mut self.right_gauge, dashboard_context);
        let status = self.status_screen.draw(dashboard_context);
        push_ops_on(&mut frame, Surface::Status, status);
        push_command(
            &mut frame,
            Command::Present {
                surface: Surface::Status,
                viewport: Rectangle::new(Point::new(228, 30), Size::new(SW as u32, SH as u32)),
            },
        );
        assert(frame.deep_view() =~= redraw_plan(dashboard_context, GCR, SW, SH, d));
        proof {
            lemma_redraw_layout(dashboard_context, GCR, SW, SH, d);
        }
        frame
    }

    /// Acts on a message: readings go to the gauges, the odometer to the right
    /// gauge's second line, blinker and headlight messages to the status screen.
    pub fn apply_event(&mut self, event: DashboardEvent)
        requires
            event matches DashboardEvent::Odo(v) ==> odo_fits(v as int),
        ensures
            event matches DashboardEvent::Odo(v) ==> {
                &&& line_chars(final(self)@.right.line2) == zero_padded(v as int, 6)
                &&& final(self)@ == (DashboardView {
                    right: GaugeView { line2: final(self)@.right.line2, ..old(self)@.right },
                    ..old(self)@
                })
            },
            !(event is Odo) ==> final(self)@ == after_event(old(self)@, event),
            event matches DashboardEvent::Rpm(v) ==> final(self)@.left.value == v
                && final(self)@.right == old(self)@.right && final(self)@.status == old(self)@.status,
            event matches DashboardEvent::MotorRpm(v) ==> final(self)@.right.value == v
                && final(self)@.left == old(self)@.left && final(self)@.status == old(self)@.status,
            event matches DashboardEvent::Blink(b) ==> {
                &&& final(self)@.status.left_blinker == (if b == BlinkState::LeftOn {
                    LightIndicator::On
                } else {
                    LightIndicator::Off
                })
                &&& final(self)@.status.right_blinker == (if b == BlinkState::RightOn {
                    LightIndicator::On
                } else {
                    LightIndicator::Off
                })
            },
            event matches DashboardEvent::HeadlightCommand(h) ==> final(self)@.status.headlight_indicator
                == (if h == Headlights::Low {
                LightIndicator::On
            } else if h == Headlights::High {
                LightIndicator::High
            } else {
                LightIndicator::Off
            }),
    {
        match event {
            DashboardEvent::MotorRpm(rpm) => {
                self.set_right_value(rpm);
            },
            DashboardEvent::Rpm(rpm) => {
                self.set_left_value(rpm);
            },
            DashboardEvent::Odo(odo) => {
                let text = zero_padded6_string(odo);
                proof {
                    lemma_zero_padded6_fits(odo as int);
                    vstd::utf8::is_ascii_chars_encode_utf8(text@);
                }
                self.set_right_line2(line_from_str(text.as_str()).unwrap());
            },
            DashboardEvent::Blink(blink_state) => {
                match blink_state {
                    BlinkState::LeftOn => {
                        self.set_left_blinker(LightIndicator::On);
                        self.set_right_blinker(LightIndicator::Off);
                    },
                    BlinkState::RightOn => {
                        self.set_left_blinker(LightIndicator::Off);
                        self.set_right_blinker(LightIndicator::On);
                    },
                    BlinkState::AllOff => {
                        self.set_left_blinker(LightIndicator::Off);
                        self.set_right_blinker(LightIndicator::Off);
                    },
                }
            },
            DashboardEvent::HeadlightCommand(cmd) => {
                match cmd {
                    Headlights::Low => self.set_headlight_indicator(LightIndicator::On),
                    Headlights::High => self.set_headlight_indicator(LightIndicator::High),
                    Headlights::Off => self.set_headlight_indicator(LightIndicator::Off),
                }
            },
            DashboardEvent::Ignored => {},
        }
    }
}

} // verus!
