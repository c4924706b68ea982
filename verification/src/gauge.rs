//! A round gauge: a dial of 26 ticks over 300 degrees, 13 labels, a needle and
//! two lines of text in its middle.
use vstd::prelude::*;

use crate::color::{fill_style, Style, TextStyle};
use crate::dashboard::{DashboardContext, I_L_OFFSET, I_N_OFFSET, I_OUTER_OFFSET, I_P_OFFSET};
use crate::draw::{push_op, DrawOp, DrawOpView, Shape};
use crate::geometry::{Point, Rectangle, Size};
use crate::numeric::{decimal, decimal_string, lemma_decimal_fits, pow10, usize_to_u32};
use crate::text::{label_chars, label_to_string, line_chars, line_from_str, line_to_string};

verus! {

/// The state of a gauge as values.
pub struct GaugeView {
    pub bounding_box: Rectangle,
    pub value: i32,
    pub texts: Seq<heapless::String<3>>,
    pub line1: heapless::String<6>,
    pub line2: heapless::String<6>,
}

/// A gauge of `W` by `H` pixels, drawn into a buffer of `BUFFER` bytes, whose
/// dynamic part is cleared with a circle of diameter `CLEAR_RADIUS`.
pub struct Gauge<const W: usize, const H: usize, const BUFFER: usize, const CLEAR_RADIUS: usize> {
    pub bounding_box: Rectangle,
    pub value: i32,
    pub texts: [heapless::String<3>; 13],
    line1: heapless::String<6>,
    line2: heapless::String<6>,
}

impl<
    const W: usize,
    const H: usize,
    const BUFFER: usize,
    const CLEAR_RADIUS: usize,
> View for Gauge<W, H, BUFFER, CLEAR_RADIUS> {
    type V = GaugeView;

    closed spec fn view(&self) -> GaugeView {
        GaugeView {
            bounding_box: self.bounding_box,
            value: self.value,
            texts: self.texts@,
            line1: self.line1,
            line2: self.line2,
        }
    }
}

/// The centre of a gauge of `w` by `h` pixels, in its own buffer.
pub open spec fn gauge_centre(w: usize, h: usize) -> Point {
    Point { x: (w / 2) as i32, y: (h / 2) as i32 }
}

/// An arc as a drawing step.
pub open spec fn arc_op(center: Point, diameter: int, start: i32, sweep: i32, style: Style) -> DrawOpView {
    DrawOpView::Styled {
        shape: Shape::Arc {
            center,
            diameter: diameter as u32,
            start_degrees: start,
            sweep_degrees: sweep,
        },
        style,
    }
}

/// A line as a drawing step.
pub open spec fn line_op(start: Point, end: Point, style: Style) -> DrawOpView {
    DrawOpView::Styled { shape: Shape::Line { start, end }, style }
}

/// A centred text as a drawing step.
pub open spec fn text_op(content: Seq<char>, position: Point, style: TextStyle) -> DrawOpView {
    DrawOpView::Text { content, position, style }
}

/// Ticks from 20 on are drawn in the red-line colours.
pub open spec fn in_red_zone(i: int) -> bool {
    i >= 20
}

/// The steps of tick `i` of the dial (`0..26`, one every twelve degrees): a line
/// from the outer ring to the inner one and, on every second tick, its scale
/// value `10 * i` on the label ring.
pub open spec fn tick_ops<const GW: usize, const GH: usize>(
    ctx: &DashboardContext<GW, GH>,
    i: int,
) -> Seq<DrawOpView> {
    let tick = if in_red_zone(i) {
        ctx.red_tick_style
    } else {
        ctx.tick_style
    };
    let text = if in_red_zone(i) {
        ctx.red_text_style
    } else {
        ctx.text_style
    };
    let line = seq![line_op(ctx.outer@[12 * i], ctx.p_point@[12 * i], tick)];
    if i % 2 == 0 {
        line.push(text_op(decimal(10 * i), ctx.l_point@[12 * i], text))
    } else {
        line
    }
}

/// The steps of ticks `0..n`.
pub open spec fn ticks_upto<const GW: usize, const GH: usize>(
    ctx: &DashboardContext<GW, GH>,
    n: nat,
) -> Seq<DrawOpView>
    decreases n,
{
    if n == 0 {
        Seq::empty()
    } else {
        ticks_upto(ctx, (n - 1) as nat) + tick_ops(ctx, n - 1)
    }
}

/// The unchanging part of a gauge of width `w`: its outer and inner rims over
/// 300 degrees from 120 degrees, the red line over the last 60 degrees, then
/// the 26 ticks.
pub open spec fn static_ops<const GW: usize, const GH: usize>(
    ctx: &DashboardContext<GW, GH>,
    w: usize,
    h: usize,
) -> Seq<DrawOpView> {
    let c = gauge_centre(w, h);
    seq![
        arc_op(c, (w as u32) - I_OUTER_OFFSET, 120, 300, ctx.outer_style),
        arc_op(c, (w as u32) - I_P_OFFSET, 120, 300, ctx.inner_style),
        arc_op(c, (w as u32) - I_L_OFFSET, 0, 60, ctx.redline_style),
    ] + ticks_upto(ctx, 26)
}

/// The label of tick `i` in the gauge's own texts: every second tick shows
/// text `i / 2` on the label ring.
pub open spec fn label_ops<const GW: usize, const GH: usize>(
    ctx: &DashboardContext<GW, GH>,
    texts: Seq<heapless::String<3>>,
    i: int,
) -> Seq<DrawOpView> {
    let text = if in_red_zone(i) {
        ctx.red_text_style
    } else {
        ctx.text_style
    };
    if i % 2 == 0 {
        seq![text_op(label_chars(texts[i / 2]), ctx.l_point@[12 * i], text)]
    } else {
        Seq::empty()
    }
}

/// The labels of ticks `0..n`.
pub open spec fn labels_upto<const GW: usize, const GH: usize>(
    ctx: &DashboardContext<GW, GH>,
    texts: Seq<heapless::String<3>>,
    n: nat,
) -> Seq<DrawOpView>
    decreases n,
{
    if n == 0 {
        Seq::empty()
    } else {
        labels_upto(ctx, texts, (n - 1) as nat) + label_ops(ctx, texts, n - 1)
    }
}

/// The ring position that the needle points at for a reading of `value`: six
/// fifths of a position per unit, rounded down, round the circle.
pub open spec fn needle_position(value: int) -> int {
    (value * 6 / 5) % 360
}

/// The changing part of a gauge showing `g`: the 13 labels, the needle from the
/// label ring to the needle ring, the hub's rim, the reading in decimal at the
/// centre and the second line 18 pixels below it.
pub open spec fn dynamic_ops<const GW: usize, const GH: usize>(
    ctx: &DashboardContext<GW, GH>,
    w: usize,
    h: usize,
    g: GaugeView,
) -> Seq<DrawOpView> {
    let a = needle_position(g.value as int);
    labels_upto(ctx, g.texts, 26) + seq![
        line_op(ctx.l_point@[a], ctx.n_point@[a], ctx.needle_style),
        arc_op(gauge_centre(w, h), ((w as u32) - I_N_OFFSET) / 2, 100, 340, ctx.outer_style),
        text_op(decimal(g.value as int), ctx.centre, ctx.centre_text_style),
        text_op(
            line_chars(g.line2),
            Point { x: ctx.centre.x, y: (ctx.centre.y + 18) as i32 },
            ctx.centre_text_style,
        ),
    ]
}

/// The needle stays on the ring: for any reading that can be drawn, it points
/// at one of the 360 ring positions.
pub proof fn lemma_needle_on_ring(value: int)
    requires
        drawable_value(value),
    ensures
        0 <= needle_position(value) < 360,
{
}

/// A reading equal to the value printed at tick `i` (ten times `i`) puts the
/// needle exactly on that tick, which lies at ring position `12 * i`.
pub proof fn lemma_needle_meets_tick(i: int)
    requires
        0 <= i < 26,
    ensures
        needle_position(10 * i) == 12 * i,
{
    assert(10 * i * 6 / 5 == 12 * i);
}

/// Over the first 300 units the needle's position is six fifths of the reading,
/// rounded down.
pub proof fn lemma_needle_rounds_down(value: int)
    requires
        0 <= value < 300,
    ensures
        5 * needle_position(value) <= 6 * value < 5 * needle_position(value) + 5,
{
}

/// 300 units take the needle once round the ring: a reading and the same
/// reading 300 units higher point alike.
pub proof fn lemma_needle_period(value: int)
    requires
        value >= 0,
    ensures
        needle_position(value + 300) == needle_position(value),
{
    assert((value + 300) * 6 / 5 == value * 6 / 5 + 360);
}

/// Over the dial's 300 degrees, a higher reading never moves the needle back.
pub proof fn lemma_needle_monotone(a: int, b: int)
    requires
        0 <= a <= b < 300,
    ensures
        needle_position(a) <= needle_position(b),
{
    assert(a * 6 / 5 <= b * 6 / 5) by (nonlinear_arith)
        requires
            0 <= a <= b,
    ;
    assert(b * 6 / 5 < 360) by (nonlinear_arith)
        requires
            0 <= b < 300,
    ;
}

/// Where the line of tick `i` stands in the unchanging part of a gauge: after
/// the three arcs, the lines of the ticks before it and the values of the even
/// ones among them.
pub open spec fn tick_line_index(i: int) -> int {
    3 + i + (i + 1) / 2
}

proof fn lemma_ticks_upto<const GW: usize, const GH: usize>(
    ctx: &DashboardContext<GW, GH>,
    n: nat,
)
    requires
        n <= 26,
    ensures
        ticks_upto(ctx, n).len() == n + (n + 1) / 2,
        forall|i: int|
            #![trigger tick_line_index(i)]
            0 <= i < n ==> ticks_upto(ctx, n)[tick_line_index(i) - 3] == line_op(
                ctx.outer@[12 * i],
                ctx.p_point@[12 * i],
                if i >= 20 {
                    ctx.red_tick_style
                } else {
                    ctx.tick_style
                },
            ),
        forall|i: int|
            #![trigger tick_line_index(i)]
            0 <= i < n && i % 2 == 0 ==> ticks_upto(ctx, n)[tick_line_index(i) - 2] == text_op(
                decimal(10 * i),
                ctx.l_point@[12 * i],
                if i >= 20 {
                    ctx.red_text_style
                } else {
                    ctx.text_style
                },
            ),
    decreases n,
{
    if n > 0 {
        let m = (n - 1) as nat;
        lemma_ticks_upto(ctx, m);
        let prev = ticks_upto(ctx, m);
        let t = tick_ops(ctx, m as int);
        assert(ticks_upto(ctx, n) == prev + t);
        assert forall|i: int| #![trigger tick_line_index(i)] 0 <= i < n implies ticks_upto(
            ctx,
            n,
        )[tick_line_index(i) - 3] == line_op(
            ctx.outer@[12 * i],
            ctx.p_point@[12 * i],
            if i >= 20 {
                ctx.red_tick_style
            } else {
                ctx.tick_style
            },
        ) by {
            if i < m {
                assert(tick_line_index(i) - 3 < prev.len());
            } else {
                assert(tick_line_index(i) - 3 == prev.len());
            }
        }
        assert forall|i: int| #![trigger tick_line_index(i)] 0 <= i < n && i % 2 == 0 implies ticks_upto(
            ctx,
            n,
        )[tick_line_index(i) - 2] == text_op(
            decimal(10 * i),
            ctx.l_point@[12 * i],
            if i >= 20 {
                ctx.red_text_style
            } else {
                ctx.text_style
            },
        ) by {
            if i < m {
                assert(tick_line_index(i) - 2 < prev.len());
            } else {
                assert(tick_line_index(i) - 2 == prev.len() + 1);
            }
        }
    }
}

/// The unchanging part of a gauge, step by step: the outer rim (diameter less
/// 10) and the inner rim (less 20) from 120 degrees over 300, the red line (less
/// 40) from 0 over 60, then for each of the 26 ticks `i` a line from the outer to
/// the inner ring at position `12 * i` and, for even `i`, the value `10 * i` on
/// the label ring. A tick and its value are purple exactly when the tick is on
/// the red line (from tick 20), white otherwise.
pub proof fn lemma_static_dial<const GW: usize, const GH: usize>(
    ctx: &DashboardContext<GW, GH>,
    w: usize,
    h: usize,
)
    ensures
        static_ops(ctx, w, h).len() == 42,
        static_ops(ctx, w, h)[0] == arc_op(gauge_centre(w, h), (w as u32) - 10, 120, 300, ctx.outer_style),
        static_ops(ctx, w, h)[1] == arc_op(gauge_centre(w, h), (w as u32) - 20, 120, 300, ctx.inner_style),
        static_ops(ctx, w, h)[2] == arc_op(gauge_centre(w, h), (w as u32) - 40, 0, 60, ctx.redline_style),
        forall|i: int|
            #![trigger tick_line_index(i)]
            0 <= i < 26 ==> static_ops(ctx, w, h)[tick_line_index(i)] == line_op(
                ctx.outer@[12 * i],
                ctx.p_point@[12 * i],
                if i >= 20 {
                    ctx.red_tick_style
                } else {
                    ctx.tick_style
                },
            ),
        forall|i: int|
            #![trigger tick_line_index(i)]
            0 <= i < 26 && i % 2 == 0 ==> static_ops(ctx, w, h)[tick_line_index(i) + 1] == text_op(
                decimal(10 * i),
                ctx.l_point@[12 * i],
                if i >= 20 {
                    ctx.red_text_style
                } else {
                    ctx.text_style
                },
            ),
{
    lemma_ticks_upto(ctx, 26);
    let c = gauge_centre(w, h);
    let arcs = seq![
        arc_op(c, (w as u32) - I_OUTER_OFFSET, 120, 300, ctx.outer_style),
        arc_op(c, (w as u32) - I_P_OFFSET, 120, 300, ctx.inner_style),
        arc_op(c, (w as u32) - I_L_OFFSET, 0, 60, ctx.redline_style),
    ];
    assert(static_ops(ctx, w, h) == arcs + ticks_upto(ctx, 26));
    assert forall|i: int| #![trigger tick_line_index(i)] 0 <= i < 26 implies static_ops(ctx, w, h)[tick_line_index(i)]
        == ticks_upto(ctx, 26)[tick_line_index(i) - 3] by {}
    assert forall|i: int| #![trigger tick_line_index(i)] 0 <= i < 26 && i % 2 == 0 implies static_ops(
        ctx,
        w,
        h,
    )[tick_line_index(i) + 1] == ticks_upto(ctx, 26)[tick_line_index(i) - 2] by {}
}

proof fn lemma_labels_upto<const GW: usize, const GH: usize>(
    ctx: &DashboardContext<GW, GH>,
    texts: Seq<heapless::String<3>>,
    n: nat,
)
    requires
        n <= 26,
    ensures
        labels_upto(ctx, texts, n).len() == (n + 1) / 2,
        forall|k: int|
            0 <= k && 2 * k < n ==> #[trigger] labels_upto(ctx, texts, n)[k] == text_op(
                label_chars(texts[k]),
                ctx.l_point@[24 * k],
                if k >= 10 {
                    ctx.red_text_style
                } else {
                    ctx.text_style
                },
            ),
    decreases n,
{
    if n > 0 {
        let m = (n - 1) as nat;
        lemma_labels_upto(ctx, texts, m);
        let prev = labels_upto(ctx, texts, m);
        assert(labels_upto(ctx, texts, n) == prev + label_ops(ctx, texts, m as int));
        assert forall|k: int| 0 <= k && 2 * k < n implies #[trigger] labels_upto(ctx, texts, n)[k]
            == text_op(
            label_chars(texts[k]),
            ctx.l_point@[24 * k],
            if k >= 10 {
                ctx.red_text_style
            } else {
                ctx.text_style
            },
        ) by {
            if 2 * k < m {
                assert(k < prev.len());
            } else {
                assert(k == prev.len());
                assert(m == 2 * k);
                assert(12 * m == 24 * k);
            }
        }
    }
}

/// The changing part of a gauge, step by step: first its 13 scale labels, the
/// `k`-th showing the gauge's own `k`-th text at label-ring position `24 * k`
/// (purple from the seventh label on, which stands on the red line); then the
/// needle from the label ring to the needle ring at the reading's position, the
/// hub's rim, the reading in decimal at the centre and the second line 18 pixels
/// below it.
pub proof fn lemma_dynamic_layout<const GW: usize, const GH: usize>(
    ctx: &DashboardContext<GW, GH>,
    w: usize,
    h: usize,
    g: GaugeView,
)
    ensures
        dynamic_ops(ctx, w, h, g).len() == 17,
        forall|k: int|
            0 <= k < 13 ==> #[trigger] dynamic_ops(ctx, w, h, g)[k] == text_op(
                label_chars(g.texts[k]),
                ctx.l_point@[24 * k],
                if k >= 10 {
                    ctx.red_text_style
                } else {
                    ctx.text_style
                },
            ),
        dynamic_ops(ctx, w, h, g)[13] == line_op(
            ctx.l_point@[needle_position(g.value as int)],
            ctx.n_point@[needle_position(g.value as int)],
            ctx.needle_style,
        ),
        dynamic_ops(ctx, w, h, g)[14] == arc_op(gauge_centre(w, h), ((w as u32) - 70) / 2, 100, 340, ctx.outer_style),
        dynamic_ops(ctx, w, h, g)[15] == text_op(decimal(g.value as int), ctx.centre, ctx.centre_text_style),
        dynamic_ops(ctx, w, h, g)[16] == text_op(
            line_chars(g.line2),
            Point { x: ctx.centre.x, y: (ctx.centre.y + 18) as i32 },
            ctx.centre_text_style,
        ),
{
    lemma_labels_upto(ctx, g.texts, 26);
    assert forall|k: int| 0 <= k < 13 implies #[trigger] dynamic_ops(ctx, w, h, g)[k]
        == labels_upto(ctx, g.texts, 26)[k] by {}
}

/// The red ticks are exactly those that lie on the red line: tick `i` sits at
/// ring position `12 * i`, that is `12 * i + 120` degrees round, and the red
/// line covers degrees 0 to 60.
pub proof fn lemma_red_ticks_on_red_line(i: int)
    requires
        0 <= i < 26,
    ensures
        in_red_zone(i) <==> 0 <= (12 * i + 120) % 360 <= 60,
{
}

/// The step that clears the middle of a gauge of `w` by `h` pixels: a circle of
/// diameter `clear_diameter` filled with the background colour.
pub open spec fn clear_mask_op<const GW: usize, const GH: usize>(
    ctx: &DashboardContext<GW, GH>,
    w: usize,
    h: usize,
    clear_diameter: usize,
) -> DrawOpView {
    DrawOpView::Styled {
        shape: Shape::Circle { center: gauge_centre(w, h), diameter: clear_diameter as u32 },
        style: fill_style(ctx.back_color),
    }
}

/// Readings that a gauge can draw: the needle cannot point below zero, and the
/// reading must fit the six-byte first line.
pub open spec fn drawable_value(value: int) -> bool {
    0 <= value <= 999_999
}

impl<
    const W: usize,
    const H: usize,
    const BUFFER: usize,
    const CLEAR_RADIUS: usize,
> Gauge<W, H, BUFFER, CLEAR_RADIUS> {
    /// A gauge at `location` reading zero, with the given labels and lines.
    pub fn new_speedo(
        location: Point,
        texts: [heapless::String<3>; 13],
        line1: heapless::String<6>,
        line2: heapless::String<6>,
    ) -> (g: Self)
        ensures
            g@.bounding_box == (Rectangle {
                top_left: location,
                size: Size { width: W as u32, height: H as u32 },
            }),
            g@.value == 0,
            g@.texts == texts@,
            g@.line1 == line1,
            g@.line2 == line2,
    {
        let size = Size::new(W as u32, H as u32);
        Gauge { bounding_box: Rectangle::new(location, size), value: 0, texts, line1, line2 }
    }

    /// Where the gauge goes on the display.
    pub fn bounding_box(&self) -> (b: Rectangle)
        ensures
            b == self@.bounding_box,
    {
        self.bounding_box
    }

    /// The reading.
    pub fn value(&self) -> (v: i32)
        ensures
            v == self@.value,
    {
        self.value
    }

    /// The first line of text.
    pub fn line1(&self) -> (l: &heapless::String<6>)
        ensures
            *l == self@.line1,
    {
        &self.line1
    }

    /// The second line of text.
    pub fn line2(&self) -> (l: &heapless::String<6>)
        ensures
            *l == self@.line2,
    {
        &self.line2
    }

    pub fn set_line1(&mut self, value: heapless::String<6>)
        ensures
            final(self)@ == (GaugeView { line1: value, ..old(self)@ }),
    {
        self.line1 = value;
    }

    pub fn set_line2(&mut self, value: heapless::String<6>)
        ensures
            final(self)@ == (GaugeView { line2: value, ..old(self)@ }),
    {
        self.line2 = value;
    }

    /// Sets the reading.
    pub fn set_value(&mut self, value: i32)
        ensures
            final(self)@ == (GaugeView { value, ..old(self)@ }),
    {
        self.value = value;
    }

    fn center() -> (c: Point)
        ensures
            c == gauge_centre(W, H),
    {
        Point { x: (W / 2) as i32, y: (H / 2) as i32 }
    }

    /// The steps that draw the unchanging part of the gauge.
    pub fn draw_static(&self, context: &DashboardContext<W, H>) -> (ops: Vec<DrawOp>)
        requires
            context.wf(),
            W as u32 >= I_L_OFFSET,
        ensures
            ops.deep_view() == static_ops(context, W, H),
            ops.deep_view().len() == 42,
            forall|i: int|
                #![trigger tick_line_index(i)]
                0 <= i < 26 ==> ops.deep_view()[tick_line_index(i)] == line_op(
                    context.outer@[12 * i],
                    context.p_point@[12 * i],
                    if i >= 20 {
                        context.red_tick_style
                    } else {
                        context.tick_style
                    },
                ),
            forall|i: int|
                #![trigger tick_line_index(i)]
                0 <= i < 26 && i % 2 == 0 ==> ops.deep_view()[tick_line_index(i) + 1] == text_op(
                    decimal(10 * i),
                    context.l_point@[12 * i],
                    if i >= 20 {
                        context.red_text_style
                    } else {
                        context.text_style
                    },
                ),
    {
        let c = Self::center();
        let mut ops: Vec<DrawOp> = Vec::new();
        push_op(
            &mut ops,
            DrawOp::Styled {
                shape: Shape::Arc {
                    center: c,
                    diameter: W as u32 - I_OUTER_OFFSET,
                    start_degrees: 120,
                    sweep_degrees: 300,
                },
                style: context.outer_style,
            },
        );
        push_op(
            &mut ops,
            DrawOp::Styled {
                shape: Shape::Arc {
                    center: c,
                    diameter: W as u32 - I_P_OFFSET,
                    start_degrees: 120,
                    sweep_degrees: 300,
                },
                style: context.inner_style,
            },
        );
        push_op(
            &mut ops,
            DrawOp::Styled {
                shape: Shape::Arc {
                    center: c,
                    diameter: W as u32 - I_L_OFFSET,
                    start_degrees: 0,
                    sweep_degrees: 60,
                },
                style: context.redline_style,
            },
        );
        let ghost arcs = ops.deep_view();
        let mut i: usize = 0;
        while i < 26
            invariant
                0 <= i <= 26,
                context.wf(),
                ops.deep_view() == arcs + ticks_upto(context, i as nat),
            decreases 26 - i,
        {
            let ghost before = ops.deep_view();
            let (tick, text_style) = if i < 20 {
                (context.tick_style, context.text_style)
            } else {
                (context.red_tick_style, context.red_text_style)
            };
            push_op(
                &mut ops,
                DrawOp::Styled {
                    shape: Shape::Line { start: context.outer[i * 12], end: context.p_point[i * 12] },
                    style: tick,
                },
            );
            if i % 2 == 0 {
                let text = decimal_string((i * 10) as i32);
                push_op(
                    &mut ops,
                    DrawOp::Text { content: text, position: context.l_point[i * 12], style: text_style },
                );
            }
            assert(ops.deep_view() =~= before + tick_ops(context, i as int));
            i = i + 1;
        }
        assert(ops.deep_view() =~= static_ops(context, W, H));
        proof {
            lemma_static_dial(context, W, H);
        }
        ops
    }

    /// The step that clears the gauge's middle: a circle of diameter
    /// `CLEAR_RADIUS` filled with the background colour.
    pub fn draw_clear_mask(&self, context: &DashboardContext<W, H>) -> (op: DrawOp)
        requires
            CLEAR_RADIUS <= u32::MAX,
        ensures
            op.deep_view() == clear_mask_op(context, W, H, CLEAR_RADIUS),
            op.deep_view() == (DrawOpView::Styled {
                shape: Shape::Circle {
                    center: Point { x: (W / 2) as i32, y: (H / 2) as i32 },
                    diameter: CLEAR_RADIUS as u32,
                },
                style: Style { fill_color: Some(context.back_color), stroke_color: None, stroke_width: 0 },
            }),
    {
        let diameter = usize_to_u32(CLEAR_RADIUS).unwrap();
        DrawOp::Styled {
            shape: Shape::Circle { center: Self::center(), diameter },
            style: Style::fill(context.back_color),
        }
    }

    /// The steps that draw the changing part of the gauge; the first line
    /// becomes the reading in decimal, which the steps show.
    pub fn draw_dynamic(&mut self, context: &DashboardContext<W, H>) -> (ops: Vec<DrawOp>)
        requires
            context.wf(),
            W as u32 >= I_N_OFFSET,
            context.centre.y <= i32::MAX - 18,
            drawable_value(old(self)@.value as int),
        ensures
            line_chars(final(self)@.line1) == decimal(old(self)@.value as int),
            final(self)@ == (GaugeView { line1: final(self)@.line1, ..old(self)@ }),
            ops.deep_view() == dynamic_ops(context, W, H, old(self)@),
            ops.deep_view().len() == 17,
            forall|k: int|
                0 <= k < 13 ==> #[trigger] ops.deep_view()[k] == text_op(
                    label_chars(old(self)@.texts[k]),
                    context.l_point@[24 * k],
                    if k >= 10 {
                        context.red_text_style
                    } else {
                        context.text_style
                    },
                ),
            ops.deep_view()[15] == text_op(
                decimal(old(self)@.value as int),
                context.centre,
                context.centre_text_style,
            ),
    {
        let ghost g = self@;
        let mut ops: Vec<DrawOp> = Vec::new();
        let mut i: usize = 0;
        while i < 26
            invariant
                0 <= i <= 26,
                context.wf(),
                self@ == g,
                ops.deep_view() == labels_upto(context, g.texts, i as nat),
            decreases 26 - i,
        {
            let ghost before = ops.deep_view();
            let text_style = if i < 20 {
                context.text_style
            } else {
                context.red_text_style
            };
            if i % 2 == 0 {
                let text = label_to_string(&self.texts[i / 2]);
                push_op(
                    &mut ops,
                    DrawOp::Text { content: text, position: context.l_point[i * 12], style: text_style },
                );
            }
            assert(ops.deep_view() =~= before + label_ops(context, g.texts, i as int));
            i = i + 1;
        }
        let angle: usize = ((self.value as usize) * 6 / 5) % 360;
        push_op(
            &mut ops,
            DrawOp::Styled {
                shape: Shape::Line { start: context.l_point[angle], end: context.n_point[angle] },
                style: context.needle_style,
            },
        );
        push_op(
            &mut ops,
            DrawOp::Styled {
                shape: Shape::Arc {
                    center: Self::center(),
                    diameter: (W as u32 - I_N_OFFSET) / 2,
                    start_degrees: 100,
                    sweep_degrees: 340,
                },
                style: context.outer_style,
            },
        );
        let speed_text = decimal_string(self.value);
        proof {
            reveal_with_fuel(pow10, 7);
            lemma_decimal_fits(self.value as int, 6);
            vstd::utf8::is_ascii_chars_encode_utf8(speed_text@);
        }
        self.set_line1(line_from_str(speed_text.as_str()).unwrap());
        push_op(
            &mut ops,
            DrawOp::Text { content: speed_text, position: context.centre, style: context.centre_text_style },
        );
        push_op(
            &mut ops,
            DrawOp::Text {
                content: line_to_string(&self.line2),
                position: Point::new(context.centre.x, context.centre.y + 18),
                style: context.centre_text_style,
            },
        );
        assert(ops.deep_view() =~= dynamic_ops(context, W, H, g));
        proof {
            lemma_dynamic_layout(context, W, H, g);
        }
        ops
    }
}

} // verus!
