//! The status screen between the gauges: the two blinker arrows and the
//! headlight symbol.
use vstd::prelude::*;

use crate::color::Style;
use crate::dashboard::DashboardContext;
use crate::draw::{push_op, DrawOp, DrawOpView, Shape};
use crate::geometry::{CornerRadii, Point, Rectangle, Size};

verus! {

/// The state of a lamp on the status screen.
#[derive(Clone, Copy, Debug, PartialEq, Eq, Structural)]
pub enum LightIndicator {
    On,
    Off,
    High,
}

/// The lamp states that the status screen shows.
pub struct IndicatorLights {
    pub left_blinker: LightIndicator,
    pub right_blinker: LightIndicator,
    pub headlight_indicator: LightIndicator,
}

/// The status screen, drawn into a buffer of `W` by `H` pixels (of `BUFFER`
/// bytes) with the context of gauges of `GW` by `GH` pixels.
pub struct StatusScreen<
    const W: usize,
    const H: usize,
    const BUFFER: usize,
    const GW: usize,
    const GH: usize,
> {
    left_blinker: LightIndicator,
    right_blinker: LightIndicator,
    headlight_indicator: LightIndicator,
}

impl<
    const W: usize,
    const H: usize,
    const BUFFER: usize,
    const GW: usize,
    const GH: usize,
> View for StatusScreen<W, H, BUFFER, GW, GH> {
    type V = IndicatorLights;

    closed spec fn view(&self) -> IndicatorLights {
        IndicatorLights {
            left_blinker: self.left_blinker,
            right_blinker: self.right_blinker,
            headlight_indicator: self.headlight_indicator,
        }
    }
}

/// The style of the left blinker arrow: lit when on, dark otherwise.
pub open spec fn left_blinker_style<const GW: usize, const GH: usize>(
    ctx: &DashboardContext<GW, GH>,
    state: LightIndicator,
) -> Style {
    match state {
        LightIndicator::On => ctx.blinker_on_style,
        LightIndicator::Off => ctx.light_off_style,
        LightIndicator::High => ctx.light_off_style,
    }
}

/// The style of the right blinker arrow: lit when on, the blinker's own dark
/// fill when off, the lamp-off style when high.
pub open spec fn right_blinker_style<const GW: usize, const GH: usize>(
    ctx: &DashboardContext<GW, GH>,
    state: LightIndicator,
) -> Style {
    match state {
        LightIndicator::On => ctx.blinker_on_style,
        LightIndicator::Off => ctx.blinker_off_style,
        LightIndicator::High => ctx.light_off_style,
    }
}

/// The style of the headlight symbol: low beam, high beam or off.
pub open spec fn headlight_style<const GW: usize, const GH: usize>(
    ctx: &DashboardContext<GW, GH>,
    state: LightIndicator,
) -> Style {
    match state {
        LightIndicator::On => ctx.headlight_on_style,
        LightIndicator::High => ctx.headlight_high_style,
        LightIndicator::Off => ctx.light_off_style,
    }
}

/// A shape drawn in a style, as a drawing step.
pub open spec fn styled(shape: Shape, style: Style) -> DrawOpView {
    DrawOpView::Styled { shape, style }
}

/// The point `(x, y)` moved by `by`.
pub open spec fn at(x: i32, y: i32, by: Point) -> Point {
    Point { x: (x + by.x) as i32, y: (y + by.y) as i32 }
}

/// The headlight symbol with its top-left corner at `top_left`: a lamp body
/// rounded on its left side and four beams to its right.
pub open spec fn headlight_ops(style: Style, top_left: Point) -> Seq<DrawOpView> {
    seq![
        styled(
            Shape::RoundedRectangle {
                area: Rectangle { top_left: at(2, 2, top_left), size: Size { width: 16, height: 20 } },
                corners: CornerRadii {
                    top_left: Size { width: 7, height: 7 },
                    top_right: Size { width: 0, height: 0 },
                    bottom_right: Size { width: 0, height: 0 },
                    bottom_left: Size { width: 7, height: 7 },
                },
            },
            style,
        ),
        styled(Shape::Line { start: at(21, 2, top_left), end: at(27, 4, top_left) }, style),
        styled(Shape::Line { start: at(21, 7, top_left), end: at(27, 9, top_left) }, style),
        styled(Shape::Line { start: at(21, 12, top_left), end: at(27, 14, top_left) }, style),
        styled(Shape::Line { start: at(21, 17, top_left), end: at(27, 19, top_left) }, style),
    ]
}

/// The two blinker arrows: each a triangular head and a rectangular shaft,
/// the left one pointing left and the right one pointing right.
pub open spec fn indicator_ops(left: Style, right: Style) -> Seq<DrawOpView> {
    seq![
        styled(
            Shape::Triangle {
                vertex1: Point { x: 1, y: 14 },
                vertex2: Point { x: 20, y: 0 },
                vertex3: Point { x: 20, y: 28 },
            },
            left,
        ),
        styled(
            Shape::Rectangle {
                area: Rectangle {
                    top_left: Point { x: 20, y: 8 },
                    size: Size { width: 16, height: 14 },
                },
            },
            left,
        ),
        styled(
            Shape::Triangle {
                vertex1: Point { x: 79, y: 14 },
                vertex2: Point { x: 60, y: 0 },
                vertex3: Point { x: 60, y: 28 },
            },
            right,
        ),
        styled(
            Shape::Rectangle {
                area: Rectangle {
                    top_left: Point { x: 44, y: 8 },
                    size: Size { width: 16, height: 14 },
                },
            },
            right,
        ),
    ]
}

/// What the status screen draws for the given lamp states: the headlight
/// symbol at (20, 50), then the blinker arrows.
pub open spec fn status_ops<const GW: usize, const GH: usize>(
    ctx: &DashboardContext<GW, GH>,
    lights: IndicatorLights,
) -> Seq<DrawOpView> {
    headlight_ops(headlight_style(ctx, lights.headlight_indicator), Point { x: 20, y: 50 })
        + indicator_ops(
        left_blinker_style(ctx, lights.left_blinker),
        right_blinker_style(ctx, lights.right_blinker),
    )
}

/// The headlight symbol's beams are four lines, each six pixels right and two
/// down, stacked five pixels apart from `top_left + (21, 2)`: four distinct
/// beams, after the lamp body.
pub proof fn lemma_headlight_beams(style: Style, top_left: Point)
    requires
        top_left.x <= i32::MAX - 27,
        top_left.y <= i32::MAX - 19,
        top_left.x >= i32::MIN,
    ensures
        headlight_ops(style, top_left).len() == 5,
        forall|j: int|
            0 <= j < 4 ==> #[trigger] headlight_ops(style, top_left)[j + 1] == styled(
                Shape::Line {
                    start: Point { x: (top_left.x + 21) as i32, y: (top_left.y + 2 + 5 * j) as i32 },
                    end: Point { x: (top_left.x + 27) as i32, y: (top_left.y + 4 + 5 * j) as i32 },
                },
                style,
            ),
        forall|j1: int, j2: int|
            0 <= j1 < 4 && 0 <= j2 < 4 && j1 != j2 ==> #[trigger] headlight_ops(style, top_left)[j1
                + 1] != #[trigger] headlight_ops(style, top_left)[j2 + 1],
{
    let h = headlight_ops(style, top_left);
    assert forall|j: int| 0 <= j < 4 implies #[trigger] h[j + 1] == styled(
        Shape::Line {
            start: Point { x: (top_left.x + 21) as i32, y: (top_left.y + 2 + 5 * j) as i32 },
            end: Point { x: (top_left.x + 27) as i32, y: (top_left.y + 4 + 5 * j) as i32 },
        },
        style,
    ) by {
        if j == 0 {
        } else if j == 1 {
        } else if j == 2 {
        } else {
        }
    }
    assert forall|j1: int, j2: int|
        0 <= j1 < 4 && 0 <= j2 < 4 && j1 != j2 implies #[trigger] h[j1 + 1] != #[trigger] h[j2
        + 1] by {
        let a = h[j1 + 1];
        let b = h[j2 + 1];
        assert(a == styled(
            Shape::Line {
                start: Point { x: (top_left.x + 21) as i32, y: (top_left.y + 2 + 5 * j1) as i32 },
                end: Point { x: (top_left.x + 27) as i32, y: (top_left.y + 4 + 5 * j1) as i32 },
            },
            style,
        ));
        assert(b == styled(
            Shape::Line {
                start: Point { x: (top_left.x + 21) as i32, y: (top_left.y + 2 + 5 * j2) as i32 },
                end: Point { x: (top_left.x + 27) as i32, y: (top_left.y + 4 + 5 * j2) as i32 },
            },
            style,
        ));
    }
}

/// The status screen, step by step, for any lamp states: the headlight symbol
/// with its top-left corner at (20, 50) (a lamp body at (22, 52) and beams from
/// (41, 52), (41, 57), (41, 62) and (41, 67)), lit green for low beam, in the
/// gauge colour for high beam and dark when off; then the left arrow (pointing
/// left, from x 1 to 36) lit exactly when the left blinker is on; then the right
/// arrow (pointing right, from x 44 to 79) lit exactly when the right blinker is
/// on, in its own dark fill when off.
pub proof fn lemma_status_layout<const GW: usize, const GH: usize>(
    ctx: &DashboardContext<GW, GH>,
    lights: IndicatorLights,
)
    ensures
        ({
            let ops = status_ops(ctx, lights);
            let head = if lights.headlight_indicator == LightIndicator::On {
                ctx.headlight_on_style
            } else if lights.headlight_indicator == LightIndicator::High {
                ctx.headlight_high_style
            } else {
                ctx.light_off_style
            };
            let left = if lights.left_blinker == LightIndicator::On {
                ctx.blinker_on_style
            } else {
                ctx.light_off_style
            };
            let right = if lights.right_blinker == LightIndicator::On {
                ctx.blinker_on_style
            } else if lights.right_blinker == LightIndicator::Off {
                ctx.blinker_off_style
            } else {
                ctx.light_off_style
            };
            &&& ops.len() == 9
            &&& ops[0] == styled(
                Shape::RoundedRectangle {
                    area: Rectangle { top_left: Point { x: 22, y: 52 }, size: Size { width: 16, height: 20 } },
                    corners: CornerRadii {
                        top_left: Size { width: 7, height: 7 },
                        top_right: Size { width: 0, height: 0 },
                        bottom_right: Size { width: 0, height: 0 },
                        bottom_left: Size { width: 7, height: 7 },
                    },
                },
                head,
            )
            &&& forall|j: int|
                0 <= j < 4 ==> #[trigger] ops[j + 1] == styled(
                    Shape::Line {
                        start: Point { x: 41, y: (52 + 5 * j) as i32 },
                        end: Point { x: 47, y: (54 + 5 * j) as i32 },
                    },
                    head,
                )
            &&& ops[5] == styled(
                Shape::Triangle {
                    vertex1: Point { x: 1, y: 14 },
                    vertex2: Point { x: 20, y: 0 },
                    vertex3: Point { x: 20, y: 28 },
                },
                left,
            )
            &&& ops[6] == styled(
                Shape::Rectangle {
                    area: Rectangle { top_left: Point { x: 20, y: 8 }, size: Size { width: 16, height: 14 } },
                },
                left,
            )
            &&& ops[7] == styled(
                Shape::Triangle {
                    vertex1: Point { x: 79, y: 14 },
                    vertex2: Point { x: 60, y: 0 },
                    vertex3: Point { x: 60, y: 28 },
                },
                right,
            )
            &&& ops[8] == styled(
                Shape::Rectangle {
                    area: Rectangle { top_left: Point { x: 44, y: 8 }, size: Size { width: 16, height: 14 } },
                },
                right,
            )
        }),
{
    let tl = Point { x: 20, y: 50 };
    let head = headlight_style(ctx, lights.headlight_indicator);
    lemma_headlight_beams(head, tl);
    let ops = status_ops(ctx, lights);
    let h = headlight_ops(head, tl);
    assert forall|j: int| 0 <= j < 4 implies #[trigger] ops[j + 1] == styled(
        Shape::Line {
            start: Point { x: 41, y: (52 + 5 * j) as i32 },
            end: Point { x: 47, y: (54 + 5 * j) as i32 },
        },
        head,
    ) by {
        assert(ops[j + 1] == h[j + 1]);
    }
}

fn styled_op(shape: Shape, style: Style) -> (op: DrawOp)
    ensures
        op.deep_view() == styled(shape, style),
{
    DrawOp::Styled { shape, style }
}

impl<
    const W: usize,
    const H: usize,
    const BUFFER: usize,
    const GW: usize,
    const GH: usize,
> StatusScreen<W, H, BUFFER, GW, GH> {
    /// A status screen with every lamp off.
    pub fn new() -> (s: Self)
        ensures
            s@.left_blinker == LightIndicator::Off,
            s@.right_blinker == LightIndicator::Off,
            s@.headlight_indicator == LightIndicator::Off,
    {
        Self {
            left_blinker: LightIndicator::Off,
            right_blinker: LightIndicator::Off,
            headlight_indicator: LightIndicator::Off,
        }
    }

    /// The state of the left blinker.
    pub fn left_blinker(&self) -> (v: LightIndicator)
        ensures
            v == self@.left_blinker,
    {
        self.left_blinker
    }

    /// The state of the right blinker.
    pub fn right_blinker(&self) -> (v: LightIndicator)
        ensures
            v == self@.right_blinker,
    {
        self.right_blinker
    }

    /// The state of the headlight.
    pub fn headlight_indicator(&self) -> (v: LightIndicator)
        ensures
            v == self@.headlight_indicator,
    {
        self.headlight_indicator
    }

    /// The drawing steps of the status screen in its current state.
    pub fn draw(&self, context: &DashboardContext<GW, GH>) -> (ops: Vec<DrawOp>)
        ensures
            ops.deep_view() == status_ops(context, self@),
            ops.deep_view().len() == 9,
            ops.deep_view()[5] == styled(
                Shape::Triangle {
                    vertex1: Point { x: 1, y: 14 },
                    vertex2: Point { x: 20, y: 0 },
                    vertex3: Point { x: 20, y: 28 },
                },
                if self@.left_blinker == LightIndicator::On {
                    context.blinker_on_style
                } else {
                    context.light_off_style
                },
            ),
            ops.deep_view()[7] == styled(
                Shape::Triangle {
                    vertex1: Point { x: 79, y: 14 },
                    vertex2: Point { x: 60, y: 0 },
                    vertex3: Point { x: 60, y: 28 },
                },
                if self@.right_blinker == LightIndicator::On {
                    context.blinker_on_style
                } else if self@.right_blinker == LightIndicator::Off {
                    context.blinker_off_style
                } else {
                    context.light_off_style
                },
            ),
            forall|j: int|
                0 <= j < 4 ==> #[trigger] ops.deep_view()[j + 1] == styled(
                    Shape::Line {
                        start: Point { x: 41, y: (52 + 5 * j) as i32 },
                        end: Point { x: 47, y: (54 + 5 * j) as i32 },
                    },
                    headlight_style(context, self@.headlight_indicator),
                ),
    {
        proof {
            lemma_status_layout(context, self@);
        }
        let mut ops: Vec<DrawOp> = Vec::new();
        self.draw_headlight_indicator(&mut ops, context, Point { x: 20, y: 50 });
        self.draw_indicators(&mut ops, context);
        assert(ops.deep_view() =~= status_ops(context, self@));
        ops
    }

    /// Sets the left blinker; the other lamps keep their states.
    pub fn set_left_blinker(&mut self, value: LightIndicator)
        ensures
            final(self)@.left_blinker == value,
            final(self)@.right_blinker == old(self)@.right_blinker,
            final(self)@.headlight_indicator == old(self)@.headlight_indicator,
    {
        self.left_blinker = value;
    }

    /// Sets the right blinker; the other lamps keep their states.
    pub fn set_right_blinker(&mut self, value: LightIndicator)
        ensures
            final(self)@.right_blinker == value,
            final(self)@.left_blinker == old(self)@.left_blinker,
            final(self)@.headlight_indicator == old(self)@.headlight_indicator,
    {
        self.right_blinker = value;
    }

    /// Sets the headlight; the blinkers keep their states.
    pub fn set_headlight_indicator(&mut self, value: LightIndicator)
        ensures
            final(self)@.headlight_indicator == value,
            final(self)@.left_blinker == old(self)@.left_blinker,
            final(self)@.right_blinker == old(self)@.right_blinker,
    {
        self.headlight_indicator = value;
    }

    fn draw_indicators(&self, ops: &mut Vec<DrawOp>, context: &DashboardContext<GW, GH>)
        ensures
            final(ops).deep_view() == old(ops).deep_view() + indicator_ops(
                left_blinker_style(context, self@.left_blinker),
                right_blinker_style(context, self@.right_blinker),
            ),
    {
        let ghost before = ops.deep_view();
        let left_style = match self.left_blinker {
            LightIndicator::On => context.blinker_on_style,
            LightIndicator::Off => context.light_off_style,
            LightIndicator::High => context.light_off_style,
        };
        let right_style = match self.right_blinker {
            LightIndicator::On => context.blinker_on_style,
            LightIndicator::Off => context.blinker_off_style,
            LightIndicator::High => context.light_off_style,
        };
        push_op(
            ops,
            styled_op(
                Shape::Triangle {
                    vertex1: Point { x: 1, y: 14 },
                    vertex2: Point { x: 20, y: 0 },
                    vertex3: Point { x: 20, y: 28 },
                },
                left_style,
            ),
        );
        push_op(
            ops,
            styled_op(
                Shape::Rectangle {
                    area: Rectangle::new(Point { x: 20, y: 8 }, Size { width: 16, height: 14 }),
                },
                left_style,
            ),
        );
        push_op(
            ops,
            styled_op(
                Shape::Triangle {
                    vertex1: Point { x: 80 - 1, y: 14 },
                    vertex2: Point { x: 80 - 20, y: 0 },
                    vertex3: Point { x: 80 - 20, y: 28 },
                },
                right_style,
            ),
        );
        push_op(
            ops,
            styled_op(
                Shape::Rectangle {
                    area: Rectangle::new(Point { x: 80 - 36, y: 8 }, Size { width: 16, height: 14 }),
                },
                right_style,
            ),
        );
        assert(ops.deep_view() =~= before + indicator_ops(left_style, right_style));
    }

    fn draw_headlight_indicator(
        &self,
        ops: &mut Vec<DrawOp>,
        context: &DashboardContext<GW, GH>,
        top_left: Point,
    )
        requires
            top_left.x <= i32::MAX - 27,
            top_left.y <= i32::MAX - 19,
        ensures
            final(ops).deep_view() == old(ops).deep_view() + headlight_ops(
                headlight_style(context, self@.headlight_indicator),
                top_left,
            ),
    {
        let ghost before = ops.deep_view();
        let color = match self.headlight_indicator {
            LightIndicator::On => context.headlight_on_style,
            LightIndicator::High => context.headlight_high_style,
            LightIndicator::Off => context.light_off_style,
        };
        push_op(
            ops,
            styled_op(
                Shape::RoundedRectangle {
                    area: Rectangle {
                        top_left: Point { x: 2, y: 2 }.offset_by(top_left),
                        size: Size { width: 16, height: 20 },
                    },
                    corners: CornerRadii {
                        top_left: Size { width: 7, height: 7 },
                        top_right: Size { width: 0, height: 0 },
                        bottom_right: Size { width: 0, height: 0 },
                        bottom_left: Size { width: 7, height: 7 },
                    },
                },
                color,
            ),
        );
        push_op(
            ops,
            styled_op(
                Shape::Line {
                    start: Point { x: 21, y: 2 }.offset_by(top_left),
                    end: Point { x: 27, y: 4 }.offset_by(top_left),
                },
                color,
            ),
        );
        push_op(
            ops,
            styled_op(
                Shape::Line {
                    start: Point { x: 21, y: 7 }.offset_by(top_left),
                    end: Point { x: 27, y: 9 }.offset_by(top_left),
                },
                color,
            ),
        );
        push_op(
            ops,
            styled_op(
                Shape::Line {
                    start: Point { x: 21, y: 12 }.offset_by(top_left),
                    end: Point { x: 27, y: 14 }.offset_by(top_left),
                },
                color,
            ),
        );
        push_op(
            ops,
            styled_op(
                Shape::Line {
                    start: Point { x: 21, y: 17 }.offset_by(top_left),
                    end: Point { x: 27, y: 19 }.offset_by(top_left),
                },
                color,
            ),
        );
        assert(ops.deep_view() =~= before + headlight_ops(color, top_left));
    }
}

} // verus!
