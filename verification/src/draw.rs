//! Drawing plans: the shapes and texts that a frame is made of, in the order
//! in which they are drawn, and the buffers they go to.
use vstd::prelude::*;

use crate::color::{Color, Style, TextStyle};
use crate::geometry::{CornerRadii, Point, Rectangle};

verus! {

/// A shape in screen coordinates.
#[derive(Clone, Copy, Debug, PartialEq, Eq, Structural)]
pub enum Shape {
    /// An arc of the circle of `diameter` around `center`, from `start_degrees`
    /// (clockwise from the positive x axis) over `sweep_degrees`.
    Arc { center: Point, diameter: u32, start_degrees: i32, sweep_degrees: i32 },
    /// The circle of `diameter` around `center`.
    Circle { center: Point, diameter: u32 },
    /// The straight line from `start` to `end`.
    Line { start: Point, end: Point },
    /// The triangle with the three given corners.
    Triangle { vertex1: Point, vertex2: Point, vertex3: Point },
    /// A plain rectangle.
    Rectangle { area: Rectangle },
    /// A rectangle with rounded corners.
    RoundedRectangle { area: Rectangle, corners: CornerRadii },
}

/// One drawing step on a buffer.
#[derive(Debug, PartialEq, Eq)]
pub enum DrawOp {
    /// Fill the whole buffer with `color`.
    Clear { color: Color },
    /// Draw `shape` in `style`.
    Styled { shape: Shape, style: Style },
    /// Write `content` centred on `position` in `style`.
    Text { content: String, position: Point, style: TextStyle },
}

/// A drawing step as a value: the text content taken as its characters.
pub enum DrawOpView {
    Clear { color: Color },
    Styled { shape: Shape, style: Style },
    Text { content: Seq<char>, position: Point, style: TextStyle },
}

impl DeepView for DrawOp {
    type V = DrawOpView;

    open spec fn deep_view(&self) -> DrawOpView {
        match self {
            DrawOp::Clear { color } => DrawOpView::Clear { color: *color },
            DrawOp::Styled { shape, style } => DrawOpView::Styled { shape: *shape, style: *style },
            DrawOp::Text { content, position, style } => DrawOpView::Text {
                content: content@,
                position: *position,
                style: *style,
            },
        }
    }
}

/// The two off-screen buffers that the dashboard draws into.
#[derive(Clone, Copy, Debug, PartialEq, Eq, Structural)]
pub enum Surface {
    /// The buffer of one gauge, shared by both gauges in turn.
    Gauges,
    /// The buffer of the status screen.
    Status,
}

/// One step of a frame: draw on a buffer, or send a buffer to a part of the display.
#[derive(Debug, PartialEq, Eq)]
pub enum Command {
    Draw { surface: Surface, op: DrawOp },
    Present { surface: Surface, viewport: Rectangle },
}

/// A frame step as a value.
pub enum CommandView {
    Draw { surface: Surface, op: DrawOpView },
    Present { surface: Surface, viewport: Rectangle },
}

impl DeepView for Command {
    type V = CommandView;

    open spec fn deep_view(&self) -> CommandView {
        match self {
            Command::Draw { surface, op } => CommandView::Draw {
                surface: *surface,
                op: op.deep_view(),
            },
            Command::Present { surface, viewport } => CommandView::Present {
                surface: *surface,
                viewport: *viewport,
            },
        }
    }
}

/// The steps `ops`, each drawn on `surface`.
pub open spec fn on_surface(surface: Surface, ops: Seq<DrawOpView>) -> Seq<CommandView> {
    Seq::new(ops.len(), |i: int| CommandView::Draw { surface, op: ops[i] })
}

/// Appends a drawing step to a plan.
pub(crate) fn push_op(ops: &mut Vec<DrawOp>, op: DrawOp)
    ensures
        final(ops).deep_view() == old(ops).deep_view().push(op.deep_view()),
{
    let ghost before = ops.deep_view();
    ops.push(op);
    assert(ops.deep_view() =~= before.push(op.deep_view()));
}

/// Appends `ops`, each drawn on `surface`, to a frame.
pub(crate) fn push_ops_on(commands: &mut Vec<Command>, surface: Surface, ops: Vec<DrawOp>)
    ensures
        final(commands).deep_view() == old(commands).deep_view() + on_surface(
            surface,
            ops.deep_view(),
        ),
{
    let ghost before = commands.deep_view();
    let ghost views = ops.deep_view();
    let ghost all = ops@;
    let mut rest = ops;
    while rest.len() > 0
        invariant
            0 <= rest@.len() <= all.len(),
            views.len() == all.len(),
            rest@ == all.skip(all.len() - rest@.len()),
            forall|i: int| 0 <= i < all.len() ==> #[trigger] views[i] == all[i].deep_view(),
            commands.deep_view() == before + on_surface(
                surface,
                views.take(all.len() - rest@.len()),
            ),
        decreases rest.len(),
    {
        let ghost k = all.len() - rest@.len();
        let op = rest.remove(0);
        assert(op == all[k]);
        push_command(commands, Command::Draw { surface, op });
        assert(rest@ =~= all.skip(k + 1));
        assert(on_surface(surface, views.take(k + 1)) =~= on_surface(surface, views.take(k)).push(
            CommandView::Draw { surface, op: views[k] },
        ));
        assert(commands.deep_view() =~= before + on_surface(surface, views.take(k + 1)));
    }
    assert(views.take(all.len() as int) =~= views);
}

/// Appends a step to a frame.
pub(crate) fn push_command(commands: &mut Vec<Command>, command: Command)
    ensures
        final(commands).deep_view() == old(commands).deep_view().push(command.deep_view()),
{
    let ghost before = commands.deep_view();
    commands.push(command);
    assert(commands.deep_view() =~= before.push(command.deep_view()));
}

} // verus!
