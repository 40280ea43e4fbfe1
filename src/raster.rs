//! Immediate-mode rendering: a scene becomes a list of stroke commands that
//! the host replays on a raster surface. No draw list is retained.

use vstd::prelude::*;
use vstd::string::*;
use crate::shape::{Point, Primitive, Scene, Shape, Surface, default_shapes};

verus! {

/// One raster drawing command, in absolute surface pixel coordinates.
#[derive(Debug)]
pub enum Command {
    StrokeRect { x: i64, y: i64, w: i64, h: i64 },
    BeginPath,
    /// An arc around `(cx, cy)` sweeping one full turn, starting at angle zero.
    Arc { cx: i64, cy: i64, r: i64 },
    MoveTo { x: i64, y: i64 },
    LineTo { x: i64, y: i64 },
    ClosePath,
    Stroke,
    StrokeText { x: i64, y: i64, content: String },
}

/// The mathematical model of a `Command`.
pub ghost enum Op {
    StrokeRect { x: i64, y: i64, w: i64, h: i64 },
    BeginPath,
    Arc { cx: i64, cy: i64, r: i64 },
    MoveTo { x: i64, y: i64 },
    LineTo { x: i64, y: i64 },
    ClosePath,
    Stroke,
    StrokeText { x: i64, y: i64, content: Seq<char> },
}

impl View for Command {
    type V = Op;

    open spec fn view(&self) -> Op {
        match self {
            Command::StrokeRect { x, y, w, h } => Op::StrokeRect { x: *x, y: *y, w: *w, h: *h },
            Command::BeginPath => Op::BeginPath,
            Command::Arc { cx, cy, r } => Op::Arc { cx: *cx, cy: *cy, r: *r },
            Command::MoveTo { x, y } => Op::MoveTo { x: *x, y: *y },
            Command::LineTo { x, y } => Op::LineTo { x: *x, y: *y },
            Command::ClosePath => Op::ClosePath,
            Command::Stroke => Op::Stroke,
            Command::StrokeText { x, y, content } => Op::StrokeText {
                x: *x,
                y: *y,
                content: content@,
            },
        }
    }
}

/// The models of a list of commands.
pub open spec fn ops_of(cmds: Seq<Command>) -> Seq<Op> {
    cmds.map_values(|c: Command| c@)
}

/// Move to the first point, then a line to each later one.
pub open spec fn path_ops(points: Seq<Point>) -> Seq<Op> {
    Seq::new(
        points.len(),
        |i: int|
            if i == 0 {
                Op::MoveTo { x: points[i].x, y: points[i].y }
            } else {
                Op::LineTo { x: points[i].x, y: points[i].y }
            },
    )
}

/// The commands that draw one shape.
pub open spec fn shape_ops(s: Shape) -> Seq<Op> {
    match s {
        Shape::Rect { x, y, w, h } => seq![Op::StrokeRect { x, y, w, h }],
        Shape::Circle { cx, cy, r, .. } => seq![Op::BeginPath, Op::Arc { cx, cy, r }, Op::Stroke],
        Shape::Polyline { points, closed } => seq![Op::BeginPath] + path_ops(points) + (if closed {
            seq![Op::ClosePath]
        } else {
            Seq::empty()
        }) + seq![Op::Stroke],
        Shape::Text { x, y, content } => seq![Op::StrokeText { x, y, content }],
    }
}

/// The commands that draw a scene: each shape's commands, in scene order.
pub open spec fn scene_ops(shapes: Seq<Shape>) -> Seq<Op>
    decreases shapes.len(),
{
    if shapes.len() == 0 {
        Seq::empty()
    } else {
        scene_ops(shapes.drop_last()) + shape_ops(shapes.last())
    }
}

/// Whether an operation paints a stroke.
pub open spec fn is_stroke(op: Op) -> bool {
    match op {
        Op::StrokeRect { .. } | Op::Stroke | Op::StrokeText { .. } => true,
        _ => false,
    }
}

/// The number of stroke operations in `ops`.
pub open spec fn stroke_count(ops: Seq<Op>) -> nat
    decreases ops.len(),
{
    if ops.len() == 0 {
        0
    } else {
        stroke_count(ops.drop_last()) + if is_stroke(ops.last()) { 1nat } else { 0nat }
    }
}

fn emit(out: &mut Vec<Command>, c: Command)
    ensures
        ops_of(final(out)@) == ops_of(old(out)@).push(c@),
{
    out.push(c);
    assert(ops_of(final(out)@) =~= ops_of(old(out)@).push(c@));
}

/// Appends the commands that draw `p` to `out`.
fn push_ops(out: &mut Vec<Command>, p: &Primitive)
    ensures
        ops_of(final(out)@) == ops_of(old(out)@) + shape_ops(p@),
{
    let ghost start = ops_of(out@);
    match p {
        Primitive::Rect { x, y, w, h } => {
            emit(out, Command::StrokeRect { x: *x, y: *y, w: *w, h: *h });
        },
        Primitive::Circle { cx, cy, r, .. } => {
            emit(out, Command::BeginPath);
            emit(out, Command::Arc { cx: *cx, cy: *cy, r: *r });
            emit(out, Command::Stroke);
        },
        Primitive::Polyline { points, closed } => {
            emit(out, Command::BeginPath);
            let ghost before = ops_of(out@);
            let mut i: usize = 0;
            while i < points.len()
                invariant
                    0 <= i <= points@.len(),
                    ops_of(out@) =~= before + path_ops(points@).take(i as int),
                decreases points@.len() - i,
            {
                let pt = points[i];
                if i == 0 {
                    emit(out, Command::MoveTo { x: pt.x, y: pt.y });
                } else {
                    emit(out, Command::LineTo { x: pt.x, y: pt.y });
                }
                assert(path_ops(points@).take(i + 1) =~= path_ops(points@).take(i as int).push(
                    path_ops(points@)[i as int],
                ));
                i = i + 1;
            }
            assert(path_ops(points@).take(i as int) =~= path_ops(points@));
            if *closed {
                emit(out, Command::ClosePath);
            }
            emit(out, Command::Stroke);
        },
        Primitive::Text { x, y, content } => {
            emit(out, Command::StrokeText { x: *x, y: *y, content: content.clone() });
        },
    }
    assert(ops_of(out@) =~= start + shape_ops(p@));
}

/// A raster surface with a drawing context; it keeps no record of what it drew.
#[derive(Clone, Copy, Debug, PartialEq, Eq, Structural)]
pub struct RasterCanvas {
    pub width: u32,
    pub height: u32,
}

impl RasterCanvas {
    /// A canvas with the surface's fixed dimensions.
    pub fn acquire(surface: Surface) -> (r: RasterCanvas)
        ensures
            r.width == surface.width,
            r.height == surface.height,
    {
        RasterCanvas { width: surface.width, height: surface.height }
    }

    /// The commands that redraw the whole scene, in scene order.
    pub fn render_all(&self, scene: &Scene) -> (r: Vec<Command>)
        ensures
            ops_of(r@) == scene_ops(scene@),
    {
        let mut out: Vec<Command> = Vec::new();
        let mut i: usize = 0;
        while i < scene.prims.len()
            invariant
                0 <= i <= scene@.len(),
                ops_of(out@) == scene_ops(scene@.take(i as int)),
            decreases scene@.len() - i,
        {
            assert(scene@.take(i + 1).drop_last() =~= scene@.take(i as int));
            push_ops(&mut out, &scene.prims[i]);
            i = i + 1;
        }
        assert(scene@.take(i as int) =~= scene@);
        out
    }

    /// The commands that draw one primitive, leaving the rest of the surface alone.
    pub fn stroke_one(&self, p: &Primitive) -> (r: Vec<Command>)
        ensures
            ops_of(r@) == shape_ops(p@),
    {
        let mut out: Vec<Command> = Vec::new();
        push_ops(&mut out, p);
        assert(ops_of(Seq::<Command>::empty()) =~= Seq::<Op>::empty());
        assert(shape_ops(p@) =~= Seq::<Op>::empty() + shape_ops(p@));
        out
    }
}

/// The commands that draw the default scene: one rectangle, two full arcs and
/// one closed three-point path, each stroked once, in that order. There is no
/// fill among them.
pub open spec fn default_ops() -> Seq<Op> {
    seq![
        Op::StrokeRect { x: 100, y: 400, w: 400, h: 100 },
        Op::BeginPath,
        Op::Arc { cx: 300, cy: 300, r: 100 },
        Op::Stroke,
        Op::BeginPath,
        Op::Arc { cx: 300, cy: 120, r: 80 },
        Op::Stroke,
        Op::BeginPath,
        Op::MoveTo { x: 300, y: 130 },
        Op::LineTo { x: 240, y: 140 },
        Op::LineTo { x: 300, y: 150 },
        Op::ClosePath,
        Op::Stroke,
    ]
}

/// Rendering the default scene issues exactly the commands of `default_ops`,
/// four of which are strokes.
pub proof fn default_scene_commands()
    ensures
        scene_ops(default_shapes()) == default_ops(),
        stroke_count(default_ops()) == 4,
{
    let d = default_shapes();
    assert(path_ops(d[3]->points) =~= seq![
        Op::MoveTo { x: 300, y: 130 },
        Op::LineTo { x: 240, y: 140 },
        Op::LineTo { x: 300, y: 150 },
    ]);
    let e = Seq::<Shape>::empty();
    let s1 = e.push(d[0]);
    let s2 = s1.push(d[1]);
    let s3 = s2.push(d[2]);
    assert(s1.drop_last() =~= e);
    assert(s2.drop_last() =~= s1);
    assert(s3.drop_last() =~= s2);
    assert(d.drop_last() =~= s3);
    assert(scene_ops(e) =~= Seq::<Op>::empty());
    assert(scene_ops(s1) =~= seq![Op::StrokeRect { x: 100, y: 400, w: 400, h: 100 }]);
    assert(scene_ops(s2) == scene_ops(s1) + seq![Op::BeginPath, Op::Arc { cx: 300, cy: 300, r: 100 }, Op::Stroke]);
    assert(scene_ops(s3) == scene_ops(s2) + seq![Op::BeginPath, Op::Arc { cx: 300, cy: 120, r: 80 }, Op::Stroke]);
    assert(shape_ops(d[3]) =~= seq![
        Op::BeginPath,
        Op::MoveTo { x: 300, y: 130 },
        Op::LineTo { x: 240, y: 140 },
        Op::LineTo { x: 300, y: 150 },
        Op::ClosePath,
        Op::Stroke,
    ]);
    assert(scene_ops(d) =~= default_ops());
    reveal_with_fuel(stroke_count, 14);
}

} // verus!
