//! Primitives, scenes, surfaces, and the fixed default scene.

use vstd::prelude::*;
use vstd::string::*;

verus! {

/// A point in surface pixel space.
#[derive(Clone, Copy, Debug, PartialEq, Eq, Structural)]
pub struct Point {
    pub x: i64,
    pub y: i64,
}

/// One drawable shape. Stroking is the default paint; `fill` is opt-in.
#[derive(Debug)]
pub enum Primitive {
    Rect { x: i64, y: i64, w: i64, h: i64 },
    Circle { cx: i64, cy: i64, r: i64, fill: Option<String> },
    Polyline { points: Vec<Point>, closed: bool },
    Text { x: i64, y: i64, content: String },
}

/// The mathematical model of a `Primitive`.
pub ghost enum Shape {
    Rect { x: i64, y: i64, w: i64, h: i64 },
    Circle { cx: i64, cy: i64, r: i64, fill: Option<Seq<char>> },
    Polyline { points: Seq<Point>, closed: bool },
    Text { x: i64, y: i64, content: Seq<char> },
}

pub open spec fn fill_view(f: Option<String>) -> Option<Seq<char>> {
    match f {
        Some(s) => Some(s@),
        None => None,
    }
}

impl View for Primitive {
    type V = Shape;

    open spec fn view(&self) -> Shape {
        match self {
            Primitive::Rect { x, y, w, h } => Shape::Rect { x: *x, y: *y, w: *w, h: *h },
            Primitive::Circle { cx, cy, r, fill } => Shape::Circle {
                cx: *cx,
                cy: *cy,
                r: *r,
                fill: fill_view(*fill),
            },
            Primitive::Polyline { points, closed } => Shape::Polyline {
                points: points@,
                closed: *closed,
            },
            Primitive::Text { x, y, content } => Shape::Text { x: *x, y: *y, content: content@ },
        }
    }
}

/// A shape is well formed when a circle has a positive radius.
pub open spec fn shape_wf(s: Shape) -> bool {
    match s {
        Shape::Circle { r, .. } => r > 0,
        _ => true,
    }
}

/// An ordered, append-only list of primitives; later entries are drawn on top.
#[derive(Debug)]
pub struct Scene {
    pub prims: Vec<Primitive>,
}

impl View for Scene {
    type V = Seq<Shape>;

    open spec fn view(&self) -> Seq<Shape> {
        self.prims@.map_values(|p: Primitive| p@)
    }
}

impl Scene {
    /// An empty scene.
    pub fn new() -> (r: Scene)
        ensures
            r@ == Seq::<Shape>::empty(),
    {
        let r = Scene { prims: Vec::new() };
        assert(r@ =~= Seq::<Shape>::empty());
        r
    }

    /// Number of primitives in the scene.
    pub fn len(&self) -> (r: usize)
        ensures
            r == self@.len(),
    {
        self.prims.len()
    }

    /// Appends `p` on top of the scene.
    pub fn push(&mut self, p: Primitive)
        ensures
            final(self)@ == old(self)@.push(p@),
    {
        self.prims.push(p);
        assert(final(self)@ =~= old(self)@.push(p@));
    }
}

/// The two kinds of drawing surface.
#[derive(Clone, Copy, Debug, PartialEq, Eq, Structural)]
pub enum SurfaceKind {
    Raster,
    Vector,
}

/// A drawing surface: identity, kind and fixed pixel dimensions.
#[derive(Clone, Copy, Debug, PartialEq, Eq, Structural)]
pub struct Surface {
    pub id: u32,
    pub kind: SurfaceKind,
    pub width: u32,
    pub height: u32,
}

/// A pointer-down at coordinates local to the surface `surface_id`.
#[derive(Clone, Copy, Debug, PartialEq, Eq, Structural)]
pub struct PointerEvent {
    pub x: i32,
    pub y: i32,
    pub surface_id: u32,
}

/// The default scene: a foundation rectangle, two body circles and a closed
/// triangular bow, all stroked and unfilled.
pub open spec fn default_shapes() -> Seq<Shape> {
    seq![
        Shape::Rect { x: 100, y: 400, w: 400, h: 100 },
        Shape::Circle { cx: 300, cy: 300, r: 100, fill: None },
        Shape::Circle { cx: 300, cy: 120, r: 80, fill: None },
        Shape::Polyline {
            points: seq![
                Point { x: 300, y: 130 },
                Point { x: 240, y: 140 },
                Point { x: 300, y: 150 },
            ],
            closed: true,
        },
    ]
}

/// Builds the default scene.
pub fn default_scene() -> (r: Scene)
    ensures
        r@ == default_shapes(),
{
    let mut s = Scene::new();
    s.push(Primitive::Rect { x: 100, y: 400, w: 400, h: 100 });
    s.push(Primitive::Circle { cx: 300, cy: 300, r: 100, fill: None });
    s.push(Primitive::Circle { cx: 300, cy: 120, r: 80, fill: None });
    let mut points: Vec<Point> = Vec::new();
    points.push(Point { x: 300, y: 130 });
    points.push(Point { x: 240, y: 140 });
    points.push(Point { x: 300, y: 150 });
    assert(points@ =~= seq![
        Point { x: 300, y: 130 },
        Point { x: 240, y: 140 },
        Point { x: 300, y: 150 },
    ]);
    s.push(Primitive::Polyline { points, closed: true });
    assert(s@ =~= default_shapes());
    s
}

/// The default scene is deterministic: any two scenes it builds are identical
/// shape for shape, in the same order.
pub proof fn default_scene_deterministic(a: Scene, b: Scene)
    requires
        a@ == default_shapes(),
        b@ == default_shapes(),
    ensures
        a@ == b@,
        a@.len() == 4,
        forall|i: int| 0 <= i < a@.len() ==> a@[i] == b@[i] && shape_wf(#[trigger] a@[i]),
{
}

} // verus!
