//! Pointer annotation: each pointer-down on a bound surface appends exactly one
//! shape to that surface's scene and draws only that shape.

use vstd::prelude::*;
use vstd::string::*;
use crate::raster::{Command, RasterCanvas, default_ops, default_scene_commands, ops_of, scene_ops, shape_ops};
use crate::shape::{
    Primitive, PointerEvent, Scene, Shape, Surface, SurfaceKind, default_scene, default_shapes,
};
use crate::vector::{DocView, VectorDoc, node_of, nodes_of};

verus! {

/// The fill of a vector mark.
pub open spec fn blue() -> Seq<char> {
    seq!['b', 'l', 'u', 'e']
}

/// The shape a pointer-down at `(ev.x, ev.y)` adds to a vector surface: a blue
/// circle of radius 10 centred on the pointer.
pub open spec fn vector_mark(ev: PointerEvent) -> Shape {
    Shape::Circle { cx: ev.x as i64, cy: ev.y as i64, r: 10, fill: Some(blue()) }
}

/// The shape a pointer-down at `(ev.x, ev.y)` adds to a raster surface: a 10×10
/// square centred on the pointer.
pub open spec fn raster_mark(ev: PointerEvent) -> Shape {
    Shape::Rect { x: (ev.x - 5) as i64, y: (ev.y - 5) as i64, w: 10, h: 10 }
}

/// Builds the vector mark for `ev`.
pub fn vector_mark_for(ev: PointerEvent) -> (r: Primitive)
    ensures
        r@ == vector_mark(ev),
{
    proof {
        reveal_strlit("blue");
    }
    let fill = String::from_str("blue");
    assert(fill@ =~= blue());
    Primitive::Circle { cx: ev.x as i64, cy: ev.y as i64, r: 10, fill: Some(fill) }
}

/// Builds the raster mark for `ev`.
pub fn raster_mark_for(ev: PointerEvent) -> (r: Primitive)
    ensures
        r@ == raster_mark(ev),
{
    Primitive::Rect { x: ev.x as i64 - 5, y: ev.y as i64 - 5, w: 10, h: 10 }
}

/// The rendering side a surface is bound to.
#[derive(Debug)]
pub enum Target {
    Vector { doc: VectorDoc },
    Raster { canvas: RasterCanvas },
}

/// What the host does after a pointer-down.
#[derive(Debug)]
pub enum Effect {
    /// Nothing: the event was aimed at another surface.
    Ignore,
    /// Create the document node now at this position of the document's nodes.
    AppendNode(usize),
    /// Replay these commands on the raster surface.
    Draw(Vec<Command>),
}

/// The document a scene shows on a vector surface once rendered.
pub open spec fn vector_setup(surface: Surface, shapes: Seq<Shape>) -> DocView {
    DocView { width: surface.width, height: surface.height, nodes: nodes_of(shapes) }
}

/// A surface bound for annotation: the surface, the scene it owns, and the
/// renderer that shows the scene.
#[derive(Debug)]
pub struct Annotator {
    pub surface: Surface,
    pub scene: Scene,
    pub target: Target,
}

impl Annotator {
    /// The target matches the surface's kind and dimensions, and a vector
    /// document holds exactly one node per shape of the scene, in order.
    pub open spec fn wf(&self) -> bool {
        match self.target {
            Target::Vector { doc } => {
                &&& self.surface.kind == SurfaceKind::Vector
                &&& doc@ == vector_setup(self.surface, self.scene@)
            },
            Target::Raster { canvas } => {
                &&& self.surface.kind == SurfaceKind::Raster
                &&& canvas.width == self.surface.width
                &&& canvas.height == self.surface.height
            },
        }
    }

    /// The document of a vector-bound annotator.
    pub open spec fn doc_view(&self) -> DocView
        recommends
            self.target is Vector,
    {
        self.target->doc@
    }

    /// Binds `surface` to `scene` and renders the scene once. On a raster
    /// surface the returned commands draw the scene; on a vector surface the
    /// document already holds its nodes and no commands are returned.
    pub fn bind(surface: Surface, scene: Scene) -> (r: (Annotator, Vec<Command>))
        ensures
            r.0.wf(),
            r.0.surface == surface,
            r.0.scene@ == scene@,
            surface.kind == SurfaceKind::Vector ==> r.0.target is Vector && r.1@.len() == 0,
            surface.kind == SurfaceKind::Raster ==> r.0.target is Raster && ops_of(r.1@)
                == scene_ops(scene@),
    {
        match surface.kind {
            SurfaceKind::Vector => {
                let mut doc = VectorDoc::mount(surface);
                doc.render_all(&scene);
                assert(doc@.nodes =~= nodes_of(scene@));
                (Annotator { surface, scene, target: Target::Vector { doc } }, Vec::new())
            },
            SurfaceKind::Raster => {
                let canvas = RasterCanvas::acquire(surface);
                let cmds = canvas.render_all(&scene);
                (Annotator { surface, scene, target: Target::Raster { canvas } }, cmds)
            },
        }
    }

    /// Binds `surface` to the default scene and renders it once.
    pub fn bind_default(surface: Surface) -> (r: (Annotator, Vec<Command>))
        ensures
            r.0.wf(),
            r.0.surface == surface,
            r.0.scene@ == default_shapes(),
            surface.kind == SurfaceKind::Vector ==> r.0.target is Vector && r.1@.len() == 0,
            surface.kind == SurfaceKind::Raster ==> r.0.target is Raster && ops_of(r.1@)
                == scene_ops(default_shapes()),
    {
        Annotator::bind(surface, default_scene())
    }

    /// Handles one pointer-down. An event for this surface appends exactly one
    /// mark to the scene and yields what draws that mark alone; an event for
    /// another surface changes nothing.
    pub fn pointer_down(&mut self, ev: PointerEvent) -> (r: Effect)
        requires
            old(self).wf(),
        ensures
            final(self).wf(),
            final(self).surface == old(self).surface,
            ev.surface_id != old(self).surface.id ==> r is Ignore && final(self).scene@ == old(
                self,
            ).scene@,
            ev.surface_id == old(self).surface.id && old(self).surface.kind == SurfaceKind::Vector
                ==> {
                &&& final(self).scene@ == old(self).scene@.push(vector_mark(ev))
                &&& final(self).doc_view().nodes == old(self).doc_view().nodes.push(
                    node_of(vector_mark(ev)),
                )
                &&& r == Effect::AppendNode(old(self).scene@.len() as usize)
            },
            ev.surface_id == old(self).surface.id && old(self).surface.kind == SurfaceKind::Raster
                ==> {
                &&& final(self).scene@ == old(self).scene@.push(raster_mark(ev))
                &&& r matches Effect::Draw(cmds) && ops_of(cmds@) == shape_ops(raster_mark(ev))
            },
    {
        if ev.surface_id != self.surface.id {
            return Effect::Ignore;
        }
        match &mut self.target {
            Target::Vector { doc } => {
                let p = vector_mark_for(ev);
                let at = doc.append(&p);
                self.scene.push(p);
                assert(nodes_of(self.scene@) =~= nodes_of(old(self).scene@).push(
                    node_of(vector_mark(ev)),
                ));
                Effect::AppendNode(at)
            },
            Target::Raster { canvas } => {
                let p = raster_mark_for(ev);
                let cmds = canvas.stroke_one(&p);
                self.scene.push(p);
                Effect::Draw(cmds)
            },
        }
    }
}

/// Resizing a surface changes only its bounds. Two surfaces of one kind bound
/// to the default scene show the same shapes at the same absolute coordinates:
/// vector documents with the same nodes, each root sized as its own surface,
/// and raster surfaces drawn with the same commands.
pub proof fn resizing_changes_only_bounds(a: Annotator, b: Annotator)
    requires
        a.wf(),
        b.wf(),
        a.surface.kind == b.surface.kind,
        a.scene@ == default_shapes(),
        b.scene@ == default_shapes(),
    ensures
        a.surface.kind == SurfaceKind::Vector ==> {
            &&& a.doc_view().nodes == b.doc_view().nodes
            &&& a.doc_view().nodes == nodes_of(default_shapes())
            &&& a.doc_view().width == a.surface.width && a.doc_view().height == a.surface.height
            &&& b.doc_view().width == b.surface.width && b.doc_view().height == b.surface.height
        },
        scene_ops(a.scene@) == scene_ops(b.scene@),
        scene_ops(a.scene@) == default_ops(),
{
    default_scene_commands();
}

} // verus!
