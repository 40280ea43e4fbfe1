//! Retained-mode rendering: a scene becomes a tree of vector nodes under one
//! document root, which later shapes extend one node at a time.

use vstd::prelude::*;
use vstd::string::*;
use crate::decimal::{int_text, int_to_text, push_int};
use crate::shape::{Point, Primitive, Scene, Shape, Surface};

verus! {

/// The element kind of a vector node.
#[derive(Clone, Copy, Debug, PartialEq, Eq, Structural)]
pub enum Tag {
    Root,
    Circle,
    Rect,
    Polyline,
    Polygon,
    Text,
}

/// The element name of each tag.
pub open spec fn tag_text(t: Tag) -> Seq<char> {
    match t {
        Tag::Root => seq!['s', 'v', 'g'],
        Tag::Circle => seq!['c', 'i', 'r', 'c', 'l', 'e'],
        Tag::Rect => seq!['r', 'e', 'c', 't'],
        Tag::Polyline => seq!['p', 'o', 'l', 'y', 'l', 'i', 'n', 'e'],
        Tag::Polygon => seq!['p', 'o', 'l', 'y', 'g', 'o', 'n'],
        Tag::Text => seq!['t', 'e', 'x', 't'],
    }
}

impl Tag {
    /// The element name, as written in the document.
    pub fn name(&self) -> (r: &'static str)
        ensures
            r@ == tag_text(*self),
    {
        proof {
            reveal_strlit("svg");
            reveal_strlit("circle");
            reveal_strlit("rect");
            reveal_strlit("polyline");
            reveal_strlit("polygon");
            reveal_strlit("text");
        }
        match self {
            Tag::Root => "svg",
            Tag::Circle => "circle",
            Tag::Rect => "rect",
            Tag::Polyline => "polyline",
            Tag::Polygon => "polygon",
            Tag::Text => "text",
        }
    }
}

/// The namespace of every node of the document.
pub open spec fn namespace_text() -> Seq<char> {
    seq![
        'h', 't', 't', 'p', ':', '/', '/', 'w', 'w', 'w', '.', 'w', '3', '.', 'o', 'r', 'g', '/',
        '2', '0', '0', '0', '/', 's', 'v', 'g',
    ]
}

/// The vector-graphics namespace.
pub fn namespace() -> (r: &'static str)
    ensures
        r@ == namespace_text(),
{
    proof {
        reveal_strlit("http://www.w3.org/2000/svg");
    }
    "http://www.w3.org/2000/svg"
}

/// The attributes a node may carry.
#[derive(Clone, Copy, Debug, PartialEq, Eq, Structural)]
pub enum AttrName {
    Width,
    Height,
    R,
    Cx,
    Cy,
    X,
    Y,
    Points,
    Fill,
}

/// The attribute name of each `AttrName`.
pub open spec fn attr_text(a: AttrName) -> Seq<char> {
    match a {
        AttrName::Width => seq!['w', 'i', 'd', 't', 'h'],
        AttrName::Height => seq!['h', 'e', 'i', 'g', 'h', 't'],
        AttrName::R => seq!['r'],
        AttrName::Cx => seq!['c', 'x'],
        AttrName::Cy => seq!['c', 'y'],
        AttrName::X => seq!['x'],
        AttrName::Y => seq!['y'],
        AttrName::Points => seq!['p', 'o', 'i', 'n', 't', 's'],
        AttrName::Fill => seq!['f', 'i', 'l', 'l'],
    }
}

impl AttrName {
    /// The attribute name, as written in the document.
    pub fn name(&self) -> (r: &'static str)
        ensures
            r@ == attr_text(*self),
    {
        proof {
            reveal_strlit("width");
            reveal_strlit("height");
            reveal_strlit("r");
            reveal_strlit("cx");
            reveal_strlit("cy");
            reveal_strlit("x");
            reveal_strlit("y");
            reveal_strlit("points");
            reveal_strlit("fill");
        }
        match self {
            AttrName::Width => "width",
            AttrName::Height => "height",
            AttrName::R => "r",
            AttrName::Cx => "cx",
            AttrName::Cy => "cy",
            AttrName::X => "x",
            AttrName::Y => "y",
            AttrName::Points => "points",
            AttrName::Fill => "fill",
        }
    }
}

/// One attribute: a name and its text value.
#[derive(Debug)]
pub struct Attr {
    pub name: AttrName,
    pub value: String,
}

impl View for Attr {
    type V = (AttrName, Seq<char>);

    open spec fn view(&self) -> (AttrName, Seq<char>) {
        (self.name, self.value@)
    }
}

/// One shape node of the document.
#[derive(Debug)]
pub struct Node {
    pub tag: Tag,
    pub attrs: Vec<Attr>,
    pub text: Option<String>,
}

/// The mathematical model of a `Node`.
pub ghost struct NodeView {
    pub tag: Tag,
    pub attrs: Seq<(AttrName, Seq<char>)>,
    pub text: Option<Seq<char>>,
}

impl View for Node {
    type V = NodeView;

    open spec fn view(&self) -> NodeView {
        NodeView {
            tag: self.tag,
            attrs: self.attrs@.map_values(|a: Attr| a@),
            text: match self.text {
                Some(t) => Some(t@),
                None => None,
            },
        }
    }
}

/// The fill value of an unfilled shape.
pub open spec fn no_fill() -> Seq<char> {
    seq!['n', 'o', 'n', 'e']
}

/// `x,y` for one point.
pub open spec fn point_text(p: Point) -> Seq<char> {
    int_text(p.x as int) + seq![','] + int_text(p.y as int)
}

/// The points of a polyline, each as `x,y`, separated by single spaces.
pub open spec fn points_text(points: Seq<Point>) -> Seq<char>
    decreases points.len(),
{
    if points.len() == 0 {
        Seq::empty()
    } else if points.len() == 1 {
        point_text(points[0])
    } else {
        points_text(points.drop_last()) + seq![' '] + point_text(points.last())
    }
}

/// The node that stands for a shape: every field becomes an attribute.
pub open spec fn node_of(s: Shape) -> NodeView {
    match s {
        Shape::Circle { cx, cy, r, fill } => NodeView {
            tag: Tag::Circle,
            attrs: seq![
                (AttrName::R, int_text(r as int)),
                (AttrName::Cx, int_text(cx as int)),
                (AttrName::Cy, int_text(cy as int)),
                (AttrName::Fill, match fill {
                    Some(f) => f,
                    None => no_fill(),
                }),
            ],
            text: None,
        },
        Shape::Rect { x, y, w, h } => NodeView {
            tag: Tag::Rect,
            attrs: seq![
                (AttrName::X, int_text(x as int)),
                (AttrName::Y, int_text(y as int)),
                (AttrName::Width, int_text(w as int)),
                (AttrName::Height, int_text(h as int)),
                (AttrName::Fill, no_fill()),
            ],
            text: None,
        },
        Shape::Polyline { points, closed } => NodeView {
            tag: if closed { Tag::Polygon } else { Tag::Polyline },
            attrs: seq![(AttrName::Points, points_text(points)), (AttrName::Fill, no_fill())],
            text: None,
        },
        Shape::Text { x, y, content } => NodeView {
            tag: Tag::Text,
            attrs: seq![(AttrName::X, int_text(x as int)), (AttrName::Y, int_text(y as int))],
            text: Some(content),
        },
    }
}

/// The nodes of a list of shapes, one each, in order.
pub open spec fn nodes_of(shapes: Seq<Shape>) -> Seq<NodeView> {
    shapes.map_values(|s: Shape| node_of(s))
}

fn text_of(s: &str) -> (r: String)
    ensures
        r@ == s@,
{
    String::from_str(s)
}

fn none_text() -> (r: String)
    ensures
        r@ == no_fill(),
{
    proof {
        reveal_strlit("none");
    }
    text_of("none")
}

fn points_to_text(points: &Vec<Point>) -> (r: String)
    ensures
        r@ == points_text(points@),
{
    let mut s = String::new();
    let mut i: usize = 0;
    while i < points.len()
        invariant
            0 <= i <= points@.len(),
            s@ == points_text(points@.take(i as int)),
        decreases points@.len() - i,
    {
        let p = points[i];
        let ghost prev = s@;
        proof {
            reveal_strlit(" ");
            reveal_strlit(",");
        }
        if i > 0 {
            s.append(" ");
        }
        push_int(&mut s, p.x);
        s.append(",");
        push_int(&mut s, p.y);
        proof {
            let t = points@.take(i + 1);
            assert(t.drop_last() =~= points@.take(i as int));
            assert(t.last() == p);
            if i == 0 {
                assert(prev =~= Seq::<char>::empty());
            }
            assert(s@ =~= points_text(t));
        }
        i = i + 1;
    }
    assert(points@.take(i as int) =~= points@);
    s
}

fn attr(name: AttrName, value: String) -> (r: Attr)
    ensures
        r@ == (name, value@),
{
    Attr { name, value }
}

/// Builds the node that stands for `p`.
pub fn node_for(p: &Primitive) -> (r: Node)
    ensures
        r@ == node_of(p@),
{
    let mut attrs: Vec<Attr> = Vec::new();
    let tag;
    let mut text: Option<String> = None;
    match p {
        Primitive::Circle { cx, cy, r, fill } => {
            tag = Tag::Circle;
            attrs.push(attr(AttrName::R, int_to_text(*r)));
            attrs.push(attr(AttrName::Cx, int_to_text(*cx)));
            attrs.push(attr(AttrName::Cy, int_to_text(*cy)));
            let f = match fill {
                Some(f) => f.clone(),
                None => none_text(),
            };
            attrs.push(attr(AttrName::Fill, f));
        },
        Primitive::Rect { x, y, w, h } => {
            tag = Tag::Rect;
            attrs.push(attr(AttrName::X, int_to_text(*x)));
            attrs.push(attr(AttrName::Y, int_to_text(*y)));
            attrs.push(attr(AttrName::Width, int_to_text(*w)));
            attrs.push(attr(AttrName::Height, int_to_text(*h)));
            attrs.push(attr(AttrName::Fill, none_text()));
        },
        Primitive::Polyline { points, closed } => {
            tag = if *closed { Tag::Polygon } else { Tag::Polyline };
            attrs.push(attr(AttrName::Points, points_to_text(points)));
            attrs.push(attr(AttrName::Fill, none_text()));
        },
        Primitive::Text { x, y, content } => {
            tag = Tag::Text;
            attrs.push(attr(AttrName::X, int_to_text(*x)));
            attrs.push(attr(AttrName::Y, int_to_text(*y)));
            text = Some(content.clone());
        },
    }
    let r = Node { tag, attrs, text };
    assert(r@.attrs =~= node_of(p@).attrs);
    r
}

/// A vector document: a root with fixed dimensions and its shape nodes in
/// paint order, the last on top.
#[derive(Debug)]
pub struct VectorDoc {
    pub width: u32,
    pub height: u32,
    pub nodes: Vec<Node>,
}

/// The mathematical model of a `VectorDoc`.
pub ghost struct DocView {
    pub width: u32,
    pub height: u32,
    pub nodes: Seq<NodeView>,
}

impl View for VectorDoc {
    type V = DocView;

    open spec fn view(&self) -> DocView {
        DocView {
            width: self.width,
            height: self.height,
            nodes: self.nodes@.map_values(|n: Node| n@),
        }
    }
}

impl VectorDoc {
    /// A document root with the surface's dimensions and no shape nodes.
    pub fn mount(surface: Surface) -> (r: VectorDoc)
        ensures
            r@.width == surface.width,
            r@.height == surface.height,
            r@.nodes == Seq::<NodeView>::empty(),
    {
        let r = VectorDoc { width: surface.width, height: surface.height, nodes: Vec::new() };
        assert(r@.nodes =~= Seq::<NodeView>::empty());
        r
    }

    /// The root's attributes: its width and height in decimal.
    pub fn root_attrs(&self) -> (r: Vec<Attr>)
        ensures
            r@.map_values(|a: Attr| a@) == seq![
                (AttrName::Width, int_text(self.width as int)),
                (AttrName::Height, int_text(self.height as int)),
            ],
    {
        let mut r: Vec<Attr> = Vec::new();
        r.push(attr(AttrName::Width, int_to_text(self.width as i64)));
        r.push(attr(AttrName::Height, int_to_text(self.height as i64)));
        assert(r@.map_values(|a: Attr| a@) =~= seq![
            (AttrName::Width, int_text(self.width as int)),
            (AttrName::Height, int_text(self.height as int)),
        ]);
        r
    }

    /// Adds the node for `p` as the last child, leaving the others untouched.
    /// Returns the new node's position.
    pub fn append(&mut self, p: &Primitive) -> (r: usize)
        ensures
            final(self)@.width == old(self)@.width,
            final(self)@.height == old(self)@.height,
            final(self)@.nodes == old(self)@.nodes.push(node_of(p@)),
            r == old(self)@.nodes.len(),
    {
        let r = self.nodes.len();
        self.nodes.push(node_for(p));
        assert(final(self)@.nodes =~= old(self)@.nodes.push(node_of(p@)));
        r
    }

    /// Adds one node per primitive of the scene, in scene order.
    pub fn render_all(&mut self, scene: &Scene)
        ensures
            final(self)@.width == old(self)@.width,
            final(self)@.height == old(self)@.height,
            final(self)@.nodes == old(self)@.nodes + nodes_of(scene@),
    {
        let mut i: usize = 0;
        while i < scene.prims.len()
            invariant
                0 <= i <= scene@.len(),
                self@.width == old(self)@.width,
                self@.height == old(self)@.height,
                self@.nodes == old(self)@.nodes + nodes_of(scene@.take(i as int)),
            decreases scene@.len() - i,
        {
            self.append(&scene.prims[i]);
            assert(nodes_of(scene@.take(i + 1)) =~= nodes_of(scene@.take(i as int)).push(
                node_of(scene@[i as int]),
            ));
            assert(self@.nodes =~= old(self)@.nodes + nodes_of(scene@.take(i + 1)));
            i = i + 1;
        }
        assert(scene@.take(i as int) =~= scene@);
    }
}

/// The nodes after appending each of `added`, in order, to `nodes`.
pub open spec fn appended(nodes: Seq<NodeView>, added: Seq<Shape>) -> Seq<NodeView>
    decreases added.len(),
{
    if added.len() == 0 {
        nodes
    } else {
        appended(nodes, added.drop_last()).push(node_of(added.last()))
    }
}

/// Appending shapes one by one to a rendered base scene keeps the base nodes
/// first and adds exactly one node per shape, in append order.
pub proof fn appends_follow_base(base: Seq<Shape>, added: Seq<Shape>)
    ensures
        appended(nodes_of(base), added) == nodes_of(base) + nodes_of(added),
        appended(nodes_of(base), added).len() == base.len() + added.len(),
    decreases added.len(),
{
    if added.len() > 0 {
        appends_follow_base(base, added.drop_last());
        assert(nodes_of(added) =~= nodes_of(added.drop_last()).push(node_of(added.last())));
        assert(appended(nodes_of(base), added) =~= nodes_of(base) + nodes_of(added));
    } else {
        assert(nodes_of(base) + nodes_of(added) =~= nodes_of(base));
    }
}

} // verus!
