use snowscene::annotate::{Annotator, Effect, Target};
use snowscene::decimal::int_to_text;
use snowscene::raster::{Command, RasterCanvas};
use snowscene::shape::{default_scene, Point, PointerEvent, Primitive, Scene, Surface, SurfaceKind};
use snowscene::vector::{node_for, namespace, AttrName, Node, Tag, VectorDoc};

fn surface(id: u32, kind: SurfaceKind, size: u32) -> Surface {
    Surface { id, kind, width: size, height: size }
}

fn attrs(node: &Node) -> Vec<(String, String)> {
    node.attrs.iter().map(|a| (a.name.name().to_string(), a.value.clone())).collect()
}

fn pairs(items: &[(&str, &str)]) -> Vec<(String, String)> {
    items.iter().map(|(n, v)| (n.to_string(), v.to_string())).collect()
}

fn doc(a: &Annotator) -> &VectorDoc {
    match &a.target {
        Target::Vector { doc } => doc,
        Target::Raster { .. } => panic!("not a vector target"),
    }
}

fn is_stroke(c: &Command) -> bool {
    matches!(c, Command::StrokeRect { .. } | Command::Stroke | Command::StrokeText { .. })
}

#[test]
fn default_scene_is_deterministic() {
    let a = default_scene();
    let b = default_scene();
    assert_eq!(format!("{:?}", a), format!("{:?}", b));
    assert_eq!(a.len(), 4);
    assert!(matches!(a.prims[0], Primitive::Rect { x: 100, y: 400, w: 400, h: 100 }));
    assert!(matches!(a.prims[1], Primitive::Circle { cx: 300, cy: 300, r: 100, fill: None }));
    assert!(matches!(a.prims[2], Primitive::Circle { cx: 300, cy: 120, r: 80, fill: None }));
    match &a.prims[3] {
        Primitive::Polyline { points, closed } => {
            assert!(*closed);
            assert_eq!(
                points,
                &vec![Point { x: 300, y: 130 }, Point { x: 240, y: 140 }, Point { x: 300, y: 150 }]
            );
        }
        other => panic!("unexpected {:?}", other),
    }
}

#[test]
fn default_raster_render_issues_four_strokes_in_order() {
    let (_a, cmds) = Annotator::bind_default(surface(1, SurfaceKind::Raster, 600));
    let expected = "[StrokeRect { x: 100, y: 400, w: 400, h: 100 }, BeginPath, \
        Arc { cx: 300, cy: 300, r: 100 }, Stroke, BeginPath, Arc { cx: 300, cy: 120, r: 80 }, \
        Stroke, BeginPath, MoveTo { x: 300, y: 130 }, LineTo { x: 240, y: 140 }, \
        LineTo { x: 300, y: 150 }, ClosePath, Stroke]";
    assert_eq!(format!("{:?}", cmds), expected);
    assert_eq!(cmds.iter().filter(|c| is_stroke(c)).count(), 4);
}

#[test]
fn vector_pointer_down_appends_blue_circle() {
    let (mut a, cmds) = Annotator::bind_default(surface(2, SurfaceKind::Vector, 600));
    assert!(cmds.is_empty());
    let e = a.pointer_down(PointerEvent { x: 37, y: 58, surface_id: 2 });
    assert!(matches!(e, Effect::AppendNode(4)));
    match &a.scene.prims[4] {
        Primitive::Circle { cx: 37, cy: 58, r: 10, fill: Some(f) } => assert_eq!(f, "blue"),
        other => panic!("unexpected {:?}", other),
    }
    let node = &doc(&a).nodes[4];
    assert_eq!(node.tag, Tag::Circle);
    assert_eq!(attrs(node), pairs(&[("r", "10"), ("cx", "37"), ("cy", "58"), ("fill", "blue")]));
}

#[test]
fn raster_pointer_down_strokes_square() {
    let (mut a, _) = Annotator::bind_default(surface(3, SurfaceKind::Raster, 600));
    let e = a.pointer_down(PointerEvent { x: 50, y: 70, surface_id: 3 });
    match e {
        Effect::Draw(cmds) => {
            assert_eq!(format!("{:?}", cmds), "[StrokeRect { x: 45, y: 65, w: 10, h: 10 }]")
        }
        other => panic!("unexpected {:?}", other),
    }
    assert_eq!(a.scene.len(), 5);
    assert!(matches!(a.scene.prims[4], Primitive::Rect { x: 45, y: 65, w: 10, h: 10 }));
}

#[test]
fn raster_pointer_down_near_origin_goes_negative() {
    let (mut a, _) = Annotator::bind_default(surface(3, SurfaceKind::Raster, 600));
    let e = a.pointer_down(PointerEvent { x: 2, y: 0, surface_id: 3 });
    assert_eq!(format!("{:?}", e), "Draw([StrokeRect { x: -3, y: -5, w: 10, h: 10 }])");
}

#[test]
fn pointer_down_on_other_surface_is_ignored() {
    let (mut a, _) = Annotator::bind_default(surface(4, SurfaceKind::Vector, 600));
    let e = a.pointer_down(PointerEvent { x: 1, y: 1, surface_id: 9 });
    assert!(matches!(e, Effect::Ignore));
    assert_eq!(a.scene.len(), 4);
    assert_eq!(doc(&a).nodes.len(), 4);
}

#[test]
fn resizing_changes_only_bounds() {
    let (small, _) = Annotator::bind_default(surface(5, SurfaceKind::Vector, 600));
    let (large, _) = Annotator::bind_default(surface(6, SurfaceKind::Vector, 1000));
    assert_eq!(format!("{:?}", doc(&small).nodes), format!("{:?}", doc(&large).nodes));
    let root: Vec<(String, String)> = doc(&large)
        .root_attrs()
        .iter()
        .map(|a| (a.name.name().to_string(), a.value.clone()))
        .collect();
    assert_eq!(root, pairs(&[("width", "1000"), ("height", "1000")]));
    let (_, c600) = Annotator::bind_default(surface(7, SurfaceKind::Raster, 600));
    let (_, c1000) = Annotator::bind_default(surface(8, SurfaceKind::Raster, 1000));
    assert_eq!(format!("{:?}", c600), format!("{:?}", c1000));
}

#[test]
fn two_vector_clicks_append_after_base_in_order() {
    let (mut a, _) = Annotator::bind_default(surface(1, SurfaceKind::Vector, 600));
    let e1 = a.pointer_down(PointerEvent { x: 10, y: 10, surface_id: 1 });
    let e2 = a.pointer_down(PointerEvent { x: 20, y: 20, surface_id: 1 });
    assert!(matches!(e1, Effect::AppendNode(4)));
    assert!(matches!(e2, Effect::AppendNode(5)));
    let nodes = &doc(&a).nodes;
    assert_eq!(nodes.len(), 6);
    assert_eq!(attrs(&nodes[4]), pairs(&[("r", "10"), ("cx", "10"), ("cy", "10"), ("fill", "blue")]));
    assert_eq!(attrs(&nodes[5]), pairs(&[("r", "10"), ("cx", "20"), ("cy", "20"), ("fill", "blue")]));
}

#[test]
fn appending_n_shapes_gives_base_plus_n_nodes() {
    let mut d = VectorDoc::mount(surface(1, SurfaceKind::Vector, 600));
    d.render_all(&default_scene());
    let base = format!("{:?}", d.nodes);
    for i in 0..7i64 {
        let at = d.append(&Primitive::Text { x: i, y: i, content: format!("n{}", i) });
        assert_eq!(at, 4 + i as usize);
    }
    assert_eq!(d.nodes.len(), 4 + 7);
    assert_eq!(format!("{:?}", &d.nodes[..4]), base);
    for i in 0..7usize {
        assert_eq!(d.nodes[4 + i].text.as_deref(), Some(format!("n{}", i).as_str()));
    }
}

#[test]
fn default_vector_nodes_carry_every_field() {
    let mut d = VectorDoc::mount(surface(1, SurfaceKind::Vector, 600));
    d.render_all(&default_scene());
    assert_eq!(d.nodes[0].tag, Tag::Rect);
    assert_eq!(
        attrs(&d.nodes[0]),
        pairs(&[("x", "100"), ("y", "400"), ("width", "400"), ("height", "100"), ("fill", "none")])
    );
    assert_eq!(attrs(&d.nodes[1]), pairs(&[("r", "100"), ("cx", "300"), ("cy", "300"), ("fill", "none")]));
    assert_eq!(d.nodes[3].tag, Tag::Polygon);
    assert_eq!(attrs(&d.nodes[3]), pairs(&[("points", "300,130 240,140 300,150"), ("fill", "none")]));
}

#[test]
fn open_polyline_and_text_nodes() {
    let line = node_for(&Primitive::Polyline { points: vec![Point { x: -1, y: 2 }], closed: false });
    assert_eq!(line.tag.name(), "polyline");
    assert_eq!(attrs(&line), pairs(&[("points", "-1,2"), ("fill", "none")]));
    let empty = node_for(&Primitive::Polyline { points: vec![], closed: true });
    assert_eq!(empty.tag.name(), "polygon");
    assert_eq!(attrs(&empty), pairs(&[("points", ""), ("fill", "none")]));
    let text = node_for(&Primitive::Text { x: 100, y: 100, content: "test".to_string() });
    assert_eq!(text.tag.name(), "text");
    assert_eq!(attrs(&text), pairs(&[("x", "100"), ("y", "100")]));
    assert_eq!(text.text.as_deref(), Some("test"));
    assert_eq!(namespace(), "http://www.w3.org/2000/svg");
    assert_eq!(AttrName::Height.name(), "height");
}

#[test]
fn raster_text_and_open_path_commands() {
    let canvas = RasterCanvas::acquire(surface(1, SurfaceKind::Raster, 600));
    let mut scene = Scene::new();
    scene.push(Primitive::Text { x: 1, y: 2, content: "hi".to_string() });
    scene.push(Primitive::Polyline { points: vec![Point { x: 0, y: 0 }, Point { x: 5, y: 6 }], closed: false });
    scene.push(Primitive::Circle { cx: 7, cy: 8, r: 9, fill: Some("red".to_string()) });
    let cmds = canvas.render_all(&scene);
    assert_eq!(
        format!("{:?}", cmds),
        "[StrokeText { x: 1, y: 2, content: \"hi\" }, BeginPath, MoveTo { x: 0, y: 0 }, \
         LineTo { x: 5, y: 6 }, Stroke, BeginPath, Arc { cx: 7, cy: 8, r: 9 }, Stroke]"
    );
}

#[test]
fn decimal_text_of_integers() {
    assert_eq!(int_to_text(0), "0");
    assert_eq!(int_to_text(7), "7");
    assert_eq!(int_to_text(-42), "-42");
    assert_eq!(int_to_text(1000), "1000");
    assert_eq!(int_to_text(i64::MAX), i64::MAX.to_string());
    assert_eq!(int_to_text(i64::MIN), i64::MIN.to_string());
}
