use document_core::blend::BlendMode;
use document_core::document::Document;
use document_core::layers::{Ellipse, Folder, Layer, LayerData, LayerDataTypes, Line, PolyLine, Rect, Shape};
use document_core::markup::{push_decimal, push_hex_byte, push_thousandths};
use document_core::panel::LayerType;
use document_core::style::{Color, PathStyle, Stroke};
use document_core::DocumentError;
use glam::{DAffine2, DVec2};

fn plain() -> PathStyle {
    PathStyle::new(None, None)
}

fn rect_layer(x0: f64, y0: f64, x1: f64, y1: f64) -> Layer {
    Layer::new(LayerDataTypes::Rect(Rect::new(DVec2::new(x0, y0), DVec2::new(x1, y1))), DAffine2::IDENTITY, plain())
}

fn folder_layer() -> Layer {
    Layer::new(LayerDataTypes::Folder(Folder::new()), DAffine2::IDENTITY, plain())
}

fn quad(points: [(f64, f64); 4]) -> [DVec2; 4] {
    [
        DVec2::new(points[0].0, points[0].1),
        DVec2::new(points[1].0, points[1].1),
        DVec2::new(points[2].0, points[2].1),
        DVec2::new(points[3].0, points[3].1),
    ]
}

#[test]
fn blend_mode_keywords() {
    assert_eq!(BlendMode::Normal.to_svg_style_name(), "normal");
    assert_eq!(BlendMode::ColorBurn.to_svg_style_name(), "color-burn");
    assert_eq!(BlendMode::SoftLight.to_svg_style_name(), "soft-light");
    assert_eq!(BlendMode::Luminosity.to_svg_style_name(), "luminosity");
    assert_eq!(BlendMode::ColorDodge.to_svg_style_name(), "color-dodge");
}

#[test]
fn numerals() {
    let mut s = String::new();
    push_decimal(&mut s, 0);
    s.push(' ');
    push_decimal(&mut s, 4096);
    s.push(' ');
    push_thousandths(&mut s, 1000);
    s.push(' ');
    push_thousandths(&mut s, 500);
    s.push(' ');
    push_thousandths(&mut s, 125);
    s.push(' ');
    push_thousandths(&mut s, 2050);
    s.push(' ');
    push_hex_byte(&mut s, 0xaf);
    assert_eq!(s, "0 4096 1 0.5 0.125 2.05 af");
}

#[test]
fn style_attributes_text() {
    let style = PathStyle::new(Some(Stroke { color: Color::new(0, 0, 255, 255), width: 3 }), Some(Color::new(255, 0, 0, 128)));
    let mut s = String::new();
    style.render_on(&mut s);
    assert_eq!(s, " fill=\"#ff000080\" stroke=\"#0000ffff\" stroke-width=\"3\"");
    let mut t = String::new();
    plain().render_on(&mut t);
    assert_eq!(t, " fill=\"none\"");
}

#[test]
fn layer_type_names() {
    let rect = LayerDataTypes::Rect(Rect::new(DVec2::ZERO, DVec2::ONE));
    assert_eq!(LayerType::from(&rect), LayerType::Rect);
    assert_eq!(LayerType::from(&rect).name(), "Rectangle");
    let folder = LayerDataTypes::Folder(Folder::new());
    assert_eq!(LayerType::from(&folder), LayerType::Folder);
    let poly = LayerDataTypes::PolyLine(PolyLine::new(vec![DVec2::ZERO, DVec2::ONE]));
    assert_eq!(LayerType::from(&poly).name(), "Polyline");
    assert_eq!(LayerType::Circle.name(), "Circle");
}

#[test]
fn render_wraps_in_compositing_group() {
    let mut layer = rect_layer(0.0, 0.0, 10.0, 10.0);
    let out = layer.render().to_string();
    assert!(out.starts_with("<g style=\"mix-blend-mode: normal; opacity: 1\"><path d=\""));
    assert!(out.ends_with(" fill=\"none\" /></g>"));
    assert!(layer.thumbnail_cache.starts_with("<path d=\"M"));
    layer.set_opacity(500);
    layer.set_blend_mode(BlendMode::Multiply);
    let out = layer.render().to_string();
    assert!(out.starts_with("<g style=\"mix-blend-mode: multiply; opacity: 0.5\">"));
}

#[test]
fn render_twice_identical() {
    let mut layer = Layer::new(LayerDataTypes::Ellipse(Ellipse::new(DVec2::ZERO, DVec2::new(4.0, 2.0))), DAffine2::IDENTITY, plain());
    let first = layer.render().to_string();
    let cache = layer.cache.clone();
    assert!(!layer.cache_dirty);
    let second = layer.render().to_string();
    assert_eq!(first, second);
    assert_eq!(layer.cache, cache);
    assert!(!layer.cache_dirty);
}

#[test]
fn hidden_layer_excluded_but_cache_kept() {
    let mut layer = rect_layer(0.0, 0.0, 10.0, 10.0);
    let shown = layer.render().to_string();
    layer.visible = false;
    assert_eq!(layer.render(), "");
    assert_eq!(layer.cache, shown);
    let mut path = Vec::new();
    let mut hits = Vec::new();
    layer.intersects_quad(quad([(-5.0, -5.0), (20.0, -5.0), (20.0, 20.0), (-5.0, 20.0)]), &mut path, &mut hits);
    assert!(hits.is_empty());
    assert!(path.is_empty());
    layer.visible = true;
    assert!(!layer.cache_dirty);
    assert_eq!(layer.render(), shown);
}

#[test]
fn dirty_invalidation_round_trip() {
    let mut layer = rect_layer(0.0, 0.0, 1.0, 1.0);
    assert!(layer.cache_dirty);
    let before = layer.render().to_string();
    assert!(!layer.cache_dirty);
    layer.set_transform(DAffine2::from_translation(DVec2::new(7.0, 3.0)));
    assert!(layer.cache_dirty);
    let after = layer.render().to_string();
    assert!(!layer.cache_dirty);
    assert_ne!(before, after);
}

#[test]
fn folder_bounding_box_union() {
    let mut folder = Folder::new();
    folder.add_layer(rect_layer(0.0, 0.0, 1.0, 1.0));
    folder.add_layer(rect_layer(5.0, 5.0, 6.0, 6.0));
    let bb = folder.bounding_box(DAffine2::IDENTITY).unwrap();
    assert_eq!(bb, [DVec2::new(0.0, 0.0), DVec2::new(6.0, 6.0)]);
    assert!(Folder::new().bounding_box(DAffine2::IDENTITY).is_none());
    let empty = folder_layer();
    assert!(empty.current_bounding_box().is_none());
}

#[test]
fn bounding_box_follows_transforms() {
    let mut layer = folder_layer();
    layer.as_folder_mut().unwrap().add_layer(rect_layer(0.0, 0.0, 1.0, 1.0));
    let bb = layer.bounding_box(DAffine2::from_scale(DVec2::new(2.0, 3.0)), plain()).unwrap();
    assert_eq!(bb, [DVec2::new(0.0, 0.0), DVec2::new(2.0, 3.0)]);
    let mut hidden = rect_layer(10.0, 10.0, 20.0, 20.0);
    hidden.visible = false;
    layer.as_folder_mut().unwrap().add_layer(hidden);
    let bb = layer.current_bounding_box().unwrap();
    assert_eq!(bb, [DVec2::new(0.0, 0.0), DVec2::new(1.0, 1.0)]);
}

#[test]
fn path_resolution() {
    let mut doc = Document::new();
    {
        let root = doc.document_folder_mut(&[]).unwrap();
        root.next_assignment_id = 1;
        assert_eq!(root.add_layer(folder_layer()), 1);
    }
    {
        let a = doc.document_folder_mut(&[1]).unwrap();
        a.next_assignment_id = 2;
        assert_eq!(a.add_layer(rect_layer(0.0, 0.0, 1.0, 1.0)), 2);
    }
    assert_eq!(doc.document_folder_mut(&[1]).unwrap().layer_ids(), &vec![2]);
    assert_eq!(doc.document_folder_mut(&[1, 2]).err(), Some(DocumentError::NotAFolder));
    assert_eq!(doc.document_folder_mut(&[99]).err(), Some(DocumentError::LayerNotFound));
    assert_eq!(doc.folder(&[1]).unwrap().layers().len(), 1);
    assert_eq!(doc.folder(&[1, 2]).err(), Some(DocumentError::NotAFolder));
    assert_eq!(doc.folder(&[1, 2, 3]).err(), Some(DocumentError::NotAFolder));
    assert_eq!(doc.folder(&[99]).err(), Some(DocumentError::LayerNotFound));
}

#[test]
fn quad_hit_test_rect() {
    let layer = rect_layer(0.0, 0.0, 10.0, 10.0);
    let mut path = Vec::new();
    let mut hits = Vec::new();
    layer.intersects_quad(quad([(2.0, 2.0), (8.0, 2.0), (8.0, 8.0), (2.0, 8.0)]), &mut path, &mut hits);
    assert_eq!(hits, vec![Vec::<u64>::new()]);
    let mut hits = Vec::new();
    layer.intersects_quad(quad([(20.0, 20.0), (21.0, 20.0), (21.0, 21.0), (20.0, 21.0)]), &mut path, &mut hits);
    assert!(hits.is_empty());
    let mut hits = Vec::new();
    layer.intersects_quad(quad([(-1.0, -1.0), (11.0, -1.0), (11.0, 11.0), (-1.0, 11.0)]), &mut path, &mut hits);
    assert_eq!(hits.len(), 1);
    let mut hits = Vec::new();
    layer.intersects_quad(quad([(5.0, 5.0), (15.0, 5.0), (15.0, 15.0), (5.0, 15.0)]), &mut path, &mut hits);
    assert_eq!(hits.len(), 1);
}

#[test]
fn quad_hit_test_through_folders() {
    let mut doc = Document::new();
    let root = doc.document_folder_mut(&[]).unwrap();
    let mut moved = folder_layer();
    moved.set_transform(DAffine2::from_translation(DVec2::new(100.0, 0.0)));
    let fid = root.add_layer(moved);
    let lid = root.add_layer(Layer::new(LayerDataTypes::Line(Line::new(DVec2::ZERO, DVec2::new(10.0, 0.0))), DAffine2::IDENTITY, plain()));
    let inner = doc.document_folder_mut(&[fid]).unwrap();
    let sid = inner.add_layer(Layer::new(
        LayerDataTypes::Shape(Shape::new(vec![DVec2::ZERO, DVec2::new(4.0, 0.0), DVec2::new(0.0, 4.0)])),
        DAffine2::IDENTITY,
        plain(),
    ));
    let mut path = Vec::new();
    let mut hits = Vec::new();
    doc.root.intersects_quad(quad([(99.0, -1.0), (102.0, -1.0), (102.0, 2.0), (99.0, 2.0)]), &mut path, &mut hits);
    assert_eq!(hits, vec![vec![fid, sid]]);
    assert!(path.is_empty());
    let mut hits = Vec::new();
    doc.root.intersects_quad(quad([(4.0, -1.0), (6.0, -1.0), (6.0, 1.0), (4.0, 1.0)]), &mut path, &mut hits);
    assert_eq!(hits, vec![vec![lid]]);
}

#[test]
fn folder_render_composes_children() {
    let mut layer = folder_layer();
    let f = layer.as_folder_mut().unwrap();
    f.add_layer(rect_layer(0.0, 0.0, 1.0, 1.0));
    f.add_layer(Layer::new(LayerDataTypes::Line(Line::new(DVec2::ZERO, DVec2::ONE)), DAffine2::IDENTITY, plain()));
    let out = layer.render().to_string();
    assert!(out.starts_with("<g style=\"mix-blend-mode: normal; opacity: 1\"><g transform=\"matrix(1,0,0,1,0,0)\"><g style="));
    assert!(out.ends_with("</g></g></g>"));
    let f = layer.as_folder().unwrap();
    assert!(f.layers().iter().all(|l| !l.cache_dirty));
    let mut svg = String::new();
    let cache = layer.cache.clone();
    assert_eq!(layer.render_as_folder(&mut svg), Ok(()));
    assert!(svg.starts_with("<g transform=\"matrix(1,0,0,1,0,0)\">"));
    assert_eq!(layer.cache, cache);
    let mut rect = rect_layer(0.0, 0.0, 1.0, 1.0);
    let mut none = String::from("x");
    assert_eq!(rect.render_as_folder(&mut none), Err(DocumentError::NotAFolder));
    assert_eq!(none, "x");
    assert_eq!(rect.as_folder().err(), Some(DocumentError::NotAFolder));
}

#[test]
fn render_on_appends() {
    let mut layer = rect_layer(0.0, 0.0, 1.0, 1.0);
    let mut svg = String::from("<svg>");
    layer.render_on(&mut svg);
    assert_eq!(svg, format!("<svg>{}", layer.cache));
}

#[test]
fn remove_layer_keeps_ids_aligned() {
    let mut folder = Folder::new();
    let a = folder.add_layer(rect_layer(0.0, 0.0, 1.0, 1.0));
    let b = folder.add_layer(folder_layer());
    assert_eq!(folder.remove_layer(a), Ok(()));
    assert_eq!(folder.layer_ids(), &vec![b]);
    assert_eq!(folder.layers().len(), 1);
    assert_eq!(folder.remove_layer(a), Err(DocumentError::LayerNotFound));
    assert_eq!(folder.position_of_layer(b), Some(0));
    assert!(folder.layer(b).is_some());
    assert!(folder.layer(a).is_none());
}

#[test]
fn primitive_markup_through_trait() {
    let mut r = Rect::new(DVec2::ZERO, DVec2::new(10.0, 10.0));
    let mut svg = String::from("<svg>");
    LayerData::render(&mut r, &mut svg, DAffine2::IDENTITY, plain());
    assert!(svg.starts_with("<svg><path d=\"M"));
    assert!(svg.ends_with(" fill=\"none\" />"));
    let mut path = vec![7];
    let mut hits = Vec::new();
    LayerData::intersects_quad(&r, quad([(2.0, 2.0), (8.0, 2.0), (8.0, 8.0), (2.0, 8.0)]), &mut path, &mut hits, plain());
    assert_eq!(hits, vec![vec![7]]);
    assert_eq!(path, vec![7]);
}

#[test]
fn payload_bounding_boxes() {
    let ellipse = LayerDataTypes::Ellipse(Ellipse::new(DVec2::ZERO, DVec2::new(4.0, 2.0)));
    let [lo, hi] = ellipse.bounding_box(DAffine2::from_translation(DVec2::new(1.0, 1.0)), plain());
    assert!((lo - DVec2::new(1.0, 1.0)).length() < 1e-6);
    assert!((hi - DVec2::new(5.0, 3.0)).length() < 1e-6);
    let poly = LayerDataTypes::PolyLine(PolyLine::new(vec![DVec2::new(1.0, 5.0), DVec2::new(3.0, -2.0), DVec2::new(-4.0, 0.0)]));
    assert_eq!(poly.bounding_box(DAffine2::IDENTITY, plain()), [DVec2::new(-4.0, -2.0), DVec2::new(3.0, 5.0)]);
}

#[test]
fn polyline_is_open_and_shape_is_closed() {
    let pts = vec![DVec2::ZERO, DVec2::new(10.0, 0.0), DVec2::new(10.0, 10.0)];
    let inside = quad([(7.0, 2.0), (8.0, 2.0), (8.0, 3.0), (7.0, 3.0)]);
    let open = Layer::new(LayerDataTypes::PolyLine(PolyLine::new(pts.clone())), DAffine2::IDENTITY, plain());
    let closed = Layer::new(LayerDataTypes::Shape(Shape::new(pts)), DAffine2::IDENTITY, plain());
    let mut path = Vec::new();
    let mut hits = Vec::new();
    open.intersects_quad(inside, &mut path, &mut hits);
    assert!(hits.is_empty());
    closed.intersects_quad(inside, &mut path, &mut hits);
    assert_eq!(hits.len(), 1);
}

#[test]
fn new_document_has_empty_root() {
    let doc = Document::new();
    let root = doc.folder(&[]).unwrap();
    assert!(root.layers().is_empty());
    assert!(root.layer_ids().is_empty());
    assert!(doc.root.current_bounding_box().is_none());
    assert!(doc.root.to_kurbo_path().is_empty());
}

#[test]
fn empty_polyline_has_empty_path_box() {
    let layer = Layer::new(LayerDataTypes::PolyLine(PolyLine::new(Vec::new())), DAffine2::IDENTITY, plain());
    assert_eq!(layer.current_bounding_box(), Some([DVec2::ZERO, DVec2::ZERO]));
    assert!(layer.to_kurbo_path().is_empty());
    let mut path = Vec::new();
    let mut hits = Vec::new();
    layer.intersects_quad(quad([(-1.0, -1.0), (1.0, -1.0), (1.0, 1.0), (-1.0, 1.0)]), &mut path, &mut hits);
    assert!(hits.is_empty());
    let mut shape = Layer::new(LayerDataTypes::Shape(Shape::new(Vec::new())), DAffine2::IDENTITY, plain());
    shape.intersects_quad(quad([(-1.0, -1.0), (1.0, -1.0), (1.0, 1.0), (-1.0, 1.0)]), &mut path, &mut hits);
    assert!(hits.is_empty());
    assert_eq!(shape.render().to_string(), "<g style=\"mix-blend-mode: normal; opacity: 1\"><path d=\"\" fill=\"none\" /></g>");
}

#[test]
fn folder_matrix_follows_transform() {
    let mut layer = folder_layer();
    layer.set_transform(DAffine2::from_cols_array(&[2.0, 0.0, 0.0, 0.5, 3.0, -4.0]));
    let mut svg = String::new();
    assert_eq!(layer.render_as_folder(&mut svg), Ok(()));
    assert_eq!(svg, "<g transform=\"matrix(2,0,0,0.5,3,-4)\"></g>");
}
