//! Layers, the primitives they hold, and folders of layers.
use vstd::prelude::*;
use vstd::string::*;
use glam::{DAffine2, DVec2};
use kurbo::{BezPath, PathSeg};
use crate::{DocumentError, LayerId};
use crate::blend::{BlendMode, blend_keyword};
use crate::markup::{thousandths_text, push_thousandths};
use crate::style::{PathStyle, style_attributes};
use crate::geometry::{
    compose, ellipse_path, empty_path, entry_text, inverse, line_path, max_point, min_point,
    path_bounds, path_close, path_contains, path_line_to, path_segments, path_svg, rect_path,
    segment_meets, segment_start, start_path, transform_point, transformed_path,
};
use crate::geometry::{
    apply_of, bounds_of, closed_of, compose_of, contains_of, ellipse_outline_of, entry_text_of,
    inverse_of, empty_outline, line_outline_of, lined_of, max_of, meets_of, min_of, rect_outline_of, segments_of,
    start_of, started_of, steps_of, svg_of, transformed_of, well_started, PathStep,
};

verus! {

/// The ellipse inscribed in the axis-aligned rectangle with corners `p0`, `p1`.
#[derive(Debug, Clone, PartialEq)]
pub struct Ellipse {
    pub p0: DVec2,
    pub p1: DVec2,
}

/// The axis-aligned rectangle with corners `p0` and `p1`.
#[derive(Debug, Clone, PartialEq)]
pub struct Rect {
    pub p0: DVec2,
    pub p1: DVec2,
}

/// The straight segment from `p0` to `p1`.
#[derive(Debug, Clone, PartialEq)]
pub struct Line {
    pub p0: DVec2,
    pub p1: DVec2,
}

/// An open chain of straight segments through `points`.
#[derive(Debug, Clone, PartialEq)]
pub struct PolyLine {
    pub points: Vec<DVec2>,
}

/// A closed polygon through `points`.
#[derive(Debug, Clone, PartialEq)]
pub struct Shape {
    pub points: Vec<DVec2>,
}

/// What a layer holds: a folder of layers or one geometric primitive.
#[derive(Debug, PartialEq)]
pub enum LayerDataTypes {
    Folder(Folder),
    Ellipse(Ellipse),
    Rect(Rect),
    Line(Line),
    PolyLine(PolyLine),
    Shape(Shape),
}

/// An ordered list of child layers, drawn first to last, each under an
/// identifier unique in the folder.
#[derive(Debug, PartialEq)]
pub struct Folder {
    pub next_assignment_id: LayerId,
    pub layer_ids: Vec<LayerId>,
    pub layers: Vec<Layer>,
}

/// A node of the document: a payload with its transform, style, visibility,
/// compositing settings and render cache.
///
/// `cache` and `thumbnail_cache` describe the layer only while `cache_dirty`
/// is false: whoever changes the payload, transform, style, blend mode or
/// opacity directly must set `cache_dirty`; the `set_*` methods do so.
#[derive(Debug, PartialEq)]
pub struct Layer {
    pub visible: bool,
    pub name: Option<String>,
    pub data: LayerDataTypes,
    pub transform: DAffine2,
    pub style: PathStyle,
    pub cache: String,
    pub thumbnail_cache: String,
    pub cache_dirty: bool,
    pub blend_mode: BlendMode,
    /// Opacity in thousandths: 1000 is opaque. Not clamped.
    pub opacity: u32,
}


/// `<path d="D" ATTRS />`: one primitive drawn with path data `d`.
pub open spec fn path_element(d: Seq<char>, style: PathStyle) -> Seq<char> {
    "<path d=\""@ + d + "\""@ + style_attributes(style) + " />"@
}

/// The compositing group that wraps a layer's own markup.
pub open spec fn group_markup(blend: BlendMode, opacity: u32, inner: Seq<char>) -> Seq<char> {
    "<g style=\"mix-blend-mode: "@ + blend_keyword(blend) + "; opacity: "@ + thousandths_text(
        opacity as nat,
    ) + "\">"@ + inner + "</g>"@
}


/// The views of a list of recorded layer paths.
pub open spec fn paths_view(s: Seq<Vec<LayerId>>) -> Seq<Seq<LayerId>> {
    s.map_values(|v: Vec<LayerId>| v@)
}

/// kurbo's path through the first `n` points: a move to the first, then
/// straight segments to the others.
pub open spec fn chain_of(points: Seq<DVec2>, n: nat) -> BezPath
    decreases n,
{
    if n <= 1 {
        started_of(points[0])
    } else {
        lined_of(chain_of(points, (n - 1) as nat), points[n - 1])
    }
}

/// The path through all `points`, closed back to the first when `closed`;
/// the empty path when there is no point.
pub open spec fn polygon_outline(points: Seq<DVec2>, closed: bool) -> BezPath {
    if points.len() == 0 {
        empty_outline()
    } else if closed {
        closed_of(chain_of(points, points.len()))
    } else {
        chain_of(points, points.len())
    }
}

/// The segment meets the `k`-th edge of the quadrilateral `q`.
pub open spec fn edge_meets(seg: PathSeg, q: Seq<DVec2>, k: int) -> bool {
    meets_of(seg, q[k], q[if k == 3 { 0 } else { k + 1 }])
}

/// One of the first `n` segments meets an edge of `q`.
pub open spec fn edges_meet(q: Seq<DVec2>, segs: Seq<PathSeg>, n: int) -> bool {
    exists|i: int, k: int| 0 <= i < n && 0 <= k < 4 && #[trigger] edge_meets(segs[i], q, k)
}

/// The quadrilateral `q` meets the outline `shape`: an edge of `q` meets a
/// segment of the shape, or `q` lies inside the (closed) shape, or the shape
/// starts inside `q`.
pub open spec fn quad_meets(q: Seq<DVec2>, shape: BezPath, closed: bool) -> bool {
    let segs = segments_of(shape);
    ||| edges_meet(q, segs, segs.len() as int)
    ||| closed && contains_of(shape, q[0])
    ||| segs.len() > 0 && contains_of(polygon_outline(q, true), start_of(segs[0]))
}

/// The four corners of `q` mapped through the inverse of `t`.
pub open spec fn pullback(t: DAffine2, q: Seq<DVec2>) -> Seq<DVec2> {
    seq![
        apply_of(inverse_of(t), q[0]),
        apply_of(inverse_of(t), q[1]),
        apply_of(inverse_of(t), q[2]),
        apply_of(inverse_of(t), q[3]),
    ]
}

/// What `to_kurbo_path` gives for a payload under `t`: a primitive's outline
/// mapped through `t`, or the empty path for a folder.
pub open spec fn payload_path(data: LayerDataTypes, t: DAffine2) -> BezPath {
    if data is Folder {
        empty_outline()
    } else {
        transformed_of(local_outline(data), t)
    }
}

/// Whether the primitive's outline encloses an area.
pub open spec fn is_closed(data: LayerDataTypes) -> bool {
    data is Ellipse || data is Rect || data is Shape
}

/// A payload's outline in its own coordinates; a folder has none of its
/// own (an empty path).
pub open spec fn local_outline(data: LayerDataTypes) -> BezPath {
    match data {
        LayerDataTypes::Ellipse(e) => ellipse_outline_of(e.p0, e.p1),
        LayerDataTypes::Rect(r) => rect_outline_of(r.p0, r.p1),
        LayerDataTypes::Line(l) => line_outline_of(l.p0, l.p1),
        LayerDataTypes::PolyLine(p) => polygon_outline(p.points@, false),
        LayerDataTypes::Shape(s) => polygon_outline(s.points@, true),
        LayerDataTypes::Folder(_) => empty_outline(),
    }
}

/// The paths that a hit-test of the payload records for `quad` (in the
/// payload's coordinates) under `path`: a primitive records `path` when `quad`
/// meets its outline; a folder records its children's hits in order.
pub open spec fn payload_hits(data: LayerDataTypes, quad: Seq<DVec2>, path: Seq<LayerId>) -> Seq<Seq<LayerId>>
    decreases data,
{
    match data {
        LayerDataTypes::Folder(f) => children_hits(f.layers@, f.layer_ids@, quad, path),
        _ => if quad_meets(quad, local_outline(data), is_closed(data)) {
            seq![path]
        } else {
            Seq::empty()
        },
    }
}

/// The hits of the children `layers` in order, each under `path` extended by
/// its identifier.
pub open spec fn children_hits(
    layers: Seq<Layer>,
    ids: Seq<LayerId>,
    quad: Seq<DVec2>,
    path: Seq<LayerId>,
) -> Seq<Seq<LayerId>>
    decreases layers,
{
    if layers.len() == 0 {
        Seq::empty()
    } else {
        let n = layers.len() - 1;
        children_hits(layers.subrange(0, n), ids, quad, path) + if n < ids.len() {
            layer_hits(layers[n], quad, path.push(ids[n]))
        } else {
            Seq::empty()
        }
    }
}

/// The hits of a layer for `quad` in its parent's coordinates: none when
/// hidden, else its payload's for `quad` pulled back through its transform.
pub open spec fn layer_hits(l: Layer, quad: Seq<DVec2>, path: Seq<LayerId>) -> Seq<Seq<LayerId>>
    decreases l,
{
    if !l.visible {
        Seq::empty()
    } else {
        payload_hits(l.data, pullback(l.transform, quad), path)
    }
}

/// The smallest box around two optional boxes (lower, upper corner).
pub open spec fn union_box(a: Option<(DVec2, DVec2)>, b: Option<(DVec2, DVec2)>) -> Option<(DVec2, DVec2)> {
    match b {
        None => a,
        Some(bb) => match a {
            None => Some(bb),
            Some(aa) => Some((min_of(aa.0, bb.0), max_of(aa.1, bb.1))),
        },
    }
}

/// The bounding box of a layer under `t`: for a folder the union of its
/// visible children's boxes, each under `t` composed with the child's own
/// transform; for a primitive the box of its transformed outline.
pub open spec fn layer_box(l: Layer, t: DAffine2) -> Option<(DVec2, DVec2)>
    decreases l,
{
    match l.data {
        LayerDataTypes::Folder(f) => children_box(f.layers@, t),
        _ => Some(bounds_of(transformed_of(local_outline(l.data), t))),
    }
}

/// The union of the boxes of the visible `layers`, taken in order.
pub open spec fn children_box(layers: Seq<Layer>, t: DAffine2) -> Option<(DVec2, DVec2)>
    decreases layers,
{
    if layers.len() == 0 {
        None
    } else {
        let n = layers.len() - 1;
        union_box(
            children_box(layers.subrange(0, n), t),
            if layers[n].visible {
                layer_box(layers[n], compose_of(t, layers[n].transform))
            } else {
                None
            },
        )
    }
}

/// The box `r` is the box `s`.
pub open spec fn box_is(r: Option<[DVec2; 2]>, s: Option<(DVec2, DVec2)>) -> bool {
    match r {
        None => s is None,
        Some(b) => s is Some && b[0] == s->Some_0.0 && b[1] == s->Some_0.1,
    }
}

/// `matrix(a,b,c,d,e,f)`: the SVG text of an affine map.
pub open spec fn matrix_text(t: DAffine2) -> Seq<char> {
    "matrix("@ + entry_text_of(t, 0) + ","@ + entry_text_of(t, 1) + ","@ + entry_text_of(t, 2)
        + ","@ + entry_text_of(t, 3) + ","@ + entry_text_of(t, 4) + ","@ + entry_text_of(t, 5)
        + ")"@
}

/// Appends the SVG `matrix(...)` text of `t`.
fn push_matrix(svg: &mut String, t: &DAffine2)
    ensures
        final(svg)@ == old(svg)@ + matrix_text(*t),
{
    svg.append("matrix(");
    let mut i: usize = 0;
    while i < 6
        invariant
            i <= 6,
            svg@ == old(svg)@ + "matrix("@ + matrix_entries(*t, i as int),
        decreases 6 - i,
    {
        if i > 0 {
            svg.append(",");
        }
        let e = entry_text(t, i);
        svg.append(e.as_str());
        proof {
            reveal_strlit(",");
        }
        assert(svg@ =~= old(svg)@ + "matrix("@ + matrix_entries(*t, i + 1));
        i = i + 1;
    }
    svg.append(")");
    proof {
        reveal_strlit(",");
        reveal_strlit("matrix(");
        reveal_strlit(")");
        reveal_with_fuel(matrix_entries, 7);
    }
    assert(matrix_entries(*t, 6) =~= entry_text_of(*t, 0) + ","@ + entry_text_of(*t, 1) + ","@
        + entry_text_of(*t, 2) + ","@ + entry_text_of(*t, 3) + ","@ + entry_text_of(*t, 4) + ","@
        + entry_text_of(*t, 5));
    assert(final(svg)@ =~= old(svg)@ + matrix_text(*t));
}

/// The first `n` coefficients' text of `t`, comma separated.
pub open spec fn matrix_entries(t: DAffine2, n: int) -> Seq<char>
    decreases n,
{
    if n <= 0 {
        Seq::empty()
    } else if n == 1 {
        entry_text_of(t, 0)
    } else {
        matrix_entries(t, n - 1) + ","@ + entry_text_of(t, n - 1)
    }
}

/// Appends `<path d="..." ... />` for a primitive's path.
fn push_path_element(svg: &mut String, path: &BezPath, style: PathStyle)
    ensures
        final(svg)@ == old(svg)@ + path_element(svg_of(*path), style),
{
    let d = path_svg(path);
    svg.append("<path d=\"");
    svg.append(d.as_str());
    svg.append("\"");
    style.render_on(svg);
    svg.append(" />");
    assert(final(svg)@ =~= old(svg)@ + path_element(d@, style));
}

/// A path through `points` in order, closed back to the first when `closed`;
/// an empty path when there is no point.
fn polygon_path(points: &Vec<DVec2>, closed: bool) -> (r: BezPath)
    ensures
        r == polygon_outline(points@, closed),
        well_started(r),
{
    if points.len() == 0 {
        return empty_path();
    }
    let mut path = start_path(points[0]);
    let mut i: usize = 1;
    while i < points.len()
        invariant
            1 <= i <= points.len(),
            path == chain_of(points@, i as nat),
            steps_of(path).len() > 0 && steps_of(path)[0] == PathStep::MoveTo,
        decreases points.len() - i,
    {
        path_line_to(&mut path, points[i]);
        i = i + 1;
    }
    if closed {
        path_close(&mut path);
    }
    path
}

/// Whether the quadrilateral `quad` meets the path `shape`.
fn quad_meets_path(quad: &[DVec2; 4], shape: &BezPath, closed: bool) -> (r: bool)
    requires
        well_started(*shape),
    ensures
        r == quad_meets(quad@, *shape, closed),
{
    let segs = path_segments(shape);
    let mut i: usize = 0;
    while i < segs.len()
        invariant
            i <= segs.len(),
            segs@ == segments_of(*shape),
            !edges_meet(quad@, segs@, i as int),
        decreases segs.len() - i,
    {
        let mut k: usize = 0;
        while k < 4
            invariant
                k <= 4,
                i < segs.len(),
                segs@ == segments_of(*shape),
                !edges_meet(quad@, segs@, i as int),
                forall|j: int| 0 <= j < k ==> !#[trigger] edge_meets(segs@[i as int], quad@, j),
            decreases 4 - k,
        {
            let next: usize = if k == 3 { 0 } else { k + 1 };
            if segment_meets(&segs[i], quad[k], quad[next]) {
                assert(edge_meets(segs@[i as int], quad@, k as int));
                return true;
            }
            k = k + 1;
        }
        assert(!edges_meet(quad@, segs@, i + 1)) by {
            assert forall|a: int, b: int| 0 <= a < i + 1 && 0 <= b < 4 implies !#[trigger] edge_meets(segs@[a], quad@, b) by {
                if a < i {
                    assert(!edges_meet(quad@, segs@, i as int));
                }
            }
        }
        i = i + 1;
    }
    if closed && path_contains(shape, quad[0]) {
        return true;
    }
    if segs.len() > 0 {
        let corners = vec![quad[0], quad[1], quad[2], quad[3]];
        assert(corners@ =~= quad@);
        let outline = polygon_path(&corners, true);
        if path_contains(&outline, segment_start(&segs[0])) {
            return true;
        }
    }
    false
}

/// A copy of a layer path.
fn copy_path(path: &Vec<LayerId>) -> (r: Vec<LayerId>)
    ensures
        r@ == path@,
{
    let mut r: Vec<LayerId> = Vec::new();
    let mut i: usize = 0;
    while i < path.len()
        invariant
            i <= path.len(),
            r@ == path@.subrange(0, i as int),
        decreases path.len() - i,
    {
        r.push(path[i]);
        i = i + 1;
        assert(r@ =~= path@.subrange(0, i as int));
    }
    assert(r@ =~= path@);
    r
}

/// Records `path` when `hit`.
fn record_if(hit: bool, path: &Vec<LayerId>, intersections: &mut Vec<Vec<LayerId>>)
    ensures
        paths_view(final(intersections)@) == paths_view(old(intersections)@) + if hit {
            seq![path@]
        } else {
            Seq::<Seq<LayerId>>::empty()
        },
{
    if hit {
        intersections.push(copy_path(path));
        assert(paths_view(final(intersections)@) =~= paths_view(old(intersections)@) + seq![path@]);
    } else {
        assert(paths_view(final(intersections)@) =~= paths_view(old(intersections)@) + Seq::<Seq<LayerId>>::empty());
    }
}

impl Ellipse {
    pub fn new(p0: DVec2, p1: DVec2) -> (r: Ellipse)
        ensures
            r == (Ellipse { p0, p1 }),
    {
        Ellipse { p0, p1 }
    }

    /// The outline in the coordinates that `transform` maps to.
    pub fn to_kurbo_path(&self, transform: DAffine2, style: PathStyle) -> (r: BezPath)
        ensures
            r == transformed_of(local_outline(LayerDataTypes::Ellipse(*self)), transform),
            well_started(r),
    {
        transformed_path(ellipse_path(self.p0, self.p1), &transform)
    }

    /// Appends the primitive as an SVG `<path>` element.
    pub fn render(&self, svg: &mut String, transform: DAffine2, style: PathStyle)
        ensures
            final(svg)@ == old(svg)@ + path_element(
                svg_of(transformed_of(local_outline(LayerDataTypes::Ellipse(*self)), transform)),
                style,
            ),
    {
        let outline = self.to_kurbo_path(transform, style);
        push_path_element(svg, &outline, style);
    }

    /// Records `path` when `quad`, given in the primitive's own coordinates,
    /// meets its outline.
    pub fn intersects_quad(
        &self,
        quad: [DVec2; 4],
        path: &mut Vec<LayerId>,
        intersections: &mut Vec<Vec<LayerId>>,
        style: PathStyle,
    )
        ensures
            final(path)@ == old(path)@,
            paths_view(final(intersections)@) == paths_view(old(intersections)@) + payload_hits(
                LayerDataTypes::Ellipse(*self),
                quad@,
                old(path)@,
            ),
    {
        let outline = ellipse_path(self.p0, self.p1);
        let hit = quad_meets_path(&quad, &outline, true);
        record_if(hit, path, intersections);
    }
}

impl Rect {
    pub fn new(p0: DVec2, p1: DVec2) -> (r: Rect)
        ensures
            r == (Rect { p0, p1 }),
    {
        Rect { p0, p1 }
    }

    /// The outline in the coordinates that `transform` maps to.
    pub fn to_kurbo_path(&self, transform: DAffine2, style: PathStyle) -> (r: BezPath)
        ensures
            r == transformed_of(local_outline(LayerDataTypes::Rect(*self)), transform),
            well_started(r),
    {
        transformed_path(rect_path(self.p0, self.p1), &transform)
    }

    /// Appends the primitive as an SVG `<path>` element.
    pub fn render(&self, svg: &mut String, transform: DAffine2, style: PathStyle)
        ensures
            final(svg)@ == old(svg)@ + path_element(
                svg_of(transformed_of(local_outline(LayerDataTypes::Rect(*self)), transform)),
                style,
            ),
    {
        let outline = self.to_kurbo_path(transform, style);
        push_path_element(svg, &outline, style);
    }

    /// Records `path` when `quad`, given in the primitive's own coordinates,
    /// meets its outline.
    pub fn intersects_quad(
        &self,
        quad: [DVec2; 4],
        path: &mut Vec<LayerId>,
        intersections: &mut Vec<Vec<LayerId>>,
        style: PathStyle,
    )
        ensures
            final(path)@ == old(path)@,
            paths_view(final(intersections)@) == paths_view(old(intersections)@) + payload_hits(
                LayerDataTypes::Rect(*self),
                quad@,
                old(path)@,
            ),
    {
        let outline = rect_path(self.p0, self.p1);
        let hit = quad_meets_path(&quad, &outline, true);
        record_if(hit, path, intersections);
    }
}

impl Line {
    pub fn new(p0: DVec2, p1: DVec2) -> (r: Line)
        ensures
            r == (Line { p0, p1 }),
    {
        Line { p0, p1 }
    }

    /// The outline in the coordinates that `transform` maps to.
    pub fn to_kurbo_path(&self, transform: DAffine2, style: PathStyle) -> (r: BezPath)
        ensures
            r == transformed_of(local_outline(LayerDataTypes::Line(*self)), transform),
            well_started(r),
    {
        transformed_path(line_path(self.p0, self.p1), &transform)
    }

    /// Appends the primitive as an SVG `<path>` element.
    pub fn render(&self, svg: &mut String, transform: DAffine2, style: PathStyle)
        ensures
            final(svg)@ == old(svg)@ + path_element(
                svg_of(transformed_of(local_outline(LayerDataTypes::Line(*self)), transform)),
                style,
            ),
    {
        let outline = self.to_kurbo_path(transform, style);
        push_path_element(svg, &outline, style);
    }

    /// Records `path` when `quad`, given in the primitive's own coordinates,
    /// meets its outline.
    pub fn intersects_quad(
        &self,
        quad: [DVec2; 4],
        path: &mut Vec<LayerId>,
        intersections: &mut Vec<Vec<LayerId>>,
        style: PathStyle,
    )
        ensures
            final(path)@ == old(path)@,
            paths_view(final(intersections)@) == paths_view(old(intersections)@) + payload_hits(
                LayerDataTypes::Line(*self),
                quad@,
                old(path)@,
            ),
    {
        let outline = line_path(self.p0, self.p1);
        let hit = quad_meets_path(&quad, &outline, false);
        record_if(hit, path, intersections);
    }
}

impl PolyLine {
    pub fn new(points: Vec<DVec2>) -> (r: PolyLine)
        ensures
            r == (PolyLine { points }),
    {
        PolyLine { points }
    }

    /// The outline in the coordinates that `transform` maps to.
    pub fn to_kurbo_path(&self, transform: DAffine2, style: PathStyle) -> (r: BezPath)
        ensures
            r == transformed_of(local_outline(LayerDataTypes::PolyLine(*self)), transform),
            well_started(r),
    {
        transformed_path(polygon_path(&self.points, false), &transform)
    }

    /// Appends the primitive as an SVG `<path>` element.
    pub fn render(&self, svg: &mut String, transform: DAffine2, style: PathStyle)
        ensures
            final(svg)@ == old(svg)@ + path_element(
                svg_of(transformed_of(local_outline(LayerDataTypes::PolyLine(*self)), transform)),
                style,
            ),
    {
        let outline = self.to_kurbo_path(transform, style);
        push_path_element(svg, &outline, style);
    }

    /// Records `path` when `quad`, given in the primitive's own coordinates,
    /// meets its outline.
    pub fn intersects_quad(
        &self,
        quad: [DVec2; 4],
        path: &mut Vec<LayerId>,
        intersections: &mut Vec<Vec<LayerId>>,
        style: PathStyle,
    )
        ensures
            final(path)@ == old(path)@,
            paths_view(final(intersections)@) == paths_view(old(intersections)@) + payload_hits(
                LayerDataTypes::PolyLine(*self),
                quad@,
                old(path)@,
            ),
    {
        let outline = polygon_path(&self.points, false);
        let hit = quad_meets_path(&quad, &outline, false);
        record_if(hit, path, intersections);
    }
}

impl Shape {
    pub fn new(points: Vec<DVec2>) -> (r: Shape)
        ensures
            r == (Shape { points }),
    {
        Shape { points }
    }

    /// The outline in the coordinates that `transform` maps to.
    pub fn to_kurbo_path(&self, transform: DAffine2, style: PathStyle) -> (r: BezPath)
        ensures
            r == transformed_of(local_outline(LayerDataTypes::Shape(*self)), transform),
            well_started(r),
    {
        transformed_path(polygon_path(&self.points, true), &transform)
    }

    /// Appends the primitive as an SVG `<path>` element.
    pub fn render(&self, svg: &mut String, transform: DAffine2, style: PathStyle)
        ensures
            final(svg)@ == old(svg)@ + path_element(
                svg_of(transformed_of(local_outline(LayerDataTypes::Shape(*self)), transform)),
                style,
            ),
    {
        let outline = self.to_kurbo_path(transform, style);
        push_path_element(svg, &outline, style);
    }

    /// Records `path` when `quad`, given in the primitive's own coordinates,
    /// meets its outline.
    pub fn intersects_quad(
        &self,
        quad: [DVec2; 4],
        path: &mut Vec<LayerId>,
        intersections: &mut Vec<Vec<LayerId>>,
        style: PathStyle,
    )
        ensures
            final(path)@ == old(path)@,
            paths_view(final(intersections)@) == paths_view(old(intersections)@) + payload_hits(
                LayerDataTypes::Shape(*self),
                quad@,
                old(path)@,
            ),
    {
        let outline = polygon_path(&self.points, true);
        let hit = quad_meets_path(&quad, &outline, true);
        record_if(hit, path, intersections);
    }
}

/// Rendering leaves a payload as it was, but for the caches inside a folder:
/// a folder keeps its identifiers and its number of children.
pub open spec fn same_content(a: LayerDataTypes, b: LayerDataTypes) -> bool {
    match a {
        LayerDataTypes::Folder(fa) => b is Folder && b->Folder_0.layer_ids == fa.layer_ids
            && b->Folder_0.layers.len() == fa.layers.len()
            && b->Folder_0.next_assignment_id == fa.next_assignment_id,
        _ => b == a,
    }
}

/// Two layers agree on everything but payload and caches.
pub open spec fn same_settings(a: Layer, b: Layer) -> bool {
    &&& a.visible == b.visible
    &&& a.name == b.name
    &&& a.transform == b.transform
    &&& a.style == b.style
    &&& a.blend_mode == b.blend_mode
    &&& a.opacity == b.opacity
}

/// One call of `Layer::render` on `before` leaves `after` and returns `out`:
/// a hidden layer gives nothing and keeps its cache; a clean visible layer
/// gives its cache; a dirty visible layer renders its payload under its own
/// transform and style into `thumbnail_cache`, wraps that in the compositing
/// group into `cache`, and is clean after.
pub open spec fn render_step(before: Layer, after: Layer, out: Seq<char>) -> bool
    decreases before,
{
    if !before.visible {
        after == before && out == Seq::<char>::empty()
    } else if !before.cache_dirty {
        after == before && out == before.cache@
    } else {
        &&& same_settings(before, after)
        &&& same_content(before.data, after.data)
        &&& !after.cache_dirty
        &&& after.cache@ == group_markup(after.blend_mode, after.opacity, after.thumbnail_cache@)
        &&& out == after.cache@
        &&& payload_markup(
            before.data,
            after.data,
            before.transform,
            before.style,
            after.thumbnail_cache@,
        )
    }
}

/// One render of the payload `before` under `transform` and `style`, leaving
/// `after`, gave `out`: a primitive gives the `<path>` element of its
/// transformed outline; a folder gives the group carrying `transform` around
/// what its children's renders returned, in order.
pub open spec fn payload_markup(
    before: LayerDataTypes,
    after: LayerDataTypes,
    transform: DAffine2,
    style: PathStyle,
    out: Seq<char>,
) -> bool
    decreases before,
{
    match before {
        LayerDataTypes::Folder(f) => after is Folder && exists|outs: Seq<Seq<char>>|
            {
                &&& outs.len() == f.layers.len()
                &&& after->Folder_0.layers.len() == f.layers.len()
                &&& out == #[trigger] folder_markup(matrix_text(transform), outs)
                &&& forall|j: int|
                    0 <= j < f.layers.len() ==> render_step(
                        #[trigger] f.layers[j],
                        after->Folder_0.layers[j],
                        outs[j],
                    )
            },
        _ => out == path_element(svg_of(transformed_of(local_outline(before), transform)), style),
    }
}

impl LayerDataTypes {
    /// Appends the payload's markup under `transform` and `style`.
    pub fn render(&mut self, svg: &mut String, transform: DAffine2, style: PathStyle)
        ensures
            same_content(*old(self), *final(self)),
            exists|out: Seq<char>|
                final(svg)@ == old(svg)@ + out && #[trigger] payload_markup(
                    *old(self),
                    *final(self),
                    transform,
                    style,
                    out,
                ),
        decreases *old(self),
    {
        let ghost s0 = svg@;
        match self {
            LayerDataTypes::Folder(x) => Folder::render(x, svg, transform, style),
            LayerDataTypes::Ellipse(x) => Ellipse::render(x, svg, transform, style),
            LayerDataTypes::Rect(x) => Rect::render(x, svg, transform, style),
            LayerDataTypes::Line(x) => Line::render(x, svg, transform, style),
            LayerDataTypes::PolyLine(x) => PolyLine::render(x, svg, transform, style),
            LayerDataTypes::Shape(x) => Shape::render(x, svg, transform, style),
        }
        proof {
            match *old(self) {
                LayerDataTypes::Folder(f) => {
                    let outs = choose|outs: Seq<Seq<char>>|
                        children_rendered(f.layers@, final(self)->Folder_0.layers@, outs)
                            && final(svg)@ == s0 + #[trigger] folder_markup(matrix_text(transform), outs);
                    let out = folder_markup(matrix_text(transform), outs);
                    assert(payload_markup(*old(self), *final(self), transform, style, out));
                },
                _ => {
                    let d = svg_of(transformed_of(local_outline(*old(self)), transform));
                    assert(payload_markup(*old(self), *final(self), transform, style, path_element(d, style)));
                },
            }
        }
    }

    /// The payload's outline under `transform`; a folder gives an empty path.
    pub fn to_kurbo_path(&self, transform: DAffine2, style: PathStyle) -> (r: BezPath)
        ensures
            r == payload_path(*self, transform),
            well_started(r),
    {
        match self {
            LayerDataTypes::Folder(x) => Folder::to_kurbo_path(x, transform, style),
            LayerDataTypes::Ellipse(x) => Ellipse::to_kurbo_path(x, transform, style),
            LayerDataTypes::Rect(x) => Rect::to_kurbo_path(x, transform, style),
            LayerDataTypes::Line(x) => Line::to_kurbo_path(x, transform, style),
            LayerDataTypes::PolyLine(x) => PolyLine::to_kurbo_path(x, transform, style),
            LayerDataTypes::Shape(x) => Shape::to_kurbo_path(x, transform, style),
        }
    }

    /// Records the paths of what the payload holds that meets `quad`, given
    /// in the payload's own coordinates.
    pub fn intersects_quad(
        &self,
        quad: [DVec2; 4],
        path: &mut Vec<LayerId>,
        intersections: &mut Vec<Vec<LayerId>>,
        style: PathStyle,
    )
        ensures
            final(path)@ == old(path)@,
            paths_view(final(intersections)@) == paths_view(old(intersections)@) + payload_hits(
                *self,
                quad@,
                old(path)@,
            ),
        decreases *self,
    {
        match self {
            LayerDataTypes::Folder(x) => Folder::intersects_quad(x, quad, path, intersections, style),
            LayerDataTypes::Ellipse(x) => Ellipse::intersects_quad(x, quad, path, intersections, style),
            LayerDataTypes::Rect(x) => Rect::intersects_quad(x, quad, path, intersections, style),
            LayerDataTypes::Line(x) => Line::intersects_quad(x, quad, path, intersections, style),
            LayerDataTypes::PolyLine(x) => PolyLine::intersects_quad(x, quad, path, intersections, style),
            LayerDataTypes::Shape(x) => Shape::intersects_quad(x, quad, path, intersections, style),
        }
    }

    /// The lower and upper corner of kurbo's box around the payload's
    /// outline under `transform`.
    pub fn bounding_box(&self, transform: DAffine2, style: PathStyle) -> (r: [DVec2; 2])
        ensures
            r[0] == bounds_of(payload_path(*self, transform)).0,
            r[1] == bounds_of(payload_path(*self, transform)).1,
    {
        let outline = self.to_kurbo_path(transform, style);
        path_bounds(&outline)
    }
}

/// The markup pieces in order, joined.
pub open spec fn concat(pieces: Seq<Seq<char>>) -> Seq<char>
    decreases pieces.len(),
{
    if pieces.len() == 0 {
        Seq::empty()
    } else {
        concat(pieces.drop_last()) + pieces.last()
    }
}

/// A folder's markup: a group carrying the transform `m` (as SVG matrix
/// text) around the children's outputs in drawing order.
pub open spec fn folder_markup(m: Seq<char>, outs: Seq<Seq<char>>) -> Seq<char> {
    "<g transform=\""@ + m + "\">"@ + concat(outs) + "</g>"@
}

/// Each child went from `before` to `after` by one render that returned the
/// matching entry of `outs`.
pub open spec fn children_rendered(before: Seq<Layer>, after: Seq<Layer>, outs: Seq<Seq<char>>) -> bool {
    &&& before.len() == after.len()
    &&& outs.len() == before.len()
    &&& forall|j: int| 0 <= j < before.len() ==> render_step(#[trigger] before[j], after[j], outs[j])
}

impl Folder {
    /// Identifiers and children stay index-aligned, identifiers are unique,
    /// and every identifier is below the next one to be assigned.
    pub open spec fn wf(&self) -> bool {
        &&& self.layer_ids.len() == self.layers.len()
        &&& forall|i: int, j: int|
            0 <= i < j < self.layer_ids.len() ==> self.layer_ids[i] != self.layer_ids[j]
        &&& forall|i: int| 0 <= i < self.layer_ids.len() ==> self.layer_ids[i] < self.next_assignment_id
    }

    /// An empty folder.
    pub fn new() -> (f: Folder)
        ensures
            f.wf(),
            f.layer_ids@ == Seq::<LayerId>::empty(),
            f.layers@ == Seq::<Layer>::empty(),
            f.next_assignment_id == 0,
    {
        Folder { next_assignment_id: 0, layer_ids: Vec::new(), layers: Vec::new() }
    }

    /// Appends `layer` on top of the others under a fresh identifier, which it returns.
    pub fn add_layer(&mut self, layer: Layer) -> (id: LayerId)
        requires
            old(self).wf(),
            old(self).next_assignment_id < u64::MAX,
        ensures
            final(self).wf(),
            id == old(self).next_assignment_id,
            final(self).next_assignment_id == id + 1,
            final(self).layer_ids@ == old(self).layer_ids@.push(id),
            final(self).layers@ == old(self).layers@.push(layer),
    {
        let id = self.next_assignment_id;
        self.layer_ids.push(id);
        self.layers.push(layer);
        self.next_assignment_id = id + 1;
        id
    }

    /// The index of `id` among the children.
    pub fn position_of_layer(&self, id: LayerId) -> (r: Option<usize>)
        ensures
            match r {
                Some(i) => i < self.layer_ids.len() && self.layer_ids[i as int] == id && forall|j: int|
                    0 <= j < i ==> self.layer_ids[j] != id,
                None => !self.layer_ids@.contains(id),
            },
    {
        let mut i: usize = 0;
        while i < self.layer_ids.len()
            invariant
                i <= self.layer_ids.len(),
                forall|j: int| 0 <= j < i ==> self.layer_ids[j] != id,
            decreases self.layer_ids.len() - i,
        {
            if self.layer_ids[i] == id {
                return Some(i);
            }
            i = i + 1;
        }
        None
    }

    /// Removes the child `id` and its whole subtree.
    pub fn remove_layer(&mut self, id: LayerId) -> (r: Result<(), DocumentError>)
        requires
            old(self).wf(),
        ensures
            final(self).wf(),
            r is Err <==> !old(self).layer_ids@.contains(id),
            r is Err ==> r == Err::<(), DocumentError>(DocumentError::LayerNotFound) && *final(self)
                == *old(self),
            r is Ok ==> exists|i: int|
                0 <= i < old(self).layer_ids.len() && old(self).layer_ids[i] == id
                    && final(self).layer_ids@ == old(self).layer_ids@.remove(i)
                    && final(self).layers@ == old(self).layers@.remove(i),
            final(self).next_assignment_id == old(self).next_assignment_id,
    {
        match self.position_of_layer(id) {
            None => Err(DocumentError::LayerNotFound),
            Some(i) => {
                self.layer_ids.remove(i);
                self.layers.remove(i);
                assert(old(self).layer_ids@.contains(id)) by {
                    assert(old(self).layer_ids@[i as int] == id);
                }
                Ok(())
            },
        }
    }

    /// The identifiers of the children, in drawing order.
    pub fn layer_ids(&self) -> (r: &Vec<LayerId>)
        ensures
            *r == self.layer_ids,
    {
        &self.layer_ids
    }

    /// The children, in drawing order.
    pub fn layers(&self) -> (r: &Vec<Layer>)
        ensures
            *r == self.layers,
    {
        &self.layers
    }

    /// The children, in drawing order, to change in place (not to add or
    /// remove: identifiers and children stay aligned).
    pub fn layers_mut(&mut self) -> (r: &mut [Layer])
        ensures
            r@ == old(self).layers@,
            final(self).layers@ == final(r)@,
            final(self).layer_ids == old(self).layer_ids,
            final(self).next_assignment_id == old(self).next_assignment_id,
    {
        self.layers.as_mut_slice()
    }

    /// The child `id`, if the folder holds it.
    pub fn layer(&self, id: LayerId) -> (r: Option<&Layer>)
        requires
            self.wf(),
        ensures
            r is Some <==> self.layer_ids@.contains(id),
            r is Some ==> exists|i: int|
                0 <= i < self.layer_ids.len() && self.layer_ids[i] == id && *r->Some_0
                    == self.layers[i],
    {
        match self.position_of_layer(id) {
            None => None,
            Some(i) => {
                assert(self.layer_ids@[i as int] == id);
                Some(&self.layers[i])
            },
        }
    }

    /// A folder has no outline of its own: an empty path.
    pub fn to_kurbo_path(&self, transform: DAffine2, style: PathStyle) -> (r: BezPath)
        ensures
            r == empty_outline(),
            steps_of(r) == Seq::<PathStep>::empty(),
    {
        empty_path()
    }

    /// Appends a group carrying `transform` around the children's markup,
    /// each child rendered (or taken from its cache) in drawing order.
    pub fn render(&mut self, svg: &mut String, transform: DAffine2, style: PathStyle)
        ensures
            final(self).layer_ids == old(self).layer_ids,
            final(self).next_assignment_id == old(self).next_assignment_id,
            final(self).layers.len() == old(self).layers.len(),
            exists|outs: Seq<Seq<char>>|
                children_rendered(old(self).layers@, final(self).layers@, outs) && final(svg)@
                    == old(svg)@ + #[trigger] folder_markup(matrix_text(transform), outs),
        decreases *old(self),
    {
        svg.append("<g transform=\"");
        push_matrix(svg, &transform);
        svg.append("\">");
        let ghost s1 = svg@;
        let ghost mut outs: Seq<Seq<char>> = Seq::empty();
        let n = self.layers.len();
        let mut i: usize = 0;
        while i < n
            invariant
                n == old(self).layers.len(),
                i <= n,
                self.layers.len() == n,
                self.layer_ids == old(self).layer_ids,
                self.next_assignment_id == old(self).next_assignment_id,
                forall|j: int| i <= j < n ==> self.layers[j] == old(self).layers[j],
                outs.len() == i,
                forall|j: int|
                    0 <= j < i ==> render_step(#[trigger] old(self).layers[j], self.layers[j], outs[j]),
                svg@ == s1 + concat(outs),
            decreases n - i,
        {
            assert(decreases_to!(*old(self) => old(self).layers));
            assert(decreases_to!(old(self).layers => old(self).layers[i as int]));
            let child = &mut self.layers[i];
            let out = child.render();
            let ghost o = out@;
            svg.append(out);
            proof {
                assert(outs.push(o).drop_last() =~= outs);
                outs = outs.push(o);
            }
            i = i + 1;
        }
        svg.append("</g>");
        proof {
            reveal_strlit("<g transform=\"");
            reveal_strlit("\">");
            reveal_strlit("</g>");
        }
        assert(final(svg)@ =~= old(svg)@ + folder_markup(matrix_text(transform), outs));
        assert(children_rendered(old(self).layers@, final(self).layers@, outs));
    }

    /// Records the path of every visible leaf below that meets `quad`, given
    /// in the folder's coordinates, in drawing order; `path` is this folder's
    /// own path.
    pub fn intersects_quad(
        &self,
        quad: [DVec2; 4],
        path: &mut Vec<LayerId>,
        intersections: &mut Vec<Vec<LayerId>>,
        style: PathStyle,
    )
        ensures
            final(path)@ == old(path)@,
            paths_view(final(intersections)@) == paths_view(old(intersections)@) + children_hits(
                self.layers@,
                self.layer_ids@,
                quad@,
                old(path)@,
            ),
        decreases *self,
    {
        let mut i: usize = 0;
        assert(self.layers@.subrange(0, 0) =~= Seq::<Layer>::empty());
        assert(paths_view(intersections@) =~= paths_view(old(intersections)@) + Seq::<Seq<LayerId>>::empty());
        while i < self.layers.len()
            invariant
                i <= self.layers.len(),
                path@ == old(path)@,
                paths_view(intersections@) == paths_view(old(intersections)@) + children_hits(
                    self.layers@.subrange(0, i as int),
                    self.layer_ids@,
                    quad@,
                    old(path)@,
                ),
            decreases self.layers.len() - i,
        {
            let ghost before = paths_view(intersections@);
            let ghost prefix = self.layers@.subrange(0, i as int);
            let ghost next = self.layers@.subrange(0, i + 1);
            assert(next.subrange(0, i as int) =~= prefix);
            assert(next[i as int] == self.layers@[i as int]);
            if i < self.layer_ids.len() {
                path.push(self.layer_ids[i]);
                assert(decreases_to!(*self => self.layers));
                assert(decreases_to!(self.layers => self.layers[i as int]));
                self.layers[i].intersects_quad(quad, path, intersections);
                path.pop();
                assert(path@ =~= old(path)@);
            }
            assert(paths_view(intersections@) =~= paths_view(old(intersections)@) + children_hits(
                next,
                self.layer_ids@,
                quad@,
                old(path)@,
            ));
            i = i + 1;
        }
        assert(self.layers@.subrange(0, self.layers@.len() as int) =~= self.layers@);
    }

    /// The smallest box holding the boxes of the visible children under
    /// `transform` composed with each child's own; none if no child has one.
    pub fn bounding_box(&self, transform: DAffine2) -> (r: Option<[DVec2; 2]>)
        ensures
            box_is(r, children_box(self.layers@, transform)),
        decreases *self,
    {
        let mut acc: Option<[DVec2; 2]> = None;
        let mut i: usize = 0;
        assert(self.layers@.subrange(0, 0) =~= Seq::<Layer>::empty());
        while i < self.layers.len()
            invariant
                i <= self.layers.len(),
                box_is(acc, children_box(self.layers@.subrange(0, i as int), transform)),
            decreases self.layers.len() - i,
        {
            let ghost next = self.layers@.subrange(0, i + 1);
            assert(next.subrange(0, i as int) =~= self.layers@.subrange(0, i as int));
            assert(next[i as int] == self.layers@[i as int]);
            let child = &self.layers[i];
            let mut cb: Option<[DVec2; 2]> = None;
            if child.visible {
                let t = compose(&transform, &child.transform);
                assert(decreases_to!(*self => self.layers));
                assert(decreases_to!(self.layers => self.layers[i as int]));
                cb = child.bounding_box(t, child.style);
            }
            match cb {
                Some(b) => {
                    acc = match acc {
                        None => Some(b),
                        Some(a) => Some([min_point(a[0], b[0]), max_point(a[1], b[1])]),
                    };
                },
                None => {},
            }
            assert(box_is(acc, children_box(next, transform)));
            i = i + 1;
        }
        assert(self.layers@.subrange(0, self.layers@.len() as int) =~= self.layers@);
        acc
    }
}

impl Layer {
    /// A visible, unnamed, opaque layer with the normal blend mode, whose
    /// caches are empty and dirty.
    pub fn new(data: LayerDataTypes, transform: DAffine2, style: PathStyle) -> (l: Layer)
        ensures
            l.visible,
            l.name is None,
            l.data == data,
            l.transform == transform,
            l.style == style,
            l.cache@ == Seq::<char>::empty(),
            l.thumbnail_cache@ == Seq::<char>::empty(),
            l.cache_dirty,
            l.blend_mode == BlendMode::Normal,
            l.opacity == 1000,
    {
        Layer {
            visible: true,
            name: None,
            data,
            transform,
            style,
            cache: String::new(),
            thumbnail_cache: String::new(),
            cache_dirty: true,
            blend_mode: BlendMode::Normal,
            opacity: 1000,
        }
    }

    /// The layer's markup. A hidden layer gives an empty string and keeps its
    /// caches. A visible layer whose cache is dirty first renders its payload
    /// under its own transform and style into `thumbnail_cache`, wraps that in
    /// a compositing group into `cache`, and becomes clean; a clean layer
    /// returns `cache` as it stands.
    pub fn render(&mut self) -> (r: &str)
        ensures
            render_step(*old(self), *final(self), r@),
        decreases *old(self),
    {
        if !self.visible {
            let empty = "";
            proof { reveal_strlit(""); }
            assert(empty@ =~= Seq::<char>::empty());
            return empty;
        }
        if self.cache_dirty {
            self.thumbnail_cache = String::new();
            assert(decreases_to!(*old(self) => old(self).data));
            self.data.render(&mut self.thumbnail_cache, self.transform, self.style);
            let mut c = String::new();
            c.append("<g style=\"mix-blend-mode: ");
            c.append(self.blend_mode.to_svg_style_name());
            c.append("; opacity: ");
            push_thousandths(&mut c, self.opacity);
            c.append("\">");
            c.append(self.thumbnail_cache.as_str());
            c.append("</g>");
            self.cache = c;
            self.cache_dirty = false;
            assert(self.cache@ =~= group_markup(self.blend_mode, self.opacity, self.thumbnail_cache@));
        }
        self.cache.as_str()
    }

    /// Appends what `render` returns.
    pub fn render_on(&mut self, svg: &mut String)
        ensures
            exists|out: Seq<char>|
                #[trigger] render_step(*old(self), *final(self), out) && final(svg)@ == old(svg)@
                    + out,
    {
        let out = self.render();
        svg.append(out);
    }

    /// Records `path` (this layer's path) for every visible leaf at or below
    /// this layer that meets `quad`, given in the parent's coordinates: the
    /// payload is tested against `quad` pulled back through the inverse of
    /// the layer's transform. A hidden layer records nothing.
    pub fn intersects_quad(
        &self,
        quad: [DVec2; 4],
        path: &mut Vec<LayerId>,
        intersections: &mut Vec<Vec<LayerId>>,
    )
        ensures
            final(path)@ == old(path)@,
            paths_view(final(intersections)@) == paths_view(old(intersections)@) + layer_hits(
                *self,
                quad@,
                old(path)@,
            ),
        decreases *self,
    {
        if !self.visible {
            assert(paths_view(intersections@) =~= paths_view(intersections@) + Seq::<Seq<LayerId>>::empty());
            return;
        }
        let inv = inverse(&self.transform);
        let local = [
            transform_point(&inv, quad[0]),
            transform_point(&inv, quad[1]),
            transform_point(&inv, quad[2]),
            transform_point(&inv, quad[3]),
        ];
        assert(local@ =~= pullback(self.transform, quad@));
        assert(decreases_to!(*self => self.data));
        self.data.intersects_quad(local, path, intersections, self.style)
    }

    /// The payload's outline under the layer's own transform.
    pub fn to_kurbo_path(&self) -> (r: BezPath)
        ensures
            r == payload_path(self.data, self.transform),
    {
        self.data.to_kurbo_path(self.transform, self.style)
    }

    /// `bounding_box` under the layer's own transform and style.
    pub fn current_bounding_box(&self) -> (r: Option<[DVec2; 2]>)
        ensures
            box_is(r, layer_box(*self, self.transform)),
    {
        self.bounding_box(self.transform, self.style)
    }

    /// The box around the payload under `transform`: a folder's is the union
    /// of its visible children's (none when none has one); a primitive's is
    /// kurbo's box of its transformed outline (for a polyline or shape without
    /// points, the box of the empty path).
    pub fn bounding_box(&self, transform: DAffine2, style: PathStyle) -> (r: Option<[DVec2; 2]>)
        ensures
            box_is(r, layer_box(*self, transform)),
        decreases *self,
    {
        match &self.data {
            LayerDataTypes::Folder(f) => {
                assert(decreases_to!(*self => self.data));
                f.bounding_box(transform)
            },
            _ => Some(self.data.bounding_box(transform, style)),
        }
    }

    /// The payload as a folder.
    pub fn as_folder(&self) -> (r: Result<&Folder, DocumentError>)
        ensures
            r is Ok <==> self.data is Folder,
            r is Ok ==> *r->Ok_0 == self.data->Folder_0,
            r is Err ==> r->Err_0 == DocumentError::NotAFolder,
    {
        match &self.data {
            LayerDataTypes::Folder(f) => Ok(f),
            _ => Err(DocumentError::NotAFolder),
        }
    }

    /// The payload as a folder, to change it.
    pub fn as_folder_mut(&mut self) -> (r: Result<&mut Folder, DocumentError>)
        ensures
            r is Ok <==> old(self).data is Folder,
            r is Ok ==> *r->Ok_0 == old(self).data->Folder_0,
            r is Ok ==> *final(self) == (Layer { data: LayerDataTypes::Folder(*final(r->Ok_0)), ..*old(self) }),
            r is Err ==> r->Err_0 == DocumentError::NotAFolder && *final(self) == *old(self),
    {
        match &mut self.data {
            LayerDataTypes::Folder(f) => Ok(f),
            _ => Err(DocumentError::NotAFolder),
        }
    }

    /// When the payload is a folder, appends its markup under the layer's
    /// transform and style, bypassing the layer's own cache and visibility
    /// (which stay as they were); fails with `NotAFolder` otherwise.
    pub fn render_as_folder(&mut self, svg: &mut String) -> (r: Result<(), DocumentError>)
        ensures
            r is Err <==> !(old(self).data is Folder),
            r is Err ==> r->Err_0 == DocumentError::NotAFolder && *final(self) == *old(self)
                && final(svg)@ == old(svg)@,
            r is Ok ==> final(self).data is Folder && *final(self) == (Layer {
                data: final(self).data,
                ..*old(self)
            }) && final(self).data->Folder_0.layer_ids == old(self).data->Folder_0.layer_ids
                && exists|outs: Seq<Seq<char>>|
                children_rendered(
                    old(self).data->Folder_0.layers@,
                    final(self).data->Folder_0.layers@,
                    outs,
                ) && final(svg)@ == old(svg)@ + #[trigger] folder_markup(
                    matrix_text(old(self).transform),
                    outs,
                ),
    {
        if let LayerDataTypes::Folder(f) = &mut self.data {
            f.render(svg, self.transform, self.style);
            Ok(())
        } else {
            Err(DocumentError::NotAFolder)
        }
    }

    /// Replaces the transform and marks the caches dirty.
    pub fn set_transform(&mut self, transform: DAffine2)
        ensures
            *final(self) == (Layer { transform, cache_dirty: true, ..*old(self) }),
    {
        self.transform = transform;
        self.cache_dirty = true;
    }

    /// Replaces the style and marks the caches dirty.
    pub fn set_style(&mut self, style: PathStyle)
        ensures
            *final(self) == (Layer { style, cache_dirty: true, ..*old(self) }),
    {
        self.style = style;
        self.cache_dirty = true;
    }

    /// Replaces the blend mode and marks the caches dirty.
    pub fn set_blend_mode(&mut self, blend_mode: BlendMode)
        ensures
            *final(self) == (Layer { blend_mode, cache_dirty: true, ..*old(self) }),
    {
        self.blend_mode = blend_mode;
        self.cache_dirty = true;
    }

    /// Replaces the opacity (in thousandths) and marks the caches dirty.
    pub fn set_opacity(&mut self, opacity: u32)
        ensures
            *final(self) == (Layer { opacity, cache_dirty: true, ..*old(self) }),
    {
        self.opacity = opacity;
        self.cache_dirty = true;
    }

    /// Replaces the payload and marks the caches dirty.
    pub fn set_data(&mut self, data: LayerDataTypes)
        ensures
            *final(self) == (Layer { data, cache_dirty: true, ..*old(self) }),
    {
        self.data = data;
        self.cache_dirty = true;
    }
}

/// What every payload offers: markup, an outline, and a hit-test.
pub trait LayerData {
    /// Appends the payload's markup under `transform` and `style`.
    fn render(&mut self, svg: &mut String, transform: DAffine2, style: PathStyle);

    /// The payload's outline under `transform`.
    fn to_kurbo_path(&self, transform: DAffine2, style: PathStyle) -> BezPath;

    /// Records, under `path`, what of the payload meets `quad` (given in the
    /// payload's own coordinates).
    fn intersects_quad(
        &self,
        quad: [DVec2; 4],
        path: &mut Vec<LayerId>,
        intersections: &mut Vec<Vec<LayerId>>,
        style: PathStyle,
    )
        ensures
            final(path)@ == old(path)@,
    ;
}

impl LayerData for Folder {
    fn render(&mut self, svg: &mut String, transform: DAffine2, style: PathStyle) {
        Folder::render(self, svg, transform, style)
    }

    fn to_kurbo_path(&self, transform: DAffine2, style: PathStyle) -> BezPath {
        Folder::to_kurbo_path(self, transform, style)
    }

    fn intersects_quad(
        &self,
        quad: [DVec2; 4],
        path: &mut Vec<LayerId>,
        intersections: &mut Vec<Vec<LayerId>>,
        style: PathStyle,
    ) {
        Folder::intersects_quad(self, quad, path, intersections, style)
    }
}

impl LayerData for Ellipse {
    fn render(&mut self, svg: &mut String, transform: DAffine2, style: PathStyle) {
        Ellipse::render(self, svg, transform, style)
    }

    fn to_kurbo_path(&self, transform: DAffine2, style: PathStyle) -> BezPath {
        Ellipse::to_kurbo_path(self, transform, style)
    }

    fn intersects_quad(
        &self,
        quad: [DVec2; 4],
        path: &mut Vec<LayerId>,
        intersections: &mut Vec<Vec<LayerId>>,
        style: PathStyle,
    ) {
        Ellipse::intersects_quad(self, quad, path, intersections, style)
    }
}

impl LayerData for Rect {
    fn render(&mut self, svg: &mut String, transform: DAffine2, style: PathStyle) {
        Rect::render(self, svg, transform, style)
    }

    fn to_kurbo_path(&self, transform: DAffine2, style: PathStyle) -> BezPath {
        Rect::to_kurbo_path(self, transform, style)
    }

    fn intersects_quad(
        &self,
        quad: [DVec2; 4],
        path: &mut Vec<LayerId>,
        intersections: &mut Vec<Vec<LayerId>>,
        style: PathStyle,
    ) {
        Rect::intersects_quad(self, quad, path, intersections, style)
    }
}

impl LayerData for Line {
    fn render(&mut self, svg: &mut String, transform: DAffine2, style: PathStyle) {
        Line::render(self, svg, transform, style)
    }

    fn to_kurbo_path(&self, transform: DAffine2, style: PathStyle) -> BezPath {
        Line::to_kurbo_path(self, transform, style)
    }

    fn intersects_quad(
        &self,
        quad: [DVec2; 4],
        path: &mut Vec<LayerId>,
        intersections: &mut Vec<Vec<LayerId>>,
        style: PathStyle,
    ) {
        Line::intersects_quad(self, quad, path, intersections, style)
    }
}

impl LayerData for PolyLine {
    fn render(&mut self, svg: &mut String, transform: DAffine2, style: PathStyle) {
        PolyLine::render(self, svg, transform, style)
    }

    fn to_kurbo_path(&self, transform: DAffine2, style: PathStyle) -> BezPath {
        PolyLine::to_kurbo_path(self, transform, style)
    }

    fn intersects_quad(
        &self,
        quad: [DVec2; 4],
        path: &mut Vec<LayerId>,
        intersections: &mut Vec<Vec<LayerId>>,
        style: PathStyle,
    ) {
        PolyLine::intersects_quad(self, quad, path, intersections, style)
    }
}

impl LayerData for Shape {
    fn render(&mut self, svg: &mut String, transform: DAffine2, style: PathStyle) {
        Shape::render(self, svg, transform, style)
    }

    fn to_kurbo_path(&self, transform: DAffine2, style: PathStyle) -> BezPath {
        Shape::to_kurbo_path(self, transform, style)
    }

    fn intersects_quad(
        &self,
        quad: [DVec2; 4],
        path: &mut Vec<LayerId>,
        intersections: &mut Vec<Vec<LayerId>>,
        style: PathStyle,
    ) {
        Shape::intersects_quad(self, quad, path, intersections, style)
    }
}

} // verus!
