//! The floating-point geometry that glam and kurbo compute for the document:
//! the outside types are carried through opaquely, each call into those
//! crates stands in one small function below, and what a call returns is
//! named by a spec function of its arguments.
use vstd::prelude::*;
use glam::{DAffine2, DVec2};
use kurbo::{BezPath, PathSeg};
use kurbo::{ParamCurve, Shape as KurboShape};

verus! {

/// A 2D affine map (2x2 linear part and a translation), from glam.
#[verifier::external_type_specification]
#[verifier::external_body]
pub struct ExDAffine2(glam::DAffine2);

/// A 2D point or vector, from glam.
#[verifier::external_type_specification]
#[verifier::external_body]
pub struct ExDVec2(glam::DVec2);

/// A path of line and Bezier segments, from kurbo.
#[verifier::external_type_specification]
#[verifier::external_body]
pub struct ExBezPath(kurbo::BezPath);

/// One segment of a kurbo path.
#[verifier::external_type_specification]
#[verifier::external_body]
pub struct ExPathSeg(kurbo::PathSeg);

/// One element of a kurbo path.
#[verifier::external_type_specification]
#[verifier::external_body]
pub struct ExPathEl(kurbo::PathEl);

/// The kind of one element of a kurbo path.
#[derive(Debug, Clone, Copy, PartialEq, Eq, Structural)]
pub enum PathStep {
    MoveTo,
    LineTo,
    QuadTo,
    CurveTo,
    ClosePath,
}

/// The kinds of the elements a path holds, in order.
pub uninterp spec fn steps_of(path: BezPath) -> Seq<PathStep>;

/// kurbo can split the path into segments: it does not begin with a close
/// (kurbo's segment iterator panics on that).
pub open spec fn well_started(path: BezPath) -> bool {
    steps_of(path).len() == 0 || steps_of(path)[0] != PathStep::ClosePath
}

/// The path holding exactly the elements `els`, in order.
pub uninterp spec fn from_elements_of(els: Seq<kurbo::PathEl>) -> BezPath;

/// The path with no element.
pub open spec fn empty_outline() -> BezPath {
    from_elements_of(Seq::empty())
}

/// The inverse of an affine map.
pub uninterp spec fn inverse_of(t: DAffine2) -> DAffine2;

/// The image of a point under an affine map.
pub uninterp spec fn apply_of(t: DAffine2, p: DVec2) -> DVec2;

/// The map that applies `inner`, then `outer`.
pub uninterp spec fn compose_of(outer: DAffine2, inner: DAffine2) -> DAffine2;

/// The decimal text of the `i`-th coefficient (column order) of an affine map.
pub uninterp spec fn entry_text_of(t: DAffine2, i: int) -> Seq<char>;

/// The componentwise minimum of two vectors.
pub uninterp spec fn min_of(a: DVec2, b: DVec2) -> DVec2;

/// The componentwise maximum of two vectors.
pub uninterp spec fn max_of(a: DVec2, b: DVec2) -> DVec2;

/// kurbo's outline of the axis-aligned rectangle with corners `p0`, `p1`.
pub uninterp spec fn rect_outline_of(p0: DVec2, p1: DVec2) -> BezPath;

/// kurbo's outline of the ellipse inscribed in that rectangle.
pub uninterp spec fn ellipse_outline_of(p0: DVec2, p1: DVec2) -> BezPath;

/// kurbo's outline of the segment from `p0` to `p1`.
pub uninterp spec fn line_outline_of(p0: DVec2, p1: DVec2) -> BezPath;

/// The path made of one move to `p`.
pub uninterp spec fn started_of(p: DVec2) -> BezPath;

/// `path` followed by a straight segment to `p`.
pub uninterp spec fn lined_of(path: BezPath, p: DVec2) -> BezPath;

/// `path` followed by a close.
pub uninterp spec fn closed_of(path: BezPath) -> BezPath;

/// `path` mapped through `t`.
pub uninterp spec fn transformed_of(path: BezPath, t: DAffine2) -> BezPath;

/// The SVG path data of a path.
pub uninterp spec fn svg_of(path: BezPath) -> Seq<char>;

/// The lower and upper corner of kurbo's bounding box of a path.
pub uninterp spec fn bounds_of(path: BezPath) -> (DVec2, DVec2);

/// Whether a point lies inside a path (non-zero winding).
pub uninterp spec fn contains_of(path: BezPath, p: DVec2) -> bool;

/// The segments of a path, in order.
pub uninterp spec fn segments_of(path: BezPath) -> Seq<PathSeg>;

/// Whether kurbo finds a crossing of the segment with the straight segment
/// from `a` to `b` (a segment parallel to it counts as no crossing).
pub uninterp spec fn meets_of(seg: PathSeg, a: DVec2, b: DVec2) -> bool;

/// The first point of a segment.
pub uninterp spec fn start_of(seg: PathSeg) -> DVec2;

/// Relies on glam's derived `Clone` for `DVec2` (a `Copy` type): a copy.
/// Needed by the derived `Clone` of the primitives.
pub assume_specification[ <glam::DVec2 as Clone>::clone ](p: &glam::DVec2) -> (r: glam::DVec2)
    ensures
        r == *p,
;

/// Relies on glam's derived `Clone` for `DAffine2` (a `Copy` type): a copy.
pub assume_specification[ <glam::DAffine2 as Clone>::clone ](t: &glam::DAffine2) -> (r: glam::DAffine2)
    ensures
        r == *t,
;

/// Relies on glam's `DAffine2::IDENTITY`.
#[verifier::external_body]
pub(crate) fn identity() -> DAffine2 {
    DAffine2::IDENTITY
}

/// Relies on glam's `DAffine2::inverse` (no panic; a singular map gives a
/// non-finite result).
#[verifier::external_body]
pub(crate) fn inverse(t: &DAffine2) -> (r: DAffine2)
    ensures
        r == inverse_of(*t),
{
    t.inverse()
}

/// Relies on glam's `DAffine2::transform_point2`.
#[verifier::external_body]
pub(crate) fn transform_point(t: &DAffine2, p: DVec2) -> (r: DVec2)
    ensures
        r == apply_of(*t, p),
{
    t.transform_point2(p)
}

/// Relies on glam's `Mul` for `DAffine2`: the map that applies `inner`, then `outer`.
#[verifier::external_body]
pub(crate) fn compose(outer: &DAffine2, inner: &DAffine2) -> (r: DAffine2)
    ensures
        r == compose_of(*outer, *inner),
{
    *outer * *inner
}

/// Relies on glam's `DAffine2::to_cols_array` and on the `Display` of the
/// `i`-th coefficient.
#[verifier::external_body]
pub(crate) fn entry_text(t: &DAffine2, i: usize) -> (r: String)
    requires
        i < 6,
    ensures
        r@ == entry_text_of(*t, i as int),
{
    t.to_cols_array()[i].to_string()
}

/// Relies on glam's `DVec2::min`: the componentwise minimum.
#[verifier::external_body]
pub(crate) fn min_point(a: DVec2, b: DVec2) -> (r: DVec2)
    ensures
        r == min_of(a, b),
{
    a.min(b)
}

/// Relies on glam's `DVec2::max`: the componentwise maximum.
#[verifier::external_body]
pub(crate) fn max_point(a: DVec2, b: DVec2) -> (r: DVec2)
    ensures
        r == max_of(a, b),
{
    a.max(b)
}

/// Relies on kurbo's `Rect::from_points` and its `Shape::to_path`, whose
/// elements begin with a move.
#[verifier::external_body]
pub(crate) fn rect_path(p0: DVec2, p1: DVec2) -> (r: BezPath)
    ensures
        r == rect_outline_of(p0, p1),
        steps_of(r).len() > 0 && steps_of(r)[0] == PathStep::MoveTo,
{
    kurbo::Rect::from_points(kurbo::Point::new(p0.x, p0.y), kurbo::Point::new(p1.x, p1.y)).to_path(kurbo::DEFAULT_ACCURACY)
}

/// Relies on kurbo's `Ellipse::from_rect` and its `Shape::to_path`: the ellipse
/// inscribed in the rectangle with corners `p0` and `p1`; its elements begin
/// with a move.
#[verifier::external_body]
pub(crate) fn ellipse_path(p0: DVec2, p1: DVec2) -> (r: BezPath)
    ensures
        r == ellipse_outline_of(p0, p1),
        steps_of(r).len() > 0 && steps_of(r)[0] == PathStep::MoveTo,
{
    let rect = kurbo::Rect::from_points(kurbo::Point::new(p0.x, p0.y), kurbo::Point::new(p1.x, p1.y));
    kurbo::Ellipse::from_rect(rect).to_path(kurbo::DEFAULT_ACCURACY)
}

/// Relies on kurbo's `Line::new` and its `Shape::to_path`, which begins with a move.
#[verifier::external_body]
pub(crate) fn line_path(p0: DVec2, p1: DVec2) -> (r: BezPath)
    ensures
        r == line_outline_of(p0, p1),
        steps_of(r).len() > 0 && steps_of(r)[0] == PathStep::MoveTo,
{
    kurbo::Line::new(kurbo::Point::new(p0.x, p0.y), kurbo::Point::new(p1.x, p1.y)).to_path(kurbo::DEFAULT_ACCURACY)
}

/// Relies on kurbo's `BezPath::from_vec`: the path holding exactly `els`.
#[verifier::external_body]
pub(crate) fn path_from_elements(els: Vec<kurbo::PathEl>) -> (r: BezPath)
    ensures
        r == from_elements_of(els@),
        els@.len() == 0 ==> steps_of(r) == Seq::<PathStep>::empty(),
{
    BezPath::from_vec(els)
}

/// The path with no element.
pub(crate) fn empty_path() -> (r: BezPath)
    ensures
        r == empty_outline(),
        steps_of(r) == Seq::<PathStep>::empty(),
{
    let els: Vec<kurbo::PathEl> = Vec::new();
    path_from_elements(els)
}

/// Relies on kurbo's `BezPath::from_vec`: the path of one move to `p`.
#[verifier::external_body]
pub(crate) fn start_path(p: DVec2) -> (r: BezPath)
    ensures
        r == started_of(p),
        steps_of(r) == seq![PathStep::MoveTo],
{
    BezPath::from_vec(vec![kurbo::PathEl::MoveTo(kurbo::Point::new(p.x, p.y))])
}

/// Relies on kurbo's `BezPath::line_to`: pushes a straight segment to `p`.
#[verifier::external_body]
pub(crate) fn path_line_to(path: &mut BezPath, p: DVec2)
    ensures
        *final(path) == lined_of(*old(path), p),
        steps_of(*final(path)) == steps_of(*old(path)).push(PathStep::LineTo),
{
    path.line_to(kurbo::Point::new(p.x, p.y))
}

/// Relies on kurbo's `BezPath::close_path`: pushes a close.
#[verifier::external_body]
pub(crate) fn path_close(path: &mut BezPath)
    requires
        steps_of(*old(path)).len() > 0,
    ensures
        *final(path) == closed_of(*old(path)),
        steps_of(*final(path)) == steps_of(*old(path)).push(PathStep::ClosePath),
{
    path.close_path()
}

/// Relies on kurbo's `BezPath::apply_affine`: each element mapped through
/// `t`, keeping its kind.
#[verifier::external_body]
pub(crate) fn transformed_path(path: BezPath, t: &DAffine2) -> (r: BezPath)
    ensures
        r == transformed_of(path, *t),
        steps_of(r) == steps_of(path),
{
    let mut path = path;
    path.apply_affine(kurbo::Affine::new(t.to_cols_array()));
    path
}

/// Relies on kurbo's `BezPath::to_svg`: the path as SVG path data.
#[verifier::external_body]
pub(crate) fn path_svg(path: &BezPath) -> (r: String)
    ensures
        r@ == svg_of(*path),
{
    path.to_svg()
}

/// Relies on kurbo's `Shape::bounding_box` for `BezPath`: its lower and upper corner.
#[verifier::external_body]
pub(crate) fn path_bounds(path: &BezPath) -> (r: [DVec2; 2])
    requires
        well_started(*path),
    ensures
        r[0] == bounds_of(*path).0,
        r[1] == bounds_of(*path).1,
{
    let b = path.bounding_box();
    [DVec2::new(b.x0, b.y0), DVec2::new(b.x1, b.y1)]
}

/// Relies on kurbo's `Shape::contains` for `BezPath` (non-zero winding).
#[verifier::external_body]
pub(crate) fn path_contains(path: &BezPath, p: DVec2) -> (r: bool)
    requires
        well_started(*path),
    ensures
        r == contains_of(*path, p),
{
    path.contains(kurbo::Point::new(p.x, p.y))
}

/// Relies on kurbo's `BezPath::segments`, collected in order.
#[verifier::external_body]
pub(crate) fn path_segments(path: &BezPath) -> (r: Vec<PathSeg>)
    requires
        well_started(*path),
    ensures
        r@ == segments_of(*path),
{
    path.segments().collect()
}

/// Relies on kurbo's `PathSeg::intersect_line`: whether the segment meets the
/// line segment from `a` to `b`.
#[verifier::external_body]
pub(crate) fn segment_meets(seg: &PathSeg, a: DVec2, b: DVec2) -> (r: bool)
    ensures
        r == meets_of(*seg, a, b),
{
    !seg.intersect_line(kurbo::Line::new(kurbo::Point::new(a.x, a.y), kurbo::Point::new(b.x, b.y))).is_empty()
}

/// Relies on kurbo's `ParamCurve::start` for `PathSeg`.
#[verifier::external_body]
pub(crate) fn segment_start(seg: &PathSeg) -> (r: DVec2)
    ensures
        r == start_of(*seg),
{
    let p = seg.start();
    DVec2::new(p.x, p.y)
}

} // verus!
