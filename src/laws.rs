//! Properties of rendering that hold across calls.
use vstd::prelude::*;
use crate::layers::{
    Layer, LayerDataTypes, render_step, group_markup, path_element, local_outline, layer_hits,
    quad_meets, pullback, children_box,
};
use crate::LayerId;
use crate::blend::blend_keyword;
use crate::markup::thousandths_text;
use crate::style::style_attributes;
use crate::geometry::{svg_of, transformed_of, contains_of, apply_of, inverse_of, rect_outline_of, bounds_of, compose_of, min_of, max_of};
use glam::DVec2;
use glam::DAffine2;

verus! {

/// Rendering a layer twice with no change in between returns the same
/// markup both times, and the second call changes nothing (it recomputes
/// nothing).
pub proof fn render_twice_is_stable(
    l0: Layer,
    l1: Layer,
    out1: Seq<char>,
    l2: Layer,
    out2: Seq<char>,
)
    requires
        render_step(l0, l1, out1),
        render_step(l1, l2, out2),
    ensures
        out2 == out1,
        l2 == l1,
{
}

/// A hidden layer with a clean cache renders to nothing and keeps its cache
/// and its clean state; made visible again, it returns that same cache
/// without recomputing.
pub proof fn hidden_layer_keeps_cache(
    l0: Layer,
    l1: Layer,
    out1: Seq<char>,
    l2: Layer,
    out2: Seq<char>,
)
    requires
        !l0.visible,
        !l0.cache_dirty,
        render_step(l0, l1, out1),
        render_step(Layer { visible: true, ..l1 }, l2, out2),
    ensures
        out1 == Seq::<char>::empty(),
        l1 == l0,
        out2 == l0.cache@,
        l2 == (Layer { visible: true, ..l0 }),
        !l2.cache_dirty,
{
}

/// Rendering a visible layer leaves it clean, returning its cache; once
/// marked dirty again (after a change of transform, say), the next render
/// rebuilds the cache around a freshly rendered payload and leaves it clean.
pub proof fn dirty_flag_round_trip(
    l0: Layer,
    l1: Layer,
    out1: Seq<char>,
    l2: Layer,
    out2: Seq<char>,
)
    requires
        l0.visible,
        render_step(l0, l1, out1),
        render_step(Layer { cache_dirty: true, ..l1 }, l2, out2),
    ensures
        !l1.cache_dirty,
        out1 == l1.cache@,
        !l2.cache_dirty,
        l2.transform == l1.transform,
        l2.cache@ == group_markup(l1.blend_mode, l1.opacity, l2.thumbnail_cache@),
        out2 == l2.cache@,
{
}

proof fn lemma_middle_eq(a: Seq<char>, x: Seq<char>, y: Seq<char>, b: Seq<char>)
    requires
        a + x + b == a + y + b,
    ensures
        x == y,
{
    assert((a + x).len() == a.len() + x.len());
    assert((a + x + b).len() == (a + x).len() + b.len());
    assert((a + y).len() == a.len() + y.len());
    assert((a + y + b).len() == (a + y).len() + b.len());
    assert(x.len() == y.len());
    assert(x =~= (a + x + b).subrange(a.len() as int, (a.len() + x.len()) as int));
    assert(y =~= (a + y + b).subrange(a.len() as int, (a.len() + y.len()) as int));
}

/// After a primitive layer is rendered, moved to a transform under which
/// kurbo writes its outline differently, and marked dirty, the next render
/// returns different markup.
pub proof fn moved_primitive_renders_differently(
    l0: Layer,
    l1: Layer,
    out1: Seq<char>,
    t2: DAffine2,
    l2: Layer,
    out2: Seq<char>,
)
    requires
        l0.visible,
        l0.cache_dirty,
        !(l0.data is Folder),
        render_step(l0, l1, out1),
        render_step(Layer { transform: t2, cache_dirty: true, ..l1 }, l2, out2),
        svg_of(transformed_of(local_outline(l0.data), l0.transform)) != svg_of(
            transformed_of(local_outline(l0.data), t2),
        ),
    ensures
        out1 != out2,
{
    let x = svg_of(transformed_of(local_outline(l0.data), l0.transform));
    let y = svg_of(transformed_of(local_outline(l0.data), t2));
    let ga = "<g style=\"mix-blend-mode: "@ + blend_keyword(l0.blend_mode) + "; opacity: "@
        + thousandths_text(l0.opacity as nat) + "\">"@;
    let pa = "<path d=\""@;
    let pb = "\""@ + style_attributes(l0.style) + " />"@;
    assert(path_element(x, l0.style) =~= pa + x + pb);
    assert(path_element(y, l0.style) =~= pa + y + pb);
    assert(out1 =~= ga + path_element(x, l0.style) + "</g>"@);
    assert(out2 =~= ga + path_element(y, l0.style) + "</g>"@);
    if out1 == out2 {
        lemma_middle_eq(ga, path_element(x, l0.style), path_element(y, l0.style), "</g>"@);
        lemma_middle_eq(pa, x, y, pb);
    }
}

/// A visible rectangle layer records its path for a quad whose first
/// corner, pulled back through the layer's transform, kurbo places inside the
/// rectangle (as for a quad lying inside it).
pub proof fn rect_hit_when_corner_inside(l: Layer, quad: Seq<DVec2>, path: Seq<LayerId>)
    requires
        l.visible,
        l.data is Rect,
        quad.len() == 4,
        contains_of(
            rect_outline_of(l.data->Rect_0.p0, l.data->Rect_0.p1),
            apply_of(inverse_of(l.transform), quad[0]),
        ),
    ensures
        layer_hits(l, quad, path) == seq![path],
{
    assert(pullback(l.transform, quad)[0] == apply_of(inverse_of(l.transform), quad[0]));
}

/// A visible rectangle layer records nothing for a quad that, pulled back
/// through the layer's transform, does not meet the rectangle (as for a quad
/// lying wholly outside it).
pub proof fn rect_miss_when_apart(l: Layer, quad: Seq<DVec2>, path: Seq<LayerId>)
    requires
        l.visible,
        l.data is Rect,
        !quad_meets(
            pullback(l.transform, quad),
            rect_outline_of(l.data->Rect_0.p0, l.data->Rect_0.p1),
            true,
        ),
    ensures
        layer_hits(l, quad, path) == Seq::<Seq<LayerId>>::empty(),
{
}

/// The box of two visible primitive children is the componentwise minimum of
/// their lower corners and maximum of their upper corners.
pub proof fn two_children_box_union(a: Layer, b: Layer, t: DAffine2)
    requires
        a.visible,
        b.visible,
        !(a.data is Folder),
        !(b.data is Folder),
    ensures
        children_box(seq![a, b], t) == Some((
            min_of(
                bounds_of(transformed_of(local_outline(a.data), compose_of(t, a.transform))).0,
                bounds_of(transformed_of(local_outline(b.data), compose_of(t, b.transform))).0,
            ),
            max_of(
                bounds_of(transformed_of(local_outline(a.data), compose_of(t, a.transform))).1,
                bounds_of(transformed_of(local_outline(b.data), compose_of(t, b.transform))).1,
            ),
        )),
{
    let s = seq![a, b];
    assert(s.subrange(0, 1) =~= seq![a]);
    assert(seq![a].subrange(0, 0) =~= Seq::<Layer>::empty());
    reveal_with_fuel(children_box, 3);
}

} // verus!
