use vstd::prelude::*;
use crate::bounds::{bounding_box_spec, calls_points, lemma_calls_points_concat};
use crate::export::{children_calls, no_style, shape_calls, Call};
use crate::geometry::{
    compose_spec, lemma_apply_mul, lemma_bbox_concat, lemma_mul_associative, quarter_turn,
    union_opt, Affine, Point, Rect, Transform, UNIT,
};
use crate::position::{
    ellipse_keypoints, lemma_resolve_keypoints_index, pt, resolve_curve_spec, resolve_keypoint,
    resolve_keypoints, GeometryError, NEG_UNIT,
};
use crate::shape::{merge_spec, Ellipse, Group, Keypoint, Shape, Style};

verus! {

/// The callbacks of the first `n` children are those of the first `n - 1`
/// followed by those of child `n - 1`.
pub proof fn lemma_children_last(ss: Seq<Shape>, n: int, t: Transform, native: bool, inherited: Style)
    requires
        0 < n <= ss.len(),
        children_calls(ss, n, t, native, inherited) is Ok,
    ensures
        children_calls(ss, n - 1, t, native, inherited) is Ok,
        shape_calls(ss[n - 1], t, native, inherited) is Ok,
        children_calls(ss, n, t, native, inherited)->Ok_0 == children_calls(ss, n - 1, t, native, inherited)->Ok_0
            + shape_calls(ss[n - 1], t, native, inherited)->Ok_0,
{
}

/// No children, no callbacks.
pub proof fn lemma_children_none(ss: Seq<Shape>, t: Transform, native: bool, inherited: Style)
    ensures
        children_calls(ss, 0, t, native, inherited) == Ok::<Seq<Call>, GeometryError>(Seq::empty()),
{
}

/// Nested transforms compose from the root down: a point of a curve with
/// local transform `t`, in a group with transform `b`, exported under `a`,
/// lands at `(a * b * t) p`, however the product is bracketed. (A closed
/// curve of fewer than two keypoints draws nothing and is left out.)
pub proof fn lemma_nested_transforms(a: Transform, b: Transform, g: Group, native: bool, inherited: Style)
    requires
        g.local_transform == b,
        g.shapes@.len() == 1,
        g.shapes@[0] is Curve,
        !g.shapes@[0]->Curve_0.closed || g.shapes@[0]->Curve_0.keypoints@.len() >= 2,
        shape_calls(Shape::Group(g), a, native, inherited) is Ok,
    ensures
        ({
            let c = g.shapes@[0]->Curve_0;
            let cs = shape_calls(Shape::Group(g), a, native, inherited)->Ok_0;
            &&& cs.len() == 1
            &&& cs[0] is Curve
            &&& cs[0]->Curve_0.keypoints.len() == c.keypoints@.len()
            &&& forall|i: int|
                0 <= i < c.keypoints@.len() && #[trigger] c.keypoints@[i] is Point ==> {
                    &&& cs[0]->Curve_0.keypoints[i] is Point
                    &&& cs[0]->Curve_0.keypoints[i]->Point_0@ == a@.mul(b@).mul(c.local_transform@).apply(
                        c.keypoints@[i]->Point_0@,
                    )
                    &&& cs[0]->Curve_0.keypoints[i]->Point_0@ == a@.mul(b@.mul(c.local_transform@)).apply(
                        c.keypoints@[i]->Point_0@,
                    )
                    &&& cs[0]->Curve_0.keypoints[i]->Point_0@ == a@.apply(
                        b@.apply(c.local_transform@.apply(c.keypoints@[i]->Point_0@)),
                    )
                }
        }),
{
    let c = g.shapes@[0]->Curve_0;
    let ab = compose_spec(a, b)->Some_0;
    let abt = compose_spec(ab, c.local_transform)->Some_0;
    lemma_children_last(g.shapes@, 1, ab, native, inherited);
    lemma_children_none(g.shapes@, ab, native, inherited);
    let cs = shape_calls(Shape::Group(g), a, native, inherited)->Ok_0;
    assert(cs =~= shape_calls(g.shapes@[0], ab, native, inherited)->Ok_0);
    lemma_resolve_keypoints_index(abt, c.keypoints@);
    lemma_mul_associative(a@, b@, c.local_transform@);
    assert(cs =~= seq![Call::Curve(resolve_curve_spec(ab, c.local_transform, c.keypoints@, c.closed)->Ok_0)]);
    assert forall|i: int|
        0 <= i < c.keypoints@.len() && #[trigger] c.keypoints@[i] is Point implies {
            &&& cs[0]->Curve_0.keypoints[i] is Point
            &&& cs[0]->Curve_0.keypoints[i]->Point_0@ == a@.mul(b@).mul(c.local_transform@).apply(
                c.keypoints@[i]->Point_0@,
            )
            &&& cs[0]->Curve_0.keypoints[i]->Point_0@ == a@.apply(
                b@.apply(c.local_transform@.apply(c.keypoints@[i]->Point_0@)),
            )
        } by {
        let p = c.keypoints@[i]->Point_0;
        assert(resolve_keypoint(abt, c.keypoints@[i]) == Some(cs[0]->Curve_0.keypoints[i]));
        lemma_apply_mul(a@.mul(b@), c.local_transform@, p@);
        lemma_apply_mul(a@, b@, c.local_transform@.apply(p@));
    }
}

/// Composition depends on the order: translating then turning is not
/// turning then translating.
pub proof fn lemma_composition_not_commutative()
    ensures
        ({
            let shift = Affine { a: 1, b: 0, c: 0, d: 1, tx: 1, ty: 0 };
            let turn = quarter_turn(1);
            shift.mul(turn) != turn.mul(shift)
        }),
{
    let shift = Affine { a: 1, b: 0, c: 0, d: 1, tx: 1, ty: 0 };
    let turn = quarter_turn(1);
    assert(shift.mul(turn).tx == 1);
    assert(turn.mul(shift).tx == 0);
}

/// The box of a two-shape group without a transform of its own is the union
/// of the boxes of its shapes.
pub proof fn lemma_bounding_box_union(g: Group)
    requires
        g.local_transform == (Transform { a: 1, b: 0, c: 0, d: 1, tx: 0, ty: 0 }),
        g.shapes@.len() == 2,
        bounding_box_spec(g.shapes@[0]) is Ok,
        bounding_box_spec(g.shapes@[1]) is Ok,
    ensures
        bounding_box_spec(Shape::Group(g)) == Ok::<Option<Rect>, GeometryError>(
            union_opt(
                bounding_box_spec(g.shapes@[0])->Ok_0,
                bounding_box_spec(g.shapes@[1])->Ok_0,
            ),
        ),
{
    let id = Transform { a: 1, b: 0, c: 0, d: 1, tx: 0, ty: 0 };
    assert(compose_spec(id, id) == Some(id));
    let ss = g.shapes@;
    lemma_children_none(ss, id, false, no_style());
    assert(shape_calls(ss[0], id, false, no_style()) is Ok);
    assert(shape_calls(ss[1], id, false, no_style()) is Ok);
    assert(children_calls(ss, 1, id, false, no_style()) is Ok);
    assert(children_calls(ss, 2, id, false, no_style()) is Ok);
    lemma_children_last(ss, 2, id, false, no_style());
    lemma_children_last(ss, 1, id, false, no_style());
    let c0 = shape_calls(ss[0], id, false, no_style())->Ok_0;
    let c1 = shape_calls(ss[1], id, false, no_style())->Ok_0;
    assert(Seq::<Call>::empty() + c0 =~= c0);
    let cs = shape_calls(Shape::Group(g), id, false, no_style())->Ok_0;
    assert(cs == c0 + c1);
    lemma_calls_points_concat(c0, c1);
    lemma_bbox_concat(calls_points(c0), calls_points(c1));
}

/// The style a backend has in force after a sequence of callbacks, when
/// each end of a style restores the default.
pub open spec fn draw_state(cs: Seq<Call>) -> Style
    decreases cs.len(),
{
    if cs.len() == 0 {
        no_style()
    } else {
        match cs.last() {
            Call::StartStyle(s) => s,
            Call::EndStyle => no_style(),
            _ => draw_state(cs.drop_last()),
        }
    }
}

/// A style wraps only its own shape: in a group of a styled shape followed
/// by another shape, the style's start and end bracket exactly the styled
/// shape's callbacks, and the next shape begins with the default style in
/// force and resolves without the style.
pub proof fn lemma_style_locality(g: Group, parent: Transform, native: bool)
    requires
        g.shapes@.len() == 2,
        g.shapes@[0] is Style,
        shape_calls(Shape::Group(g), parent, native, no_style()) is Ok,
    ensures
        ({
            let st = g.shapes@[0]->Style_0;
            let t = compose_spec(parent, g.local_transform)->Some_0;
            let m = merge_spec(st.style, no_style());
            let ca = shape_calls(*st.shape, t, native, m)->Ok_0;
            let cb = shape_calls(g.shapes@[1], t, native, no_style())->Ok_0;
            let cs = shape_calls(Shape::Group(g), parent, native, no_style())->Ok_0;
            &&& m == st.style
            &&& cs == seq![Call::StartStyle(st.style)] + ca + seq![Call::EndStyle] + cb
            &&& draw_state(seq![Call::StartStyle(st.style)] + ca + seq![Call::EndStyle]) == no_style()
        }),
{
    let st = g.shapes@[0]->Style_0;
    let t = compose_spec(parent, g.local_transform)->Some_0;
    let ss = g.shapes@;
    lemma_children_last(ss, 2, t, native, no_style());
    lemma_children_last(ss, 1, t, native, no_style());
    lemma_children_none(ss, t, native, no_style());
    let c0 = shape_calls(ss[0], t, native, no_style())->Ok_0;
    assert(Seq::<Call>::empty() + c0 =~= c0);
    let m = merge_spec(st.style, no_style());
    let ca = shape_calls(*st.shape, t, native, m)->Ok_0;
    assert(m == st.style);
    let pre = seq![Call::StartStyle(st.style)] + ca + seq![Call::EndStyle];
    assert(pre.last() == Call::EndStyle);
}

/// Children are drawn in their order: the callbacks of a group are those of
/// its first shape, then its second, then its third.
pub proof fn lemma_draw_order(g: Group, parent: Transform, native: bool, inherited: Style)
    requires
        g.shapes@.len() == 3,
        shape_calls(Shape::Group(g), parent, native, inherited) is Ok,
    ensures
        ({
            let t = compose_spec(parent, g.local_transform)->Some_0;
            let ss = g.shapes@;
            &&& shape_calls(ss[0], t, native, inherited) is Ok
            &&& shape_calls(ss[1], t, native, inherited) is Ok
            &&& shape_calls(ss[2], t, native, inherited) is Ok
            &&& shape_calls(Shape::Group(g), parent, native, inherited)->Ok_0
                == shape_calls(ss[0], t, native, inherited)->Ok_0 + shape_calls(ss[1], t, native, inherited)->Ok_0
                + shape_calls(ss[2], t, native, inherited)->Ok_0
        }),
{
    let t = compose_spec(parent, g.local_transform)->Some_0;
    let ss = g.shapes@;
    lemma_children_last(ss, 3, t, native, inherited);
    lemma_children_last(ss, 2, t, native, inherited);
    lemma_children_last(ss, 1, t, native, inherited);
    lemma_children_none(ss, t, native, inherited);
    let c0 = shape_calls(ss[0], t, native, inherited)->Ok_0;
    assert(Seq::<Call>::empty() + c0 =~= c0);
}

/// The unit circle's anchor points, counter-clockwise from `(UNIT, 0)`.
pub open spec fn circle_anchor(i: int) -> Point {
    if i == 0 {
        pt(0, UNIT)
    } else if i == 1 {
        pt(NEG_UNIT, 0)
    } else if i == 2 {
        pt(0, NEG_UNIT)
    } else {
        pt(UNIT, 0)
    }
}

/// Without native ellipses an ellipse becomes one closed curve of four
/// Bezier arcs that starts at the image of `(UNIT, 0)` and whose arcs end at
/// the images of the unit circle's four axis points; with native ellipses no
/// curve is drawn, only the ellipse.
pub proof fn lemma_ellipse_fallback(e: Ellipse, parent: Transform, inherited: Style)
    ensures
        shape_calls(Shape::Ellipse(e), parent, false, inherited) matches Ok(cs) ==> {
            let abs = parent@.mul(e.local_transform@);
            &&& cs.len() == 1
            &&& cs[0] is Curve
            &&& cs[0]->Curve_0.closed
            &&& cs[0]->Curve_0.keypoints.len() == 4
            &&& cs[0]->Curve_0.keypoints[0] matches Keypoint::Bezier(b) && b.start matches Some(s)
                && s@ == abs.apply(pt(UNIT, 0)@)
            &&& forall|i: int|
                0 <= i < 4 ==> (#[trigger] cs[0]->Curve_0.keypoints[i] matches Keypoint::Bezier(b)
                    && b.end@ == abs.apply(circle_anchor(i)@))
        },
        shape_calls(Shape::Ellipse(e), parent, true, inherited) matches Ok(cs) ==> cs.len() == 1
            && cs[0] is Ellipse,
{
    if let Ok(cs) = shape_calls(Shape::Ellipse(e), parent, false, inherited) {
        let abs = compose_spec(parent, e.local_transform)->Some_0;
        let ks = ellipse_keypoints();
        lemma_resolve_keypoints_index(abs, ks);
        let r = resolve_keypoints(abs, ks)->Some_0;
        assert(cs[0]->Curve_0.keypoints == r);
        assert forall|i: int| 0 <= i < 4 implies (#[trigger] r[i] matches Keypoint::Bezier(b)
            && b.end@ == abs@.apply(circle_anchor(i)@)) by {
            assert(resolve_keypoint(abs, ks[i]) == Some(r[i]));
        }
        assert(resolve_keypoint(abs, ks[0]) == Some(r[0]));
    }
}

} // verus!
