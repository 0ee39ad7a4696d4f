use vstd::prelude::*;
use crate::export::{no_style, resolve_calls, shape_calls, view_calls, Call, ExportCall};
use crate::geometry::{bbox_of, bounding_box_of, Point, Rect, Transform};
use crate::position::GeometryError;
use crate::shape::{Keypoint, Shape};

verus! {

/// The points that a keypoint places: anchors and control points.
pub open spec fn keypoint_points(k: Keypoint) -> Seq<Point> {
    match k {
        Keypoint::Point(p) => seq![p],
        Keypoint::Bezier(b) => match b.start {
            Some(s) => seq![s, b.start_control, b.end_control, b.end],
            None => seq![b.start_control, b.end_control, b.end],
        },
    }
}

pub open spec fn keypoints_points(ks: Seq<Keypoint>) -> Seq<Point>
    decreases ks.len(),
{
    if ks.len() == 0 {
        Seq::empty()
    } else {
        keypoints_points(ks.drop_last()) + keypoint_points(ks.last())
    }
}

/// The points that a callback draws at: a text counts by its anchor, an
/// image by its corners.
pub open spec fn call_points(c: Call) -> Seq<Point> {
    match c {
        Call::Curve(cv) => keypoints_points(cv.keypoints),
        Call::Text(t) => seq![t.reference_start],
        Call::Image(i) => seq![i.top_left, i.top_right, i.bottom_right, i.bottom_left],
        Call::Ellipse(e) => seq![e.center],
        _ => Seq::empty(),
    }
}

pub open spec fn calls_points(cs: Seq<Call>) -> Seq<Point>
    decreases cs.len(),
{
    if cs.len() == 0 {
        Seq::empty()
    } else {
        calls_points(cs.drop_last()) + call_points(cs.last())
    }
}

pub proof fn lemma_calls_points_concat(a: Seq<Call>, b: Seq<Call>)
    ensures
        calls_points(a + b) == calls_points(a) + calls_points(b),
    decreases b.len(),
{
    if b.len() == 0 {
        assert(a + b =~= a);
        assert(calls_points(a) + calls_points(b) =~= calls_points(a));
    } else {
        assert((a + b).drop_last() =~= a + b.drop_last());
        lemma_calls_points_concat(a, b.drop_last());
        assert(calls_points(a + b) =~= calls_points(a) + calls_points(b));
    }
}

/// The axis-aligned box of a shape's own geometry, resolved against the
/// identity with ellipses drawn as curves; `Ok(None)` for a shape that draws
/// nothing.
pub open spec fn bounding_box_spec(s: Shape) -> Result<Option<Rect>, GeometryError> {
    match shape_calls(s, Transform { a: 1, b: 0, c: 0, d: 1, tx: 0, ty: 0 }, false, no_style()) {
        Ok(cs) => Ok(bbox_of(calls_points(cs))),
        Err(e) => Err(e),
    }
}

fn push_keypoint_points(k: &Keypoint, out: &mut Vec<Point>)
    ensures
        final(out)@ == old(out)@ + keypoint_points(*k),
{
    match k {
        Keypoint::Point(p) => out.push(*p),
        Keypoint::Bezier(b) => {
            if let Some(s) = b.start {
                out.push(s);
            }
            out.push(b.start_control);
            out.push(b.end_control);
            out.push(b.end);
        },
    }
    assert(out@ =~= old(out)@ + keypoint_points(*k));
}

fn push_call_points(c: &ExportCall, out: &mut Vec<Point>)
    ensures
        final(out)@ == old(out)@ + call_points(c@),
{
    match c {
        ExportCall::Curve(cv) => {
            let ghost start = out@;
            let mut i: usize = 0;
            while i < cv.keypoints.len()
                invariant
                    i <= cv.keypoints@.len(),
                    out@ == start + keypoints_points(cv.keypoints@.subrange(0, i as int)),
                decreases cv.keypoints.len() - i,
            {
                assert(cv.keypoints@.subrange(0, i + 1).drop_last() =~= cv.keypoints@.subrange(0, i as int));
                push_keypoint_points(&cv.keypoints[i], out);
                i += 1;
                assert(out@ =~= start + keypoints_points(cv.keypoints@.subrange(0, i as int)));
            }
            assert(cv.keypoints@.subrange(0, i as int) =~= cv.keypoints@);
        },
        ExportCall::Text(t) => out.push(t.reference_start),
        ExportCall::Image(im) => {
            out.push(im.top_left);
            out.push(im.top_right);
            out.push(im.bottom_right);
            out.push(im.bottom_left);
        },
        ExportCall::Ellipse(e) => out.push(e.center),
        _ => {},
    }
    assert(out@ =~= old(out)@ + call_points(c@));
}

impl Shape {
    /// The box enclosing the shape's own geometry resolved against the
    /// identity; for a group, the union of its children's boxes.
    pub fn local_bounding_box(&self) -> (r: Result<Option<Rect>, GeometryError>)
        ensures
            r == bounding_box_spec(*self),
    {
        let id = Transform::identity();
        let calls = match resolve_calls(self, &id, false) {
            Ok(calls) => calls,
            Err(e) => {
                return Err(e);
            },
        };
        let mut points: Vec<Point> = Vec::new();
        let mut i: usize = 0;
        while i < calls.len()
            invariant
                i <= calls@.len(),
                points@ == calls_points(view_calls(calls@.subrange(0, i as int))),
            decreases calls.len() - i,
        {
            assert(view_calls(calls@.subrange(0, i + 1)).drop_last() =~= view_calls(calls@.subrange(0, i as int)));
            assert(view_calls(calls@.subrange(0, i + 1)).last() == calls@[i as int]@);
            push_call_points(&calls[i], &mut points);
            i += 1;
        }
        assert(calls@.subrange(0, i as int) =~= calls@);
        Ok(bounding_box_of(&points))
    }
}

} // verus!
