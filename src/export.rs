use vstd::prelude::*;
use crate::geometry::{compose_spec, Transform};
use crate::position::{
    lemma_resolve_keeps_start, missing_start, ellipse_keypoints, line_keypoints, resolve_curve_spec, resolve_ellipse_spec, resolve_image_spec,
    resolve_text_spec, CurvePosition, CurveView, EllipsePosition, GeometryError, ImagePosition,
    ImageView, TextPosition, TextView,
};
use crate::shape::{merge_spec, Keypoint, Shape, Style};

verus! {

/// One exporter callback, as the contracts see it.
pub ghost enum Call {
    StartStyle(Style),
    EndStyle,
    Curve(CurveView),
    Ellipse(EllipsePosition),
    Text(TextView),
    Image(ImageView),
}

/// One exporter callback with its argument.
#[derive(Clone, Debug)]
pub enum ExportCall {
    StartStyle(Style),
    EndStyle,
    Curve(CurvePosition),
    Ellipse(EllipsePosition),
    Text(TextPosition),
    Image(ImagePosition),
}

impl ExportCall {
    pub open spec fn view(&self) -> Call {
        match self {
            ExportCall::StartStyle(s) => Call::StartStyle(*s),
            ExportCall::EndStyle => Call::EndStyle,
            ExportCall::Curve(c) => Call::Curve(c@),
            ExportCall::Ellipse(e) => Call::Ellipse(*e),
            ExportCall::Text(t) => Call::Text(t@),
            ExportCall::Image(i) => Call::Image(i@),
        }
    }
}

pub open spec fn view_calls(v: Seq<ExportCall>) -> Seq<Call> {
    v.map_values(|c: ExportCall| c@)
}

/// No fill and no stroke.
pub open spec fn no_style() -> Style {
    Style { fill: None, stroke: None }
}

pub open spec fn one_call<T>(r: Result<T, GeometryError>, f: spec_fn(T) -> Call) -> Result<
    Seq<Call>,
    GeometryError,
> {
    match r {
        Ok(v) => Ok(seq![f(v)]),
        Err(e) => Err(e),
    }
}

/// A closed curve with fewer than two points: it draws nothing.
pub open spec fn degenerate(cv: CurveView) -> bool {
    cv.closed && (cv.keypoints.len() == 0 || (cv.keypoints.len() == 1 && cv.keypoints[0] is Point))
}

/// The callback of a curve, none for a degenerate one.
pub open spec fn curve_calls(r: Result<CurveView, GeometryError>) -> Result<Seq<Call>, GeometryError> {
    match r {
        Ok(cv) => if degenerate(cv) {
            Ok(Seq::empty())
        } else {
            Ok(seq![Call::Curve(cv)])
        },
        Err(e) => Err(e),
    }
}

/// The callbacks that exporting `s` under `parent` makes, depth first and in
/// child order, or the first geometry error. `native` says whether the
/// backend draws ellipses itself; `inherited` is the style of the enclosing
/// style wrappers.
pub open spec fn shape_calls(s: Shape, parent: Transform, native: bool, inherited: Style) -> Result<
    Seq<Call>,
    GeometryError,
>
    decreases s, 0int,
{
    match s {
        Shape::Group(g) => match compose_spec(parent, g.local_transform) {
            None => Err(GeometryError::Overflow),
            Some(abs) => children_calls(g.shapes@, g.shapes@.len() as int, abs, native, inherited),
        },
        Shape::Style(st) => {
            let m = merge_spec(st.style, inherited);
            match shape_calls(*st.shape, parent, native, m) {
                Ok(cs) => Ok(seq![Call::StartStyle(m)] + cs + seq![Call::EndStyle]),
                Err(e) => Err(e),
            }
        },
        Shape::Ellipse(e) => if native {
            one_call(resolve_ellipse_spec(parent, e.local_transform), |p| Call::Ellipse(p))
        } else {
            one_call(
                resolve_curve_spec(parent, e.local_transform, ellipse_keypoints(), true),
                |c| Call::Curve(c),
            )
        },
        Shape::Curve(c) => curve_calls(
            resolve_curve_spec(parent, c.local_transform, c.keypoints@, c.closed),
        ),
        Shape::Line(l) => one_call(
            resolve_curve_spec(parent, l.local_transform, line_keypoints(l), false),
            |c| Call::Curve(c),
        ),
        Shape::Text(t) => one_call(resolve_text_spec(parent, t), |t| Call::Text(t)),
        Shape::Image(i) => one_call(resolve_image_spec(parent, i), |i| Call::Image(i)),
    }
}

/// The callbacks of the first `n` shapes of `ss`, in order.
pub open spec fn children_calls(
    ss: Seq<Shape>,
    n: int,
    t: Transform,
    native: bool,
    inherited: Style,
) -> Result<Seq<Call>, GeometryError>
    decreases ss, n,
{
    if n <= 0 || n > ss.len() {
        Ok(Seq::empty())
    } else {
        match children_calls(ss, n - 1, t, native, inherited) {
            Err(e) => Err(e),
            Ok(init) => match shape_calls(ss[n - 1], t, native, inherited) {
                Err(e) => Err(e),
                Ok(last) => Ok(init + last),
            },
        }
    }
}

/// No callback draws a native ellipse, and every curve begins with a start
/// point.
pub open spec fn plain_calls(cs: Seq<Call>) -> bool {
    forall|i: int|
        0 <= i < cs.len() ==> !(#[trigger] cs[i] is Ellipse) && (cs[i] matches Call::Curve(cv)
            ==> !missing_start(cv.keypoints))
}

/// A resolved curve begins with a start point.
proof fn lemma_curve_started(parent: Transform, local: Transform, ks: Seq<Keypoint>, closed: bool)
    requires
        resolve_curve_spec(parent, local, ks, closed) is Ok,
    ensures
        !missing_start(resolve_curve_spec(parent, local, ks, closed)->Ok_0.keypoints),
{
    let abs = compose_spec(parent, local)->Some_0;
    lemma_resolve_keeps_start(abs, ks);
}

/// A backend without native ellipses receives none, and every curve it
/// receives begins with a start point.
pub proof fn lemma_plain_calls(s: Shape, parent: Transform, inherited: Style)
    requires
        shape_calls(s, parent, false, inherited) is Ok,
    ensures
        plain_calls(shape_calls(s, parent, false, inherited)->Ok_0),
    decreases s, 0int,
{
    match s {
        Shape::Group(g) => {
            let abs = compose_spec(parent, g.local_transform)->Some_0;
            lemma_children_plain_calls(g.shapes@, g.shapes@.len() as int, abs, inherited);
        },
        Shape::Style(st) => {
            let m = merge_spec(st.style, inherited);
            lemma_plain_calls(*st.shape, parent, m);
            let cs = shape_calls(*st.shape, parent, false, m)->Ok_0;
            let all = seq![Call::StartStyle(m)] + cs + seq![Call::EndStyle];
            assert forall|i: int| 0 <= i < all.len() implies !(#[trigger] all[i] is Ellipse) && (
            all[i] matches Call::Curve(cv) ==> !missing_start(cv.keypoints)) by {
                if 0 < i < all.len() - 1 {
                    assert(all[i] == cs[i - 1]);
                }
            }
        },
        Shape::Ellipse(e) => {
            lemma_curve_started(parent, e.local_transform, ellipse_keypoints(), true);
        },
        Shape::Curve(c) => {
            lemma_curve_started(parent, c.local_transform, c.keypoints@, c.closed);
        },
        Shape::Line(l) => {
            lemma_curve_started(parent, l.local_transform, line_keypoints(l), false);
        },
        _ => {},
    }
}

proof fn lemma_children_plain_calls(ss: Seq<Shape>, n: int, t: Transform, inherited: Style)
    requires
        children_calls(ss, n, t, false, inherited) is Ok,
    ensures
        plain_calls(children_calls(ss, n, t, false, inherited)->Ok_0),
    decreases ss, n,
{
    if 0 < n <= ss.len() {
        lemma_children_plain_calls(ss, n - 1, t, inherited);
        lemma_plain_calls(ss[n - 1], t, inherited);
        let a = children_calls(ss, n - 1, t, false, inherited)->Ok_0;
        let b = shape_calls(ss[n - 1], t, false, inherited)->Ok_0;
        assert forall|i: int| 0 <= i < (a + b).len() implies !(#[trigger] (a + b)[i] is Ellipse) && (
        (a + b)[i] matches Call::Curve(cv) ==> !missing_start(cv.keypoints)) by {
            if i < a.len() {
                assert((a + b)[i] == a[i]);
            } else {
                assert((a + b)[i] == b[i - a.len()]);
            }
        }
    }
}

/// An error on a prefix of the children is the error of all of them.
proof fn lemma_children_error_stays(
    ss: Seq<Shape>,
    k: int,
    n: int,
    t: Transform,
    native: bool,
    inherited: Style,
)
    requires
        0 < k <= n <= ss.len(),
        children_calls(ss, k, t, native, inherited) is Err,
    ensures
        children_calls(ss, n, t, native, inherited) == children_calls(ss, k, t, native, inherited),
    decreases n - k,
{
    if k < n {
        lemma_children_error_stays(ss, k, n - 1, t, native, inherited);
    }
}

/// `view_calls` of a push.
pub proof fn lemma_view_push(v: Seq<ExportCall>, c: ExportCall)
    ensures
        view_calls(v.push(c)) == view_calls(v).push(c@),
{
    assert(view_calls(v.push(c)) =~= view_calls(v).push(c@));
}

/// Appends to `out` the callbacks of `s`; on an error `out` holds a prefix.
fn resolve_into(
    s: &Shape,
    parent: &Transform,
    native: bool,
    inherited: &Style,
    out: &mut Vec<ExportCall>,
) -> (r: Result<(), GeometryError>)
    ensures
        match shape_calls(*s, *parent, native, *inherited) {
            Ok(cs) => r is Ok && view_calls(final(out)@) == view_calls(old(out)@) + cs,
            Err(e) => r == Err::<(), GeometryError>(e),
        },
    decreases s, 1int,
{
    match s {
        Shape::Group(g) => {
            let abs = match parent.compose(&g.local_transform) {
                Some(abs) => abs,
                None => {
                    return Err(GeometryError::Overflow);
                },
            };
            resolve_children_into(&g.shapes, &abs, native, inherited, out)
        },
        Shape::Style(st) => {
            let m = st.style.merged_into(inherited);
            proof {
                lemma_view_push(out@, ExportCall::StartStyle(m));
            }
            out.push(ExportCall::StartStyle(m));
            match resolve_into(&st.shape, parent, native, &m, out) {
                Ok(()) => {},
                Err(e) => {
                    return Err(e);
                },
            }
            proof {
                lemma_view_push(out@, ExportCall::EndStyle);
            }
            out.push(ExportCall::EndStyle);
            proof {
                let cs = shape_calls(*st.shape, *parent, native, m)->Ok_0;
                assert(view_calls(out@) =~= view_calls(old(out)@) + (seq![Call::StartStyle(m)] + cs
                    + seq![Call::EndStyle]));
            }
            Ok(())
        },
        _ => resolve_leaf_into(s, parent, native, out),
    }
}

/// Appends the callbacks of each shape of `ss` in order, under `t`.
fn resolve_children_into(
    ss: &Vec<Shape>,
    t: &Transform,
    native: bool,
    inherited: &Style,
    out: &mut Vec<ExportCall>,
) -> (r: Result<(), GeometryError>)
    ensures
        match children_calls(ss@, ss@.len() as int, *t, native, *inherited) {
            Ok(cs) => r is Ok && view_calls(final(out)@) == view_calls(old(out)@) + cs,
            Err(e) => r == Err::<(), GeometryError>(e),
        },
    decreases ss, ss@.len() as int + 1,
{
    let ghost start = view_calls(out@);
    let mut i: usize = 0;
    while i < ss.len()
        invariant
            i <= ss@.len(),
            start == view_calls(old(out)@),
            children_calls(ss@, i as int, *t, native, *inherited) is Ok,
            view_calls(out@) == start + children_calls(ss@, i as int, *t, native, *inherited)->Ok_0,
        decreases ss.len() - i,
    {
        proof {
            vstd::std_specs::vec::axiom_vec_index_decreases(*ss, i as int);
            assert(decreases_to!(ss@ => ss@[i as int]));
        }
        let res = resolve_into(&ss[i], t, native, inherited, out);
        match res {
            Ok(()) => {
                assert(view_calls(out@) =~= start + children_calls(
                    ss@,
                    i + 1,
                    *t,
                    native,
                    *inherited,
                )->Ok_0);
            },
            Err(e) => {
                proof {
                    lemma_children_error_stays(ss@, i + 1, ss@.len() as int, *t, native, *inherited);
                }
                return Err(e);
            },
        }
        i += 1;
    }
    Ok(())
}

/// Appends the one callback of a shape that is neither a group nor a style.
fn resolve_leaf_into(s: &Shape, parent: &Transform, native: bool, out: &mut Vec<ExportCall>) -> (r:
    Result<(), GeometryError>)
    requires
        !(s is Group),
        !(s is Style),
    ensures
        match shape_calls(*s, *parent, native, no_style()) {
            Ok(cs) => r is Ok && view_calls(final(out)@) == view_calls(old(out)@) + cs,
            Err(e) => r == Err::<(), GeometryError>(e),
        },
{
    let call = match s {
        Shape::Ellipse(e) => if native {
            match e.position(parent) {
                Ok(p) => ExportCall::Ellipse(p),
                Err(e) => {
                    return Err(e);
                },
            }
        } else {
            match e.to_curve().position(parent) {
                Ok(p) => ExportCall::Curve(p),
                Err(e) => {
                    return Err(e);
                },
            }
        },
        Shape::Curve(c) => match c.position(parent) {
            Ok(p) => {
                if p.closed && (p.keypoints.len() == 0 || (p.keypoints.len() == 1
                    && matches!(p.keypoints[0], Keypoint::Point(_)))) {
                    assert(view_calls(out@) =~= view_calls(old(out)@) + Seq::empty());
                    return Ok(());
                }
                ExportCall::Curve(p)
            },
            Err(e) => {
                return Err(e);
            },
        },
        Shape::Line(l) => match l.position(parent) {
            Ok(p) => ExportCall::Curve(p),
            Err(e) => {
                return Err(e);
            },
        },
        Shape::Text(t) => match t.position(parent) {
            Ok(p) => ExportCall::Text(p),
            Err(e) => {
                return Err(e);
            },
        },
        Shape::Image(i) => match i.position(parent) {
            Ok(p) => ExportCall::Image(p),
            Err(e) => {
                return Err(e);
            },
        },
        _ => {
            return Err(GeometryError::Overflow);
        },
    };
    assert(shape_calls(*s, *parent, native, no_style()) == Ok::<Seq<Call>, GeometryError>(seq![call@]));
    proof {
        lemma_view_push(out@, call);
    }
    out.push(call);
    assert(view_calls(out@) =~= view_calls(old(out)@) + seq![call@]);
    Ok(())
}

/// The callbacks that exporting `s` under `parent` makes, in order.
pub fn resolve_calls(s: &Shape, parent: &Transform, native: bool) -> (r: Result<
    Vec<ExportCall>,
    GeometryError,
>)
    ensures
        match shape_calls(*s, *parent, native, no_style()) {
            Ok(cs) => r matches Ok(v) && view_calls(v@) == cs,
            Err(e) => r matches Err(x) && x == e,
        },
{
    let mut out: Vec<ExportCall> = Vec::new();
    let none = Style::none();
    assert(view_calls(out@) =~= Seq::empty());
    match resolve_into(s, parent, native, &none, &mut out) {
        Ok(()) => {
            assert(view_calls(out@) =~= Seq::empty() + shape_calls(*s, *parent, native, no_style())->Ok_0);
            Ok(out)
        },
        Err(e) => Err(e),
    }
}

/// A backend: receives resolved shapes in drawing order.
///
/// `calls` is the sequence of callbacks that the backend has accepted so
/// far; each successful callback appends itself to it and a failing one
/// leaves it as it was.
pub trait Exporter {
    type Error;

    spec fn calls(&self) -> Seq<Call>;

    /// The backend's own consistency, kept by every callback.
    spec fn inv(&self) -> bool;

    /// Whether the backend draws ellipses itself.
    spec fn exports_ellipse(&self) -> bool;

    fn can_export_ellipse(&self) -> (r: bool)
        ensures
            r == self.exports_ellipse(),
    ;

    /// Sets the style for the next drawing call.
    fn start_style(&mut self, style: &Style) -> (r: Result<(), Self::Error>)
        requires
            old(self).inv(),
        ensures
            final(self).inv(),
            final(self).exports_ellipse() == old(self).exports_ellipse(),
            final(self).calls() == (if r is Ok {
                old(self).calls().push(Call::StartStyle(*style))
            } else {
                old(self).calls()
            }),
    ;

    /// Restores the default draw state.
    fn end_style(&mut self) -> (r: Result<(), Self::Error>)
        requires
            old(self).inv(),
        ensures
            final(self).inv(),
            final(self).exports_ellipse() == old(self).exports_ellipse(),
            final(self).calls() == (if r is Ok {
                old(self).calls().push(Call::EndStyle)
            } else {
                old(self).calls()
            }),
    ;

    fn export_curve(&mut self, curve: &CurvePosition) -> (r: Result<(), Self::Error>)
        requires
            old(self).inv(),
        ensures
            final(self).inv(),
            final(self).exports_ellipse() == old(self).exports_ellipse(),
            final(self).calls() == (if r is Ok {
                old(self).calls().push(Call::Curve(curve@))
            } else {
                old(self).calls()
            }),
    ;

    fn export_ellipse(&mut self, ellipse: &EllipsePosition) -> (r: Result<(), Self::Error>)
        requires
            old(self).inv(),
        ensures
            final(self).inv(),
            final(self).exports_ellipse() == old(self).exports_ellipse(),
            final(self).calls() == (if r is Ok {
                old(self).calls().push(Call::Ellipse(*ellipse))
            } else {
                old(self).calls()
            }),
    ;

    fn export_text(&mut self, text: &TextPosition) -> (r: Result<(), Self::Error>)
        requires
            old(self).inv(),
        ensures
            final(self).inv(),
            final(self).exports_ellipse() == old(self).exports_ellipse(),
            final(self).calls() == (if r is Ok {
                old(self).calls().push(Call::Text(text@))
            } else {
                old(self).calls()
            }),
    ;

    fn export_image(&mut self, image: &ImagePosition) -> (r: Result<(), Self::Error>)
        requires
            old(self).inv(),
        ensures
            final(self).inv(),
            final(self).exports_ellipse() == old(self).exports_ellipse(),
            final(self).calls() == (if r is Ok {
                old(self).calls().push(Call::Image(image@))
            } else {
                old(self).calls()
            }),
    ;
}

/// Why an export stopped.
#[derive(Clone, Copy, Debug, PartialEq, Eq)]
pub enum ExportError<E> {
    Geometry(GeometryError),
    Backend(E),
}

/// Hands one call to the backend.
pub fn dispatch<E: Exporter>(exporter: &mut E, call: &ExportCall) -> (r: Result<(), E::Error>)
    requires
        old(exporter).inv(),
    ensures
        final(exporter).inv(),
        final(exporter).exports_ellipse() == old(exporter).exports_ellipse(),
        final(exporter).calls() == (if r is Ok {
            old(exporter).calls().push(call@)
        } else {
            old(exporter).calls()
        }),
{
    match call {
        ExportCall::StartStyle(s) => exporter.start_style(s),
        ExportCall::EndStyle => exporter.end_style(),
        ExportCall::Curve(c) => exporter.export_curve(c),
        ExportCall::Ellipse(e) => exporter.export_ellipse(e),
        ExportCall::Text(t) => exporter.export_text(t),
        ExportCall::Image(i) => exporter.export_image(i),
    }
}

/// Hands the calls to the backend in order, stopping at its first error.
pub fn replay<E: Exporter>(exporter: &mut E, calls: &Vec<ExportCall>) -> (r: Result<(), E::Error>)
    requires
        old(exporter).inv(),
    ensures
        final(exporter).inv(),
        final(exporter).exports_ellipse() == old(exporter).exports_ellipse(),
        r is Ok ==> final(exporter).calls() == old(exporter).calls() + view_calls(calls@),
        r is Err ==> exists|k: int|
            0 <= k < calls@.len() && final(exporter).calls() == old(exporter).calls() + view_calls(
                calls@,
            ).take(k),
{
    let ghost start = exporter.calls();
    let mut i: usize = 0;
    while i < calls.len()
        invariant
            i <= calls@.len(),
            start == old(exporter).calls(),
            exporter.inv(),
            exporter.exports_ellipse() == old(exporter).exports_ellipse(),
            exporter.calls() == start + view_calls(calls@).take(i as int),
        decreases calls.len() - i,
    {
        match dispatch(exporter, &calls[i]) {
            Ok(()) => {
                assert(view_calls(calls@).take(i + 1) =~= view_calls(calls@).take(i as int).push(
                    calls@[i as int]@,
                ));
                assert(exporter.calls() =~= start + view_calls(calls@).take(i + 1));
            },
            Err(e) => {
                return Err(e);
            },
        }
        i += 1;
    }
    assert(view_calls(calls@).take(i as int) =~= view_calls(calls@));
    Ok(())
}

/// Exports `shape` under `parent` into a backend. The tree is resolved whole
/// first: a geometry error leaves the backend untouched. Then the callbacks
/// go out in drawing order until the backend fails.
pub fn export<E: Exporter>(shape: &Shape, exporter: &mut E, parent: &Transform) -> (r: Result<
    (),
    ExportError<E::Error>,
>)
    requires
        old(exporter).inv(),
    ensures
        final(exporter).inv(),
        match shape_calls(*shape, *parent, old(exporter).exports_ellipse(), no_style()) {
            Err(g) => r matches Err(ExportError::Geometry(x)) && x == g && *final(exporter) == *old(
                exporter,
            ),
            Ok(cs) => {
                &&& r is Ok ==> final(exporter).calls() == old(exporter).calls() + cs
                &&& r is Err ==> {
                    &&& r->Err_0 is Backend
                    &&& exists|k: int|
                        0 <= k < cs.len() && final(exporter).calls() == old(exporter).calls()
                            + cs.take(k)
                }
            },
        },
{
    let native = exporter.can_export_ellipse();
    let calls = match resolve_calls(shape, parent, native) {
        Ok(calls) => calls,
        Err(g) => {
            return Err(ExportError::Geometry(g));
        },
    };
    match replay(exporter, &calls) {
        Ok(()) => Ok(()),
        Err(e) => Err(ExportError::Backend(e)),
    }
}

} // verus!
