use vstd::prelude::*;
use crate::geometry::{apply_spec, compose_spec, in_i32, Point, Transform, UNIT};
use crate::shape::{
    Bezier, Curve, Ellipse, FontWeight, Image, Keypoint, Line, Text, TextAlign, TextVerticalAlign,
};

verus! {

/// Why a shape could not be resolved.
#[derive(Clone, Copy, Debug, PartialEq, Eq, Structural)]
pub enum GeometryError {
    /// The first keypoint of a curve is a Bezier segment without a start.
    CurveHasNoStartingPoint,
    /// A coordinate or a transform entry left the `i32` range.
    Overflow,
}

/// Control-point offset of the quarter-circle Bezier arcs, in steps for a
/// radius of [`UNIT`] (0.552 of the radius).
pub const KAPPA: i32 = 552;

pub const NEG_UNIT: i32 = -UNIT;

pub const NEG_KAPPA: i32 = -KAPPA;

/// A keypoint mapped through a transform, `None` on overflow.
pub open spec fn resolve_keypoint(t: Transform, k: Keypoint) -> Option<Keypoint> {
    match k {
        Keypoint::Point(p) => match apply_spec(t, p) {
            Some(q) => Some(Keypoint::Point(q)),
            None => None,
        },
        Keypoint::Bezier(b) => {
            let start = match b.start {
                Some(s) => match apply_spec(t, s) {
                    Some(q) => Some(Some(q)),
                    None => None,
                },
                None => Some(None),
            };
            match (start, apply_spec(t, b.start_control), apply_spec(t, b.end_control), apply_spec(t, b.end)) {
                (Some(s), Some(sc), Some(ec), Some(e)) => Some(
                    Keypoint::Bezier(Bezier { start: s, start_control: sc, end_control: ec, end: e }),
                ),
                _ => None,
            }
        },
    }
}

/// Every keypoint mapped through a transform, `None` on overflow.
pub open spec fn resolve_keypoints(t: Transform, ks: Seq<Keypoint>) -> Option<Seq<Keypoint>>
    decreases ks.len(),
{
    if ks.len() == 0 {
        Some(Seq::empty())
    } else {
        match (resolve_keypoints(t, ks.drop_last()), resolve_keypoint(t, ks.last())) {
            (Some(init), Some(k)) => Some(init.push(k)),
            _ => None,
        }
    }
}

/// Resolving keypoints maps each one on its own.
pub proof fn lemma_resolve_keypoints_index(t: Transform, ks: Seq<Keypoint>)
    requires
        resolve_keypoints(t, ks) is Some,
    ensures
        resolve_keypoints(t, ks)->Some_0.len() == ks.len(),
        forall|i: int|
            0 <= i < ks.len() ==> resolve_keypoint(t, #[trigger] ks[i]) == Some(
                resolve_keypoints(t, ks)->Some_0[i],
            ),
    decreases ks.len(),
{
    if ks.len() > 0 {
        lemma_resolve_keypoints_index(t, ks.drop_last());
        assert forall|i: int| 0 <= i < ks.len() implies resolve_keypoint(t, #[trigger] ks[i]) == Some(
            resolve_keypoints(t, ks)->Some_0[i],
        ) by {
            if i < ks.len() - 1 {
                assert(ks[i] == ks.drop_last()[i]);
            }
        }
    }
}

/// Resolution keeps whether a curve's first segment lacks its start.
pub proof fn lemma_resolve_keeps_start(t: Transform, ks: Seq<Keypoint>)
    requires
        resolve_keypoints(t, ks) is Some,
    ensures
        missing_start(resolve_keypoints(t, ks)->Some_0) == missing_start(ks),
{
    lemma_resolve_keypoints_index(t, ks);
    if ks.len() > 0 {
        assert(resolve_keypoint(t, ks[0]) == Some(resolve_keypoints(t, ks)->Some_0[0]));
    }
}

/// The first keypoint is a Bezier segment with no start to begin from.
pub open spec fn missing_start(ks: Seq<Keypoint>) -> bool {
    ks.len() > 0 && (ks[0] matches Keypoint::Bezier(b) && b.start is None)
}

/// A curve in absolute coordinates.
pub ghost struct CurveView {
    pub keypoints: Seq<Keypoint>,
    pub closed: bool,
}

/// The absolute curve of keypoints under `local`, itself under `parent`.
pub open spec fn resolve_curve_spec(
    parent: Transform,
    local: Transform,
    ks: Seq<Keypoint>,
    closed: bool,
) -> Result<CurveView, GeometryError> {
    if missing_start(ks) {
        Err(GeometryError::CurveHasNoStartingPoint)
    } else {
        match compose_spec(parent, local) {
            None => Err(GeometryError::Overflow),
            Some(abs) => match resolve_keypoints(abs, ks) {
                None => Err(GeometryError::Overflow),
                Some(r) => Ok(CurveView { keypoints: r, closed }),
            },
        }
    }
}

/// A curve in absolute coordinates, as a backend receives it.
#[derive(Clone, Debug)]
pub struct CurvePosition {
    pub keypoints: Vec<Keypoint>,
    pub closed: bool,
}

impl CurvePosition {
    pub open spec fn view(&self) -> CurveView {
        CurveView { keypoints: self.keypoints@, closed: self.closed }
    }
}

/// The outcome of a resolution, seen through the view of its value.
pub open spec fn curve_result_view(r: Result<CurvePosition, GeometryError>) -> Result<
    CurveView,
    GeometryError,
> {
    match r {
        Ok(p) => Ok(p@),
        Err(e) => Err(e),
    }
}

fn resolve_point(t: &Transform, p: &Point) -> (r: Result<Point, GeometryError>)
    ensures
        match apply_spec(*t, *p) {
            Some(q) => r == Ok::<Point, GeometryError>(q),
            None => r == Err::<Point, GeometryError>(GeometryError::Overflow),
        },
{
    match t.apply(p) {
        Some(q) => Ok(q),
        None => Err(GeometryError::Overflow),
    }
}

fn resolve_keypoint_exec(t: &Transform, k: &Keypoint) -> (r: Option<Keypoint>)
    ensures
        r == resolve_keypoint(*t, *k),
{
    match k {
        Keypoint::Point(p) => match t.apply(p) {
            Some(q) => Some(Keypoint::Point(q)),
            None => None,
        },
        Keypoint::Bezier(b) => {
            let start = match b.start {
                Some(s) => match t.apply(&s) {
                    Some(q) => Some(Some(q)),
                    None => None,
                },
                None => Some(None),
            };
            match (start, t.apply(&b.start_control), t.apply(&b.end_control), t.apply(&b.end)) {
                (Some(s), Some(sc), Some(ec), Some(e)) => Some(
                    Keypoint::Bezier(Bezier { start: s, start_control: sc, end_control: ec, end: e }),
                ),
                _ => None,
            }
        },
    }
}

/// Resolves keypoints declared under `local`, itself under `parent`.
pub fn resolve_curve(parent: &Transform, local: &Transform, ks: &Vec<Keypoint>, closed: bool) -> (r:
    Result<CurvePosition, GeometryError>)
    ensures
        curve_result_view(r) == resolve_curve_spec(*parent, *local, ks@, closed),
{
    if ks.len() > 0 {
        if let Keypoint::Bezier(b) = &ks[0] {
            if b.start.is_none() {
                return Err(GeometryError::CurveHasNoStartingPoint);
            }
        }
    }
    let abs = match parent.compose(local) {
        Some(abs) => abs,
        None => {
            return Err(GeometryError::Overflow);
        },
    };
    let mut out: Vec<Keypoint> = Vec::new();
    let mut i: usize = 0;
    while i < ks.len()
        invariant
            i <= ks@.len(),
            resolve_keypoints(abs, ks@.subrange(0, i as int)) == Some(out@),
            compose_spec(*parent, *local) == Some(abs),
            !missing_start(ks@),
        decreases ks.len() - i,
    {
        assert(ks@.subrange(0, i + 1).drop_last() =~= ks@.subrange(0, i as int));
        assert(ks@.subrange(0, i + 1).last() == ks@[i as int]);
        match resolve_keypoint_exec(&abs, &ks[i]) {
            Some(k) => out.push(k),
            None => {
                proof {
                    lemma_resolve_keypoints_prefix_none(abs, ks@, i + 1);
                }
                return Err(GeometryError::Overflow);
            },
        }
        i += 1;
    }
    assert(ks@.subrange(0, i as int) =~= ks@);
    Ok(CurvePosition { keypoints: out, closed })
}

/// Overflow on a prefix is overflow on the whole.
proof fn lemma_resolve_keypoints_prefix_none(t: Transform, ks: Seq<Keypoint>, n: int)
    requires
        0 <= n <= ks.len(),
        resolve_keypoints(t, ks.subrange(0, n)) is None,
    ensures
        resolve_keypoints(t, ks) is None,
    decreases ks.len() - n,
{
    if n < ks.len() {
        assert(ks.subrange(0, n + 1).drop_last() =~= ks.subrange(0, n));
        lemma_resolve_keypoints_prefix_none(t, ks, n + 1);
    } else {
        assert(ks.subrange(0, n) =~= ks);
    }
}

impl Curve {
    /// The curve in absolute coordinates under `parent`.
    pub fn position(&self, parent: &Transform) -> (r: Result<CurvePosition, GeometryError>)
        ensures
            curve_result_view(r) == resolve_curve_spec(
                *parent,
                self.local_transform,
                self.keypoints@,
                self.closed,
            ),
    {
        resolve_curve(parent, &self.local_transform, &self.keypoints, self.closed)
    }
}

impl Line {
    /// A line is the open curve through its two ends.
    pub fn position(&self, parent: &Transform) -> (r: Result<CurvePosition, GeometryError>)
        ensures
            curve_result_view(r) == resolve_curve_spec(
                *parent,
                self.local_transform,
                line_keypoints(*self),
                false,
            ),
    {
        let ks = vec![Keypoint::Point(self.from), Keypoint::Point(self.to)];
        assert(ks@ =~= line_keypoints(*self));
        resolve_curve(parent, &self.local_transform, &ks, false)
    }
}

pub open spec fn line_keypoints(l: Line) -> Seq<Keypoint> {
    seq![Keypoint::Point(l.from), Keypoint::Point(l.to)]
}

pub open spec fn pt(x: i32, y: i32) -> Point {
    Point { x, y }
}

/// Four quarter-circle Bezier arcs round the unit circle, counter-clockwise
/// from `(UNIT, 0)`; each arc after the first starts where the last ended.
pub open spec fn ellipse_keypoints() -> Seq<Keypoint> {
    seq![
        Keypoint::Bezier(Bezier { start: Some(pt(UNIT, 0)), start_control: pt(UNIT, KAPPA), end_control: pt(KAPPA, UNIT), end: pt(0, UNIT) }),
        Keypoint::Bezier(Bezier { start: None, start_control: pt(NEG_KAPPA, UNIT), end_control: pt(NEG_UNIT, KAPPA), end: pt(NEG_UNIT, 0) }),
        Keypoint::Bezier(Bezier { start: None, start_control: pt(NEG_UNIT, NEG_KAPPA), end_control: pt(NEG_KAPPA, NEG_UNIT), end: pt(0, NEG_UNIT) }),
        Keypoint::Bezier(Bezier { start: None, start_control: pt(KAPPA, NEG_UNIT), end_control: pt(UNIT, NEG_KAPPA), end: pt(UNIT, 0) }),
    ]
}

fn bezier(start: Option<Point>, sc: Point, ec: Point, end: Point) -> (r: Keypoint)
    ensures
        r == Keypoint::Bezier(Bezier { start, start_control: sc, end_control: ec, end }),
{
    Keypoint::Bezier(Bezier { start, start_control: sc, end_control: ec, end })
}

/// An ellipse drawn natively by a backend: centre and the images of the two
/// unit radii.
#[derive(Clone, Copy, Debug, PartialEq, Eq, Structural)]
pub struct EllipsePosition {
    pub center: Point,
    pub semi_major: Point,
    pub semi_minor: Point,
}

/// The image of a vector under the linear part, `None` on overflow.
pub open spec fn apply_vector_spec(t: Transform, v: Point) -> Option<Point> {
    let q = t@.apply_vector(v@);
    if in_i32(q.x) && in_i32(q.y) {
        Some(Point { x: q.x as i32, y: q.y as i32 })
    } else {
        None
    }
}

pub open spec fn resolve_ellipse_spec(parent: Transform, local: Transform) -> Result<
    EllipsePosition,
    GeometryError,
> {
    match compose_spec(parent, local) {
        None => Err(GeometryError::Overflow),
        Some(abs) => match (apply_vector_spec(abs, pt(UNIT, 0)), apply_vector_spec(abs, pt(0, UNIT))) {
            (Some(u), Some(v)) => Ok(
                EllipsePosition { center: Point { x: abs.tx, y: abs.ty }, semi_major: u, semi_minor: v },
            ),
            _ => Err(GeometryError::Overflow),
        },
    }
}

impl Ellipse {
    /// The equivalent closed curve of four Bezier arcs.
    pub fn to_curve(&self) -> (r: Curve)
        ensures
            r.local_transform == self.local_transform,
            r.keypoints@ == ellipse_keypoints(),
            r.closed,
    {
        let ks = vec![
            bezier(Some(Point { x: UNIT, y: 0 }), Point { x: UNIT, y: KAPPA }, Point { x: KAPPA, y: UNIT }, Point { x: 0, y: UNIT }),
            bezier(None, Point { x: NEG_KAPPA, y: UNIT }, Point { x: NEG_UNIT, y: KAPPA }, Point { x: NEG_UNIT, y: 0 }),
            bezier(None, Point { x: NEG_UNIT, y: NEG_KAPPA }, Point { x: NEG_KAPPA, y: NEG_UNIT }, Point { x: 0, y: NEG_UNIT }),
            bezier(None, Point { x: KAPPA, y: NEG_UNIT }, Point { x: UNIT, y: NEG_KAPPA }, Point { x: UNIT, y: 0 }),
        ];
        assert(ks@ =~= ellipse_keypoints());
        Curve { local_transform: self.local_transform, keypoints: ks, closed: true }
    }

    /// The ellipse for a backend that draws ellipses itself.
    pub fn position(&self, parent: &Transform) -> (r: Result<EllipsePosition, GeometryError>)
        ensures
            r == resolve_ellipse_spec(*parent, self.local_transform),
    {
        let abs = match parent.compose(&self.local_transform) {
            Some(abs) => abs,
            None => {
                return Err(GeometryError::Overflow);
            },
        };
        let u = Transform { tx: 0, ty: 0, ..abs }.apply(&Point { x: UNIT, y: 0 });
        let v = Transform { tx: 0, ty: 0, ..abs }.apply(&Point { x: 0, y: UNIT });
        match (u, v) {
            (Some(u), Some(v)) => Ok(
                EllipsePosition { center: Point { x: abs.tx, y: abs.ty }, semi_major: u, semi_minor: v },
            ),
            _ => Err(GeometryError::Overflow),
        }
    }
}

/// `r` is the integer square root of `n`, rounded down.
pub open spec fn is_floor_sqrt(r: int, n: int) -> bool {
    0 <= r && r * r <= n < (r + 1) * (r + 1)
}

pub open spec fn floor_sqrt(n: int) -> int {
    choose|r: int| is_floor_sqrt(r, n)
}

proof fn lemma_floor_sqrt_unique(r: int, n: int)
    requires
        is_floor_sqrt(r, n),
    ensures
        floor_sqrt(n) == r,
{
    let s = floor_sqrt(n);
    assert(is_floor_sqrt(s, n));
    if s < r {
        assert((s + 1) * (s + 1) <= r * r) by (nonlinear_arith)
            requires
                0 <= s,
                s + 1 <= r,
        ;
    } else if r < s {
        assert((r + 1) * (r + 1) <= s * s) by (nonlinear_arith)
            requires
                0 <= r,
                r + 1 <= s,
        ;
    }
}

/// The integer square root of `n`, rounded down.
pub fn isqrt(n: u128) -> (r: u64)
    requires
        n < 0x4_0000_0000_0000_0000,
    ensures
        r as int == floor_sqrt(n as int),
        r < 0x4_0000_0000,
        is_floor_sqrt(r as int, n as int),
{
    let mut lo: u64 = 0;
    let mut hi: u64 = 0x4_0000_0000;
    assert(hi as int * hi as int == 0x10_0000_0000_0000_0000) by (nonlinear_arith)
        requires
            hi == 0x4_0000_0000u64,
    ;
    while hi - lo > 1
        invariant
            lo < hi <= 0x4_0000_0000,
            lo as int * lo as int <= n as int,
            (n as int) < hi as int * hi as int,
        decreases hi - lo,
    {
        let mid: u64 = lo + (hi - lo) / 2;
        assert(mid as int * mid as int <= 0x10_0000_0000_0000_0000) by (nonlinear_arith)
            requires
                mid <= 0x4_0000_0000u64,
        ;
        let sq: u128 = (mid as u128) * (mid as u128);
        if sq <= n {
            lo = mid;
        } else {
            hi = mid;
        }
    }
    proof {
        assert(hi as int == lo as int + 1);
        lemma_floor_sqrt_unique(lo as int, n as int);
    }
    lo
}

/// The absolute value of the determinant of the linear part: the square of
/// the transform's uniform scale.
pub open spec fn abs_det(t: Transform) -> int {
    let d = t@.determinant();
    if d < 0 {
        -d
    } else {
        d
    }
}

fn abs_determinant(t: &Transform) -> (r: u128)
    ensures
        r as int == abs_det(*t),
        r <= 0x8000_0000_0000_0000,
{
    assert(-0x4000_0000_0000_0000 <= t.a as int * t.d as int <= 0x4000_0000_0000_0000) by (nonlinear_arith)
        requires
            in_i32(t.a as int),
            in_i32(t.d as int),
    ;
    assert(-0x4000_0000_0000_0000 <= t.b as int * t.c as int <= 0x4000_0000_0000_0000) by (nonlinear_arith)
        requires
            in_i32(t.b as int),
            in_i32(t.c as int),
    ;
    let d: i128 = (t.a as i128) * (t.d as i128) - (t.b as i128) * (t.c as i128);
    if d < 0 {
        (-d) as u128
    } else {
        d as u128
    }
}

/// Text in absolute coordinates.
pub ghost struct TextView {
    pub text: Seq<char>,
    pub align: TextAlign,
    pub vertical_align: TextVerticalAlign,
    pub font_weight: FontWeight,
    pub font_size: int,
    pub reference_start: Point,
    pub direction: Point,
    pub on_curve: Option<CurveView>,
    pub font: Option<u32>,
}

/// Text in absolute coordinates, as a backend receives it. The font size is
/// scaled by the transform's uniform scale; the direction is the image of
/// the local x axis.
#[derive(Clone, Debug)]
pub struct TextPosition {
    pub text: String,
    pub align: TextAlign,
    pub vertical_align: TextVerticalAlign,
    pub font_weight: FontWeight,
    pub font_size: u64,
    pub reference_start: Point,
    pub direction: Point,
    pub on_curve: Option<CurvePosition>,
    pub font: Option<u32>,
}

impl TextPosition {
    pub open spec fn view(&self) -> TextView {
        TextView {
            text: self.text@,
            align: self.align,
            vertical_align: self.vertical_align,
            font_weight: self.font_weight,
            font_size: self.font_size as int,
            reference_start: self.reference_start,
            direction: self.direction,
            on_curve: match self.on_curve {
                Some(c) => Some(c@),
                None => None,
            },
            font: self.font,
        }
    }
}

pub open spec fn resolve_text_spec(parent: Transform, t: Text) -> Result<TextView, GeometryError> {
    match compose_spec(parent, t.local_transform) {
        None => Err(GeometryError::Overflow),
        Some(abs) => {
            let on_curve = match t.on_curve {
                None => Ok(None),
                Some(c) => match resolve_curve_spec(abs, c.local_transform, c.keypoints@, c.closed) {
                    Ok(v) => Ok(Some(v)),
                    Err(e) => Err(e),
                },
            };
            match on_curve {
                Err(e) => Err(e),
                Ok(on_curve) => Ok(
                    TextView {
                        text: t.text@,
                        align: t.align,
                        vertical_align: t.vertical_align,
                        font_weight: t.font_weight,
                        font_size: t.font_size * floor_sqrt(abs_det(abs)),
                        reference_start: Point { x: abs.tx, y: abs.ty },
                        direction: Point { x: abs.a, y: abs.c },
                        on_curve,
                        font: t.font,
                    },
                ),
            }
        },
    }
}

pub open spec fn text_result_view(r: Result<TextPosition, GeometryError>) -> Result<
    TextView,
    GeometryError,
> {
    match r {
        Ok(p) => Ok(p@),
        Err(e) => Err(e),
    }
}

impl Text {
    /// The text in absolute coordinates under `parent`.
    pub fn position(&self, parent: &Transform) -> (r: Result<TextPosition, GeometryError>)
        ensures
            text_result_view(r) == resolve_text_spec(*parent, *self),
    {
        let abs = match parent.compose(&self.local_transform) {
            Some(abs) => abs,
            None => {
                return Err(GeometryError::Overflow);
            },
        };
        let on_curve = match &self.on_curve {
            None => None,
            Some(c) => match c.position(&abs) {
                Ok(p) => Some(p),
                Err(e) => {
                    return Err(e);
                },
            },
        };
        let n = abs_determinant(&abs);
        let scale = isqrt(n);
        assert(scale < 0x1_0000_0000) by (nonlinear_arith)
            requires
                scale as int * scale as int <= n as int,
                n <= 0x8000_0000_0000_0000u128,
        ;
        assert(0 <= self.font_size as int * scale as int <= 0xffff_ffff * 0xffff_ffff) by (nonlinear_arith)
            requires
                scale < 0x1_0000_0000u64,
                self.font_size <= 0xffff_ffffu32,
        ;
        Ok(
            TextPosition {
                text: self.text.clone(),
                align: self.align,
                vertical_align: self.vertical_align,
                font_weight: self.font_weight,
                font_size: self.font_size as u64 * scale,
                reference_start: Point { x: abs.tx, y: abs.ty },
                direction: Point { x: abs.a, y: abs.c },
                on_curve,
                font: self.font,
            },
        )
    }
}

pub const HALF_UNIT: i32 = 500;

pub const NEG_HALF_UNIT: i32 = -HALF_UNIT;

/// An image in absolute coordinates.
pub ghost struct ImageView {
    pub top_left: Point,
    pub top_right: Point,
    pub bottom_right: Point,
    pub bottom_left: Point,
    pub center: Point,
    pub width: int,
    pub height: int,
    pub rotation: Point,
    pub pixel_width: u32,
    pub pixel_height: u32,
    pub data: Seq<u8>,
}

/// An image in absolute coordinates, as a backend receives it. `width` and
/// `height` are the lengths of its top and left edges, rounded down;
/// `rotation` is the image of the local x axis.
#[derive(Clone, Debug)]
pub struct ImagePosition {
    pub top_left: Point,
    pub top_right: Point,
    pub bottom_right: Point,
    pub bottom_left: Point,
    pub center: Point,
    pub width: u64,
    pub height: u64,
    pub rotation: Point,
    pub pixel_width: u32,
    pub pixel_height: u32,
    pub data: Vec<u8>,
}

impl ImagePosition {
    pub open spec fn view(&self) -> ImageView {
        ImageView {
            top_left: self.top_left,
            top_right: self.top_right,
            bottom_right: self.bottom_right,
            bottom_left: self.bottom_left,
            center: self.center,
            width: self.width as int,
            height: self.height as int,
            rotation: self.rotation,
            pixel_width: self.pixel_width,
            pixel_height: self.pixel_height,
            data: self.data@,
        }
    }
}

/// The distance between two points, rounded down.
pub open spec fn distance(p: Point, q: Point) -> int {
    floor_sqrt((q.x - p.x) * (q.x - p.x) + (q.y - p.y) * (q.y - p.y))
}

fn distance_exec(p: &Point, q: &Point) -> (r: u64)
    ensures
        r as int == distance(*p, *q),
{
    let dx: i64 = q.x as i64 - p.x as i64;
    let dy: i64 = q.y as i64 - p.y as i64;
    assert(0 <= dx as int * dx as int <= 0x1_0000_0000_0000_0000) by (nonlinear_arith)
        requires
            -0x1_0000_0000 <= dx <= 0x1_0000_0000,
    ;
    assert(0 <= dy as int * dy as int <= 0x1_0000_0000_0000_0000) by (nonlinear_arith)
        requires
            -0x1_0000_0000 <= dy <= 0x1_0000_0000,
    ;
    let n: u128 = ((dx as i128) * (dx as i128) + (dy as i128) * (dy as i128)) as u128;
    isqrt(n)
}

pub open spec fn resolve_image_spec(parent: Transform, i: Image) -> Result<ImageView, GeometryError> {
    match compose_spec(parent, i.local_transform) {
        None => Err(GeometryError::Overflow),
        Some(abs) => match (
            apply_spec(abs, pt(NEG_HALF_UNIT, HALF_UNIT)),
            apply_spec(abs, pt(HALF_UNIT, HALF_UNIT)),
            apply_spec(abs, pt(HALF_UNIT, NEG_HALF_UNIT)),
            apply_spec(abs, pt(NEG_HALF_UNIT, NEG_HALF_UNIT)),
        ) {
            (Some(tl), Some(tr), Some(br), Some(bl)) => Ok(
                ImageView {
                    top_left: tl,
                    top_right: tr,
                    bottom_right: br,
                    bottom_left: bl,
                    center: Point { x: abs.tx, y: abs.ty },
                    width: distance(tl, tr),
                    height: distance(bl, tl),
                    rotation: Point { x: abs.a, y: abs.c },
                    pixel_width: i.pixel_width,
                    pixel_height: i.pixel_height,
                    data: i.data@,
                },
            ),
            _ => Err(GeometryError::Overflow),
        },
    }
}

pub open spec fn image_result_view(r: Result<ImagePosition, GeometryError>) -> Result<
    ImageView,
    GeometryError,
> {
    match r {
        Ok(p) => Ok(p@),
        Err(e) => Err(e),
    }
}

impl Image {
    /// The image in absolute coordinates under `parent`.
    pub fn position(&self, parent: &Transform) -> (r: Result<ImagePosition, GeometryError>)
        ensures
            image_result_view(r) == resolve_image_spec(*parent, *self),
    {
        let abs = match parent.compose(&self.local_transform) {
            Some(abs) => abs,
            None => {
                return Err(GeometryError::Overflow);
            },
        };
        let tl = abs.apply(&Point { x: NEG_HALF_UNIT, y: HALF_UNIT });
        let tr = abs.apply(&Point { x: HALF_UNIT, y: HALF_UNIT });
        let br = abs.apply(&Point { x: HALF_UNIT, y: NEG_HALF_UNIT });
        let bl = abs.apply(&Point { x: NEG_HALF_UNIT, y: NEG_HALF_UNIT });
        match (tl, tr, br, bl) {
            (Some(tl), Some(tr), Some(br), Some(bl)) => {
                let width = distance_exec(&tl, &tr);
                let height = distance_exec(&bl, &tl);
                Ok(
                    ImagePosition {
                        top_left: tl,
                        top_right: tr,
                        bottom_right: br,
                        bottom_left: bl,
                        center: Point { x: abs.tx, y: abs.ty },
                        width,
                        height,
                        rotation: Point { x: abs.a, y: abs.c },
                        pixel_width: self.pixel_width,
                        pixel_height: self.pixel_height,
                        data: self.data.clone(),
                    },
                )
            },
            _ => Err(GeometryError::Overflow),
        }
    }
}

} // verus!
