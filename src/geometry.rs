use vstd::prelude::*;

verus! {

/// Coordinate steps in one document unit: the unit circle of an ellipse has
/// this radius.
pub const UNIT: i32 = 1000;

/// Whether a value fits a coordinate or a transform entry.
pub open spec fn in_i32(v: int) -> bool {
    i32::MIN <= v <= i32::MAX
}

/// A point, or a vector, in coordinate steps.
#[derive(Clone, Copy, Debug, PartialEq, Eq, Structural)]
pub struct Point {
    pub x: i32,
    pub y: i32,
}

/// The mathematical model of a point.
pub ghost struct Pt {
    pub x: int,
    pub y: int,
}

impl Point {
    pub open spec fn view(self) -> Pt {
        Pt { x: self.x as int, y: self.y as int }
    }

    pub fn new(x: i32, y: i32) -> (r: Point)
        ensures
            r.x == x,
            r.y == y,
    {
        Point { x, y }
    }
}

/// The point of a model whose coordinates fit.
pub open spec fn pt_fits(p: Pt) -> bool {
    in_i32(p.x) && in_i32(p.y)
}

pub open spec fn point_of(p: Pt) -> Point
    recommends
        pt_fits(p),
{
    Point { x: p.x as i32, y: p.y as i32 }
}

/// An affine map `p -> L p + t` with an integer linear part
/// `L = [[a, b], [c, d]]` and a translation `(tx, ty)` in coordinate steps.
#[derive(Clone, Copy, Debug, PartialEq, Eq, Structural)]
pub struct Transform {
    pub a: i32,
    pub b: i32,
    pub c: i32,
    pub d: i32,
    pub tx: i32,
    pub ty: i32,
}

/// The mathematical model of a transform: unbounded entries.
pub ghost struct Affine {
    pub a: int,
    pub b: int,
    pub c: int,
    pub d: int,
    pub tx: int,
    pub ty: int,
}

impl Affine {
    /// Matrix product: `self.mul(o)` applies `o` first, then `self`.
    pub open spec fn mul(self, o: Affine) -> Affine {
        Affine {
            a: self.a * o.a + self.b * o.c,
            b: self.a * o.b + self.b * o.d,
            c: self.c * o.a + self.d * o.c,
            d: self.c * o.b + self.d * o.d,
            tx: self.a * o.tx + self.b * o.ty + self.tx,
            ty: self.c * o.tx + self.d * o.ty + self.ty,
        }
    }

    /// The image of a point.
    pub open spec fn apply(self, p: Pt) -> Pt {
        Pt { x: self.a * p.x + self.b * p.y + self.tx, y: self.c * p.x + self.d * p.y + self.ty }
    }

    /// The image of a vector: the linear part alone.
    pub open spec fn apply_vector(self, p: Pt) -> Pt {
        Pt { x: self.a * p.x + self.b * p.y, y: self.c * p.x + self.d * p.y }
    }

    pub open spec fn fits(self) -> bool {
        in_i32(self.a) && in_i32(self.b) && in_i32(self.c) && in_i32(self.d) && in_i32(self.tx)
            && in_i32(self.ty)
    }

    pub open spec fn determinant(self) -> int {
        self.a * self.d - self.b * self.c
    }
}

pub open spec fn identity_affine() -> Affine {
    Affine { a: 1, b: 0, c: 0, d: 1, tx: 0, ty: 0 }
}

pub open spec fn transform_of(m: Affine) -> Transform
    recommends
        m.fits(),
{
    Transform {
        a: m.a as i32,
        b: m.b as i32,
        c: m.c as i32,
        d: m.d as i32,
        tx: m.tx as i32,
        ty: m.ty as i32,
    }
}

/// Composition with overflow made visible: `None` when an entry leaves `i32`.
pub open spec fn compose_spec(t1: Transform, t2: Transform) -> Option<Transform> {
    let m = t1@.mul(t2@);
    if m.fits() {
        Some(transform_of(m))
    } else {
        None
    }
}

/// The image of a point, `None` when a coordinate leaves `i32`.
pub open spec fn apply_spec(t: Transform, p: Point) -> Option<Point> {
    let q = t@.apply(p@);
    if pt_fits(q) {
        Some(point_of(q))
    } else {
        None
    }
}

/// An `i128` that holds a checked value back in `i32`.
fn narrow(v: i128) -> (r: Option<i32>)
    ensures
        r == (if in_i32(v as int) {
            Some(v as i32)
        } else {
            None::<i32>
        }),
{
    if i32::MIN as i128 <= v && v <= i32::MAX as i128 {
        Some(v as i32)
    } else {
        None
    }
}

/// `a * b + c * d + e` computed exactly.
fn sum_of_products(a: i32, b: i32, c: i32, d: i32, e: i32) -> (r: i128)
    ensures
        r as int == a as int * b as int + c as int * d as int + e as int,
{
    assert(-0x4000_0000_0000_0000 <= a as int * b as int <= 0x4000_0000_0000_0000) by (nonlinear_arith)
        requires
            in_i32(a as int),
            in_i32(b as int),
    ;
    assert(-0x4000_0000_0000_0000 <= c as int * d as int <= 0x4000_0000_0000_0000) by (nonlinear_arith)
        requires
            in_i32(c as int),
            in_i32(d as int),
    ;
    (a as i128) * (b as i128) + (c as i128) * (d as i128) + (e as i128)
}

impl Transform {
    pub open spec fn view(self) -> Affine {
        Affine {
            a: self.a as int,
            b: self.b as int,
            c: self.c as int,
            d: self.d as int,
            tx: self.tx as int,
            ty: self.ty as int,
        }
    }

    pub fn identity() -> (r: Transform)
        ensures
            r@ == identity_affine(),
    {
        Transform { a: 1, b: 0, c: 0, d: 1, tx: 0, ty: 0 }
    }

    pub fn translation(dx: i32, dy: i32) -> (r: Transform)
        ensures
            r@ == (Affine { tx: dx as int, ty: dy as int, ..identity_affine() }),
    {
        Transform { a: 1, b: 0, c: 0, d: 1, tx: dx, ty: dy }
    }

    /// Scaling along the axes by integer factors.
    pub fn scaling(sx: i32, sy: i32) -> (r: Transform)
        ensures
            r@ == (Affine { a: sx as int, d: sy as int, ..identity_affine() }),
    {
        Transform { a: sx, b: 0, c: 0, d: sy, tx: 0, ty: 0 }
    }

    /// Counter-clockwise rotation by `quarter_turns` right angles.
    pub fn rotation(quarter_turns: u32) -> (r: Transform)
        ensures
            r@ == quarter_turn(quarter_turns as int % 4),
    {
        let q = quarter_turns % 4;
        if q == 0 {
            Transform { a: 1, b: 0, c: 0, d: 1, tx: 0, ty: 0 }
        } else if q == 1 {
            Transform { a: 0, b: -1, c: 1, d: 0, tx: 0, ty: 0 }
        } else if q == 2 {
            Transform { a: -1, b: 0, c: 0, d: -1, tx: 0, ty: 0 }
        } else {
            Transform { a: 0, b: 1, c: -1, d: 0, tx: 0, ty: 0 }
        }
    }

    /// `self` after `o`: the product `self * o`, or `None` on overflow.
    pub fn compose(&self, o: &Transform) -> (r: Option<Transform>)
        ensures
            r == compose_spec(*self, *o),
    {
        let a = narrow(sum_of_products(self.a, o.a, self.b, o.c, 0));
        let b = narrow(sum_of_products(self.a, o.b, self.b, o.d, 0));
        let c = narrow(sum_of_products(self.c, o.a, self.d, o.c, 0));
        let d = narrow(sum_of_products(self.c, o.b, self.d, o.d, 0));
        let tx = narrow(sum_of_products(self.a, o.tx, self.b, o.ty, self.tx));
        let ty = narrow(sum_of_products(self.c, o.tx, self.d, o.ty, self.ty));
        match (a, b, c, d, tx, ty) {
            (Some(a), Some(b), Some(c), Some(d), Some(tx), Some(ty)) => Some(
                Transform { a, b, c, d, tx, ty },
            ),
            _ => None,
        }
    }

    /// The image of a point, or `None` on overflow.
    pub fn apply(&self, p: &Point) -> (r: Option<Point>)
        ensures
            r == apply_spec(*self, *p),
    {
        let x = narrow(sum_of_products(self.a, p.x, self.b, p.y, self.tx));
        let y = narrow(sum_of_products(self.c, p.x, self.d, p.y, self.ty));
        match (x, y) {
            (Some(x), Some(y)) => Some(Point { x, y }),
            _ => None,
        }
    }
}

pub open spec fn quarter_turn(q: int) -> Affine {
    if q == 0 {
        identity_affine()
    } else if q == 1 {
        Affine { a: 0, b: -1, c: 1, d: 0, tx: 0, ty: 0 }
    } else if q == 2 {
        Affine { a: -1, b: 0, c: 0, d: -1, tx: 0, ty: 0 }
    } else {
        Affine { a: 0, b: 1, c: -1, d: 0, tx: 0, ty: 0 }
    }
}

proof fn lemma_row(xa: int, xb: int, ya: int, yb: int, yc: int, yd: int, t1: int, t2: int, u: int, v: int)
    ensures
        (xa * ya + xb * yc) * u + (xa * yb + xb * yd) * v + (xa * t1 + xb * t2) == xa * (ya * u + yb
            * v + t1) + xb * (yc * u + yd * v + t2),
{
    assert((xa * ya + xb * yc) * u == xa * (ya * u) + xb * (yc * u)) by (nonlinear_arith);
    assert((xa * yb + xb * yd) * v == xa * (yb * v) + xb * (yd * v)) by (nonlinear_arith);
    assert(xa * (ya * u + yb * v + t1) == xa * (ya * u) + xa * (yb * v) + xa * t1) by (nonlinear_arith);
    assert(xb * (yc * u + yd * v + t2) == xb * (yc * u) + xb * (yd * v) + xb * t2) by (nonlinear_arith);
}

/// Composition of transforms is associative.
pub proof fn lemma_mul_associative(x: Affine, y: Affine, z: Affine)
    ensures
        x.mul(y).mul(z) == x.mul(y.mul(z)),
{
    lemma_row(x.a, x.b, y.a, y.b, y.c, y.d, 0, 0, z.a, z.c);
    lemma_row(x.a, x.b, y.a, y.b, y.c, y.d, 0, 0, z.b, z.d);
    lemma_row(x.c, x.d, y.a, y.b, y.c, y.d, 0, 0, z.a, z.c);
    lemma_row(x.c, x.d, y.a, y.b, y.c, y.d, 0, 0, z.b, z.d);
    lemma_row(x.a, x.b, y.a, y.b, y.c, y.d, y.tx, y.ty, z.tx, z.ty);
    lemma_row(x.c, x.d, y.a, y.b, y.c, y.d, y.tx, y.ty, z.tx, z.ty);
}

/// Applying a product applies the right factor first.
pub proof fn lemma_apply_mul(x: Affine, y: Affine, p: Pt)
    ensures
        x.mul(y).apply(p) == x.apply(y.apply(p)),
        x.mul(y).apply_vector(p) == x.apply_vector(y.apply_vector(p)),
{
    lemma_row(x.a, x.b, y.a, y.b, y.c, y.d, y.tx, y.ty, p.x, p.y);
    lemma_row(x.c, x.d, y.a, y.b, y.c, y.d, y.tx, y.ty, p.x, p.y);
    lemma_row(x.a, x.b, y.a, y.b, y.c, y.d, 0, 0, p.x, p.y);
    lemma_row(x.c, x.d, y.a, y.b, y.c, y.d, 0, 0, p.x, p.y);
}

/// An axis-aligned rectangle given by its corners, `min <= max` on each axis.
#[derive(Clone, Copy, Debug, PartialEq, Eq, Structural)]
pub struct Rect {
    pub min: Point,
    pub max: Point,
}

pub open spec fn min_i32(a: i32, b: i32) -> i32 {
    if a <= b {
        a
    } else {
        b
    }
}

pub open spec fn max_i32(a: i32, b: i32) -> i32 {
    if a >= b {
        a
    } else {
        b
    }
}

/// The smallest rectangle holding both.
pub open spec fn union_spec(r1: Rect, r2: Rect) -> Rect {
    Rect {
        min: Point { x: min_i32(r1.min.x, r2.min.x), y: min_i32(r1.min.y, r2.min.y) },
        max: Point { x: max_i32(r1.max.x, r2.max.x), y: max_i32(r1.max.y, r2.max.y) },
    }
}

/// Union where an absent box is empty.
pub open spec fn union_opt(r1: Option<Rect>, r2: Option<Rect>) -> Option<Rect> {
    match (r1, r2) {
        (Some(a), Some(b)) => Some(union_spec(a, b)),
        (Some(a), None) => Some(a),
        (None, b) => b,
    }
}

pub open spec fn point_rect(p: Point) -> Rect {
    Rect { min: p, max: p }
}

/// The bounding box of a sequence of points; `None` for no points.
pub open spec fn bbox_of(ps: Seq<Point>) -> Option<Rect>
    decreases ps.len(),
{
    if ps.len() == 0 {
        None
    } else {
        union_opt(bbox_of(ps.drop_last()), Some(point_rect(ps.last())))
    }
}

/// The bounding box of a concatenation is the union of the boxes.
pub proof fn lemma_bbox_concat(a: Seq<Point>, b: Seq<Point>)
    ensures
        bbox_of(a + b) == union_opt(bbox_of(a), bbox_of(b)),
    decreases b.len(),
{
    if b.len() == 0 {
        assert(a + b =~= a);
    } else {
        assert((a + b).drop_last() =~= a + b.drop_last());
        lemma_bbox_concat(a, b.drop_last());
    }
}

/// A box holds a point.
pub open spec fn rect_contains(r: Rect, p: Point) -> bool {
    r.min.x <= p.x <= r.max.x && r.min.y <= p.y <= r.max.y
}

/// The bounding box holds every point and is attained on each side.
pub proof fn lemma_bbox_bounds(ps: Seq<Point>)
    ensures
        ps.len() == 0 <==> bbox_of(ps) is None,
        bbox_of(ps) matches Some(r) ==> {
            &&& forall|i: int| 0 <= i < ps.len() ==> rect_contains(r, #[trigger] ps[i])
            &&& exists|i: int| 0 <= i < ps.len() && ps[i].x == r.min.x
            &&& exists|i: int| 0 <= i < ps.len() && ps[i].x == r.max.x
            &&& exists|i: int| 0 <= i < ps.len() && ps[i].y == r.min.y
            &&& exists|i: int| 0 <= i < ps.len() && ps[i].y == r.max.y
        },
    decreases ps.len(),
{
    if ps.len() > 0 {
        let init = ps.drop_last();
        lemma_bbox_bounds(init);
        let n = ps.len() - 1;
        assert(ps[n] == ps.last());
        if let Some(r) = bbox_of(init) {
            assert forall|i: int| 0 <= i < ps.len() implies rect_contains(
                bbox_of(ps)->Some_0,
                #[trigger] ps[i],
            ) by {
                if i < n {
                    assert(ps[i] == init[i]);
                }
            }
            let r2 = bbox_of(ps)->Some_0;
            if r2.min.x != ps[n].x {
                let i = choose|i: int| 0 <= i < init.len() && init[i].x == r.min.x;
                assert(ps[i] == init[i]);
            }
            if r2.max.x != ps[n].x {
                let i = choose|i: int| 0 <= i < init.len() && init[i].x == r.max.x;
                assert(ps[i] == init[i]);
            }
            if r2.min.y != ps[n].y {
                let i = choose|i: int| 0 <= i < init.len() && init[i].y == r.min.y;
                assert(ps[i] == init[i]);
            }
            if r2.max.y != ps[n].y {
                let i = choose|i: int| 0 <= i < init.len() && init[i].y == r.max.y;
                assert(ps[i] == init[i]);
            }
        }
    }
}

impl Rect {
    pub fn width(&self) -> (r: i64)
        ensures
            r == self.max.x - self.min.x,
    {
        self.max.x as i64 - self.min.x as i64
    }

    pub fn height(&self) -> (r: i64)
        ensures
            r == self.max.y - self.min.y,
    {
        self.max.y as i64 - self.min.y as i64
    }

    /// The smallest rectangle holding both.
    pub fn union(&self, o: &Rect) -> (r: Rect)
        ensures
            r == union_spec(*self, *o),
    {
        Rect {
            min: Point {
                x: if self.min.x <= o.min.x { self.min.x } else { o.min.x },
                y: if self.min.y <= o.min.y { self.min.y } else { o.min.y },
            },
            max: Point {
                x: if self.max.x >= o.max.x { self.max.x } else { o.max.x },
                y: if self.max.y >= o.max.y { self.max.y } else { o.max.y },
            },
        }
    }
}

/// Union where an absent box is empty.
pub fn union_boxes(r1: Option<Rect>, r2: Option<Rect>) -> (r: Option<Rect>)
    ensures
        r == union_opt(r1, r2),
{
    match (r1, r2) {
        (Some(a), Some(b)) => Some(a.union(&b)),
        (Some(a), None) => Some(a),
        (None, b) => b,
    }
}

/// The bounding box of some points.
pub fn bounding_box_of(ps: &Vec<Point>) -> (r: Option<Rect>)
    ensures
        r == bbox_of(ps@),
{
    let mut acc: Option<Rect> = None;
    let mut i: usize = 0;
    while i < ps.len()
        invariant
            i <= ps@.len(),
            acc == bbox_of(ps@.subrange(0, i as int)),
        decreases ps.len() - i,
    {
        assert(ps@.subrange(0, i + 1).drop_last() =~= ps@.subrange(0, i as int));
        acc = union_boxes(acc, Some(Rect { min: ps[i], max: ps[i] }));
        i += 1;
    }
    assert(ps@.subrange(0, i as int) =~= ps@);
    acc
}

} // verus!
