use vstd::prelude::*;
use crate::circle::Circle;
use crate::geometry::{Point, Transform};
use crate::shape::{Curve, Ellipse, Group, Image, Line, Shape, Text};

verus! {

/// Adds a shape to a collection of shapes.
pub trait AddShape<T>: Sized {
    /// The shapes held, in drawing order.
    spec fn held(&self) -> Seq<Shape>;

    /// What `shape` becomes once held.
    spec fn as_shape(shape: T) -> Shape;

    /// Appends `shape`; everything else is kept.
    fn add(&mut self, shape: T) -> (r: &mut Self)
        ensures
            r.held() == old(self).held().push(Self::as_shape(shape)),
            *final(self) == *final(r),
    ;
}

/// A canvas size and the shapes drawn on it, in order.
#[derive(Debug)]
pub struct Drawing {
    pub canvas_size: Point,
    pub shapes: Vec<Shape>,
}

/// A drawing placed in another one: a group of its shapes.
#[derive(Debug)]
pub struct EmbeddedDrawing {
    pub local_transform: Transform,
    pub canvas_size: Point,
    pub shapes: Vec<Shape>,
}

impl Drawing {
    /// An empty drawing on an empty canvas.
    pub fn empty() -> (r: Drawing)
        ensures
            r.canvas_size == (Point { x: 0, y: 0 }),
            r.shapes@.len() == 0,
    {
        Drawing { canvas_size: Point { x: 0, y: 0 }, shapes: Vec::new() }
    }

    pub fn with_canvas_size(self, canvas_size: Point) -> (r: Drawing)
        ensures
            r.canvas_size == canvas_size,
            r.shapes@ == self.shapes@,
    {
        let mut d = self;
        d.canvas_size = canvas_size;
        d
    }

    /// The drawing's shapes, in drawing order.
    pub fn shapes(&self) -> (r: &Vec<Shape>)
        ensures
            r@ == self.shapes@,
    {
        &self.shapes
    }

    /// The drawing as a group that another drawing can hold, at the origin.
    pub fn into_embedded(self) -> (r: EmbeddedDrawing)
        ensures
            r.local_transform == (Transform { a: 1, b: 0, c: 0, d: 1, tx: 0, ty: 0 }),
            r.canvas_size == self.canvas_size,
            r.shapes@ == self.shapes@,
    {
        EmbeddedDrawing {
            local_transform: Transform::identity(),
            canvas_size: self.canvas_size,
            shapes: self.shapes,
        }
    }

    fn push_shape(&mut self, shape: Shape) -> (r: &mut Self)
        ensures
            r.shapes@ == old(self).shapes@.push(shape),
            r.canvas_size == old(self).canvas_size,
            *final(self) == *final(r),
    {
        self.shapes.push(shape);
        self
    }
}

impl EmbeddedDrawing {
    /// The group of the embedded shapes under the placement transform.
    pub fn into_shape(self) -> (r: Shape)
        ensures
            r matches Shape::Group(g) && g.local_transform == self.local_transform && g.shapes@
                == self.shapes@ && g.metadata@.len() == 0,
    {
        Shape::Group(Group { local_transform: self.local_transform, shapes: self.shapes, metadata: Vec::new() })
    }
}

impl AddShape<Shape> for Drawing {
    open spec fn held(&self) -> Seq<Shape> {
        self.shapes@
    }

    open spec fn as_shape(shape: Shape) -> Shape {
        shape
    }

    fn add(&mut self, shape: Shape) -> (r: &mut Self)
        ensures
            r.canvas_size == old(self).canvas_size,
    {
        self.push_shape(shape)
    }
}

impl AddShape<Curve> for Drawing {
    open spec fn held(&self) -> Seq<Shape> {
        self.shapes@
    }

    open spec fn as_shape(shape: Curve) -> Shape {
        Shape::Curve(shape)
    }

    fn add(&mut self, shape: Curve) -> (r: &mut Self)
        ensures
            r.canvas_size == old(self).canvas_size,
    {
        self.push_shape(Shape::Curve(shape))
    }
}

impl AddShape<Ellipse> for Drawing {
    open spec fn held(&self) -> Seq<Shape> {
        self.shapes@
    }

    open spec fn as_shape(shape: Ellipse) -> Shape {
        Shape::Ellipse(shape)
    }

    fn add(&mut self, shape: Ellipse) -> (r: &mut Self)
        ensures
            r.canvas_size == old(self).canvas_size,
    {
        self.push_shape(Shape::Ellipse(shape))
    }
}

impl AddShape<Circle> for Drawing {
    open spec fn held(&self) -> Seq<Shape> {
        self.shapes@
    }

    open spec fn as_shape(shape: Circle) -> Shape {
        Shape::Ellipse(Ellipse { local_transform: shape.local_transform })
    }

    fn add(&mut self, shape: Circle) -> (r: &mut Self)
        ensures
            r.canvas_size == old(self).canvas_size,
    {
        self.push_shape(shape.into_shape())
    }
}

impl AddShape<Line> for Drawing {
    open spec fn held(&self) -> Seq<Shape> {
        self.shapes@
    }

    open spec fn as_shape(shape: Line) -> Shape {
        Shape::Line(shape)
    }

    fn add(&mut self, shape: Line) -> (r: &mut Self)
        ensures
            r.canvas_size == old(self).canvas_size,
    {
        self.push_shape(Shape::Line(shape))
    }
}

impl AddShape<Text> for Drawing {
    open spec fn held(&self) -> Seq<Shape> {
        self.shapes@
    }

    open spec fn as_shape(shape: Text) -> Shape {
        Shape::Text(shape)
    }

    fn add(&mut self, shape: Text) -> (r: &mut Self)
        ensures
            r.canvas_size == old(self).canvas_size,
    {
        self.push_shape(Shape::Text(shape))
    }
}

impl AddShape<Image> for Drawing {
    open spec fn held(&self) -> Seq<Shape> {
        self.shapes@
    }

    open spec fn as_shape(shape: Image) -> Shape {
        Shape::Image(shape)
    }

    fn add(&mut self, shape: Image) -> (r: &mut Self)
        ensures
            r.canvas_size == old(self).canvas_size,
    {
        self.push_shape(Shape::Image(shape))
    }
}

} // verus!
