use vstd::prelude::*;
use crate::geometry::{compose_spec, quarter_turn, transform_of, Point, Transform, UNIT};

verus! {

/// One vertex of a curve.
#[derive(Clone, Copy, Debug, PartialEq, Eq, Structural)]
pub enum Keypoint {
    Point(Point),
    Bezier(Bezier),
}

/// A cubic Bezier segment. Without `start` it begins where the previous
/// keypoint ends.
#[derive(Clone, Copy, Debug, PartialEq, Eq, Structural)]
pub struct Bezier {
    pub start: Option<Point>,
    pub start_control: Point,
    pub end_control: Point,
    pub end: Point,
}

#[derive(Clone, Copy, Debug, PartialEq, Eq, Structural)]
pub struct Color {
    pub r: u8,
    pub g: u8,
    pub b: u8,
}

#[derive(Clone, Copy, Debug, PartialEq, Eq, Structural)]
pub enum Fill {
    Color(Color),
}

/// An outline; widths and dash lengths are in coordinate steps.
#[derive(Clone, Copy, Debug, PartialEq, Eq, Structural)]
pub enum Stroke {
    Full { color: Color, width: u32 },
    Dashed { color: Color, width: u32, on: u32, off: u32 },
}

/// Optional fill and stroke; also what a backend receives to start a style.
#[derive(Clone, Copy, Debug, PartialEq, Eq, Structural)]
pub struct Style {
    pub fill: Option<Fill>,
    pub stroke: Option<Stroke>,
}

/// The style in force inside `inner` nested in `outer`: a field set on the
/// inner style wins, an absent one is taken from the outer style.
pub open spec fn merge_spec(inner: Style, outer: Style) -> Style {
    Style {
        fill: if inner.fill is Some { inner.fill } else { outer.fill },
        stroke: if inner.stroke is Some { inner.stroke } else { outer.stroke },
    }
}

impl Style {
    pub fn none() -> (r: Style)
        ensures
            r.fill is None,
            r.stroke is None,
    {
        Style { fill: None, stroke: None }
    }

    /// This style nested inside `outer`.
    pub fn merged_into(&self, outer: &Style) -> (r: Style)
        ensures
            r == merge_spec(*self, *outer),
    {
        Style {
            fill: if self.fill.is_some() { self.fill } else { outer.fill },
            stroke: if self.stroke.is_some() { self.stroke } else { outer.stroke },
        }
    }
}

#[derive(Clone, Copy, Debug, PartialEq, Eq, Structural)]
pub enum FontWeight {
    Regular,
    Bold,
    Italic,
    BoldItalic,
}

#[derive(Clone, Copy, Debug, PartialEq, Eq, Structural)]
pub enum TextAlign {
    Left,
    Center,
    Right,
}

#[derive(Clone, Copy, Debug, PartialEq, Eq, Structural)]
pub enum TextVerticalAlign {
    Top,
    Center,
    Bottom,
}

/// A polyline or Bezier path.
#[derive(Clone, Debug)]
pub struct Curve {
    pub local_transform: Transform,
    pub keypoints: Vec<Keypoint>,
    pub closed: bool,
}

/// The unit circle (radius [`UNIT`]) under its transform.
#[derive(Clone, Copy, Debug, PartialEq, Eq, Structural)]
pub struct Ellipse {
    pub local_transform: Transform,
}

#[derive(Clone, Copy, Debug, PartialEq, Eq, Structural)]
pub struct Line {
    pub local_transform: Transform,
    pub from: Point,
    pub to: Point,
}

/// Text anchored at the local origin, running along the local x axis.
#[derive(Clone, Debug)]
pub struct Text {
    pub local_transform: Transform,
    pub text: String,
    pub align: TextAlign,
    pub vertical_align: TextVerticalAlign,
    pub font: Option<u32>,
    pub font_weight: FontWeight,
    pub font_size: u32,
    pub on_curve: Option<Curve>,
}

/// A raster image filling the unit square (side [`UNIT`], centred on the
/// local origin) under its transform.
#[derive(Clone, Debug)]
pub struct Image {
    pub local_transform: Transform,
    pub pixel_width: u32,
    pub pixel_height: u32,
    pub data: Vec<u8>,
}

/// Child shapes drawn in order under a common transform.
#[derive(Debug)]
pub struct Group {
    pub local_transform: Transform,
    pub shapes: Vec<Shape>,
    pub metadata: Vec<(String, String)>,
}

/// A shape drawn with a style.
#[derive(Debug)]
pub struct Styled {
    pub style: Style,
    pub shape: Box<Shape>,
}

/// A node of the shape tree.
#[derive(Debug)]
pub enum Shape {
    Group(Group),
    Style(Styled),
    Ellipse(Ellipse),
    Curve(Curve),
    Line(Line),
    Text(Text),
    Image(Image),
}

impl Shape {
    /// The transform that the node declares; a style delegates to its shape.
    pub open spec fn local_transform_spec(&self) -> Transform
        decreases self,
    {
        match self {
            Shape::Group(g) => g.local_transform,
            Shape::Style(s) => s.shape.local_transform_spec(),
            Shape::Ellipse(e) => e.local_transform,
            Shape::Curve(c) => c.local_transform,
            Shape::Line(l) => l.local_transform,
            Shape::Text(t) => t.local_transform,
            Shape::Image(i) => i.local_transform,
        }
    }

    /// The node with another transform, everything else kept.
    pub open spec fn with_transform_spec(self, t: Transform) -> Shape
        decreases self,
    {
        match self {
            Shape::Group(g) => Shape::Group(Group { local_transform: t, ..g }),
            Shape::Style(s) => Shape::Style(
                Styled { style: s.style, shape: Box::new((*s.shape).with_transform_spec(t)) },
            ),
            Shape::Ellipse(e) => Shape::Ellipse(Ellipse { local_transform: t }),
            Shape::Curve(c) => Shape::Curve(Curve { local_transform: t, ..c }),
            Shape::Line(l) => Shape::Line(Line { local_transform: t, ..l }),
            Shape::Text(x) => Shape::Text(Text { local_transform: t, ..x }),
            Shape::Image(i) => Shape::Image(Image { local_transform: t, ..i }),
        }
    }

    pub fn local_transform(&self) -> (r: Transform)
        ensures
            r == self.local_transform_spec(),
        decreases self,
    {
        match self {
            Shape::Group(g) => g.local_transform,
            Shape::Style(s) => s.shape.local_transform(),
            Shape::Ellipse(e) => e.local_transform,
            Shape::Curve(c) => c.local_transform,
            Shape::Line(l) => l.local_transform,
            Shape::Text(t) => t.local_transform,
            Shape::Image(i) => i.local_transform,
        }
    }

    /// Replaces the declared transform.
    pub fn set_local_transform(&mut self, t: Transform)
        ensures
            *final(self) == old(self).with_transform_spec(t),
        decreases *old(self),
    {
        match self {
            Shape::Group(g) => g.local_transform = t,
            Shape::Style(s) => s.shape.set_local_transform(t),
            Shape::Ellipse(e) => e.local_transform = t,
            Shape::Curve(c) => c.local_transform = t,
            Shape::Line(l) => l.local_transform = t,
            Shape::Text(x) => x.local_transform = t,
            Shape::Image(i) => i.local_transform = t,
        }
    }

    /// Applies `t` in the shape's own frame: the local transform becomes
    /// `local * t`.
    pub fn transform(&mut self, t: &Transform)
        requires
            compose_spec(old(self).local_transform_spec(), *t) is Some,
        ensures
            *final(self) == old(self).with_transform_spec(
                compose_spec(old(self).local_transform_spec(), *t)->Some_0,
            ),
    {
        let local = self.local_transform();
        let composed = local.compose(t);
        match composed {
            Some(n) => self.set_local_transform(n),
            None => {},
        }
    }

    pub fn translate(&mut self, dx: i32, dy: i32)
        requires
            compose_spec(old(self).local_transform_spec(), Transform { a: 1, b: 0, c: 0, d: 1, tx: dx, ty: dy }) is Some,
        ensures
            *final(self) == old(self).with_transform_spec(
                compose_spec(old(self).local_transform_spec(), Transform { a: 1, b: 0, c: 0, d: 1, tx: dx, ty: dy })->Some_0,
            ),
    {
        let t = Transform::translation(dx, dy);
        self.transform(&t);
    }

    pub fn scale(&mut self, sx: i32, sy: i32)
        requires
            compose_spec(old(self).local_transform_spec(), Transform { a: sx, b: 0, c: 0, d: sy, tx: 0, ty: 0 }) is Some,
        ensures
            *final(self) == old(self).with_transform_spec(
                compose_spec(old(self).local_transform_spec(), Transform { a: sx, b: 0, c: 0, d: sy, tx: 0, ty: 0 })->Some_0,
            ),
    {
        let t = Transform::scaling(sx, sy);
        self.transform(&t);
    }

    /// Turns the shape counter-clockwise by `quarter_turns` right angles in
    /// its own frame.
    pub fn rotate(&mut self, quarter_turns: u32)
        requires
            compose_spec(old(self).local_transform_spec(), transform_of(quarter_turn(quarter_turns as int % 4))) is Some,
        ensures
            *final(self) == old(self).with_transform_spec(
                compose_spec(old(self).local_transform_spec(), transform_of(quarter_turn(quarter_turns as int % 4)))->Some_0,
            ),
    {
        let t = Transform::rotation(quarter_turns);
        assert(t == transform_of(quarter_turn(quarter_turns as int % 4)));
        self.transform(&t);
    }

    /// The shape wrapped in a style.
    pub fn with_style(self, style: Style) -> (r: Shape)
        ensures
            r == Shape::Style(Styled { style, shape: Box::new(self) }),
    {
        Shape::Style(Styled { style, shape: Box::new(self) })
    }
}

impl Styled {
    pub fn set_fill(&mut self, fill: Option<Fill>)
        ensures
            final(self).style.fill == fill,
            final(self).style.stroke == old(self).style.stroke,
            final(self).shape == old(self).shape,
    {
        self.style.fill = fill;
    }

    pub fn set_stroke(&mut self, stroke: Option<Stroke>)
        ensures
            final(self).style.stroke == stroke,
            final(self).style.fill == old(self).style.fill,
            final(self).shape == old(self).shape,
    {
        self.style.stroke = stroke;
    }
}

} // verus!
