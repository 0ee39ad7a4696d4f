use vstd::prelude::*;
use crate::geometry::{compose_spec, Transform};
use crate::shape::{Ellipse, Shape};

verus! {

/// A circle: the unit circle under its transform, a radius being a uniform
/// scale.
#[derive(Clone, Copy, Debug, PartialEq, Eq, Structural)]
pub struct Circle {
    pub local_transform: Transform,
}

pub open spec fn scaling_spec(sx: i32, sy: i32) -> Transform {
    Transform { a: sx, b: 0, c: 0, d: sy, tx: 0, ty: 0 }
}

impl Circle {
    /// The unit circle.
    pub fn new() -> (r: Circle)
        ensures
            r.local_transform == (Transform { a: 1, b: 0, c: 0, d: 1, tx: 0, ty: 0 }),
    {
        Circle { local_transform: Transform::identity() }
    }

    /// Scales the circle by `radius` in its own frame.
    pub fn radius(&mut self, radius: i32) -> (r: &mut Self)
        requires
            compose_spec(old(self).local_transform, scaling_spec(radius, radius)) is Some,
        ensures
            *r == (Circle {
                local_transform: compose_spec(old(self).local_transform, scaling_spec(radius, radius))->Some_0,
            }),
            *final(self) == *final(r),
    {
        let s = Transform::scaling(radius, radius);
        self.transform(&s);
        self
    }

    /// The circle scaled by `radius` in its own frame.
    pub fn with_radius(self, radius: i32) -> (r: Self)
        requires
            compose_spec(self.local_transform, scaling_spec(radius, radius)) is Some,
        ensures
            r.local_transform == compose_spec(self.local_transform, scaling_spec(radius, radius))->Some_0,
    {
        let mut c = self;
        c.radius(radius);
        c
    }

    /// Applies `t` in the circle's own frame: the transform becomes
    /// `local * t`.
    pub fn transform(&mut self, t: &Transform) -> (r: &mut Self)
        requires
            compose_spec(old(self).local_transform, *t) is Some,
        ensures
            *r == (Circle { local_transform: compose_spec(old(self).local_transform, *t)->Some_0 }),
            *final(self) == *final(r),
    {
        match self.local_transform.compose(t) {
            Some(n) => self.local_transform = n,
            None => {},
        }
        self
    }

    pub fn local_transform(&self) -> (r: &Transform)
        ensures
            *r == self.local_transform,
    {
        &self.local_transform
    }

    /// The circle as a shape: an ellipse with the same transform.
    pub fn into_shape(self) -> (r: Shape)
        ensures
            r == Shape::Ellipse(Ellipse { local_transform: self.local_transform }),
    {
        Shape::Ellipse(Ellipse { local_transform: self.local_transform })
    }
}

impl From<Circle> for Shape {
    fn from(c: Circle) -> Shape {
        c.into_shape()
    }
}

impl vstd::std_specs::convert::FromSpecImpl<Circle> for Shape {
    open spec fn obeys_from_spec() -> bool {
        true
    }

    open spec fn from_spec(c: Circle) -> Shape {
        Shape::Ellipse(Ellipse { local_transform: c.local_transform })
    }
}

} // verus!
