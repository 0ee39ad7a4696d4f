//! A tree of vector shapes, resolved into absolute geometry under nested
//! affine transforms and handed to export backends as a sequence of calls.
//!
//! Coordinates are exact integers: one step is a micrometre, and one document
//! unit (a millimetre) is [`geometry::UNIT`] steps.

/// Points, integer affine transforms and rectangles.
pub mod geometry;
/// The shape tree and its transform operations.
pub mod shape;
/// Absolute positions of resolved shapes.
pub mod position;
/// The call sequence of a tree, the backend trait and the export driver.
pub mod export;
/// A backend that records the calls it receives.
pub mod recorder;
/// Bounding boxes of resolved geometry.
pub mod bounds;
/// Laws that the resolution and the export obey.
pub mod laws;
/// Circles, the scaled unit ellipse.
pub mod circle;
/// Drawings: a canvas and its shapes.
pub mod drawing;
/// A PDF backend that lays pages out as drawing operations.
pub mod pdf;
