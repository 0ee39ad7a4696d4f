use dessin::circle::Circle;
use dessin::export::{export, resolve_calls, ExportCall, ExportError};
use dessin::geometry::{Point, Rect, Transform, UNIT};
use dessin::position::{CurvePosition, GeometryError, KAPPA};
use dessin::recorder::{Recorder, RecorderFull};
use dessin::shape::{
    Bezier, Color, Curve, Ellipse, Fill, FontWeight, Group, Image, Keypoint, Line, Shape, Stroke,
    Style, Styled, Text, TextAlign, TextVerticalAlign,
};

fn p(x: i32, y: i32) -> Point {
    Point::new(x, y)
}

fn line(from: Point, to: Point) -> Shape {
    Shape::Line(Line { local_transform: Transform::identity(), from, to })
}

fn group(local_transform: Transform, shapes: Vec<Shape>) -> Shape {
    Shape::Group(Group { local_transform, shapes, metadata: vec![] })
}

fn styled(style: Style, shape: Shape) -> Shape {
    Shape::Style(Styled { style, shape: Box::new(shape) })
}

fn red() -> Color {
    Color { r: 255, g: 0, b: 0 }
}

fn black() -> Color {
    Color { r: 0, g: 0, b: 0 }
}

fn text(s: &str) -> Shape {
    Shape::Text(Text {
        local_transform: Transform::identity(),
        text: s.to_string(),
        align: TextAlign::Left,
        vertical_align: TextVerticalAlign::Bottom,
        font: None,
        font_weight: FontWeight::Regular,
        font_size: 12,
        on_curve: None,
    })
}

fn image() -> Shape {
    Shape::Image(Image { local_transform: Transform::identity(), pixel_width: 2, pixel_height: 2, data: vec![1, 2, 3, 4] })
}

fn curve_points(c: &CurvePosition) -> Vec<Point> {
    let mut out = vec![];
    for k in &c.keypoints {
        match k {
            Keypoint::Point(p) => out.push(*p),
            Keypoint::Bezier(b) => {
                if let Some(s) = b.start {
                    out.push(s);
                }
                out.push(b.start_control);
                out.push(b.end_control);
                out.push(b.end);
            }
        }
    }
    out
}

fn styled_circle() -> Shape {
    let mut c = Circle::new();
    c.transform(&Transform::translation(5 * UNIT, 5 * UNIT));
    c.radius(10);
    let style = Style { fill: None, stroke: Some(Stroke::Full { color: black(), width: UNIT as u32 }) };
    styled(style, c.into_shape())
}

#[test]
fn styled_circle_round_trip() {
    let shape = styled_circle();
    let mut rec = Recorder::new(false);
    assert!(export(&shape, &mut rec, &Transform::identity()).is_ok());
    assert_eq!(rec.log.len(), 3);
    match &rec.log[0] {
        ExportCall::StartStyle(s) => {
            assert_eq!(s.fill, None);
            assert_eq!(s.stroke, Some(Stroke::Full { color: black(), width: 1000 }));
        }
        other => panic!("expected a style start, got {:?}", other),
    }
    match &rec.log[1] {
        ExportCall::Curve(c) => {
            assert!(c.closed);
            assert_eq!(c.keypoints.len(), 4);
            assert!(c.keypoints.iter().all(|k| matches!(k, Keypoint::Bezier(_))));
            let pts = curve_points(c);
            assert_eq!(pts.iter().map(|p| p.x).min(), Some(-5000));
            assert_eq!(pts.iter().map(|p| p.y).min(), Some(-5000));
            assert_eq!(pts.iter().map(|p| p.x).max(), Some(15000));
            assert_eq!(pts.iter().map(|p| p.y).max(), Some(15000));
        }
        other => panic!("expected a curve, got {:?}", other),
    }
    assert!(matches!(rec.log[2], ExportCall::EndStyle));
    assert_eq!(
        shape.local_bounding_box(),
        Ok(Some(Rect { min: p(-5000, -5000), max: p(15000, 15000) }))
    );
}

#[test]
fn missing_start_is_a_geometry_error() {
    let curve = Shape::Curve(Curve {
        local_transform: Transform::identity(),
        keypoints: vec![Keypoint::Bezier(Bezier {
            start: None,
            start_control: p(1, 1),
            end_control: p(2, 2),
            end: p(3, 3),
        })],
        closed: false,
    });
    let mut rec = Recorder::new(false);
    let r = export(&curve, &mut rec, &Transform::identity());
    assert_eq!(r, Err(ExportError::Geometry(GeometryError::CurveHasNoStartingPoint)));
    assert!(rec.log.is_empty());
    assert_eq!(curve.local_bounding_box(), Err(GeometryError::CurveHasNoStartingPoint));
}

#[test]
fn later_bezier_without_start_continues() {
    let curve = Shape::Curve(Curve {
        local_transform: Transform::translation(10, 0),
        keypoints: vec![
            Keypoint::Point(p(0, 0)),
            Keypoint::Bezier(Bezier { start: None, start_control: p(1, 1), end_control: p(2, 2), end: p(3, 3) }),
        ],
        closed: true,
    });
    let calls = resolve_calls(&curve, &Transform::identity(), false).unwrap();
    match &calls[0] {
        ExportCall::Curve(c) => {
            assert_eq!(c.keypoints[0], Keypoint::Point(p(10, 0)));
            assert_eq!(
                c.keypoints[1],
                Keypoint::Bezier(Bezier { start: None, start_control: p(11, 1), end_control: p(12, 2), end: p(13, 3) })
            );
            assert!(c.closed);
        }
        other => panic!("expected a curve, got {:?}", other),
    }
}

#[test]
fn nested_transforms_compose_root_first() {
    let leaf = Shape::Curve(Curve {
        local_transform: Transform::scaling(2, 2),
        keypoints: vec![Keypoint::Point(p(10, 0))],
        closed: false,
    });
    let shape = group(Transform::rotation(1), vec![leaf]);
    let calls = resolve_calls(&shape, &Transform::translation(100, 0), false).unwrap();
    match &calls[0] {
        // scale: (20, 0); quarter turn: (0, 20); translate: (100, 20)
        ExportCall::Curve(c) => assert_eq!(c.keypoints[0], Keypoint::Point(p(100, 20))),
        other => panic!("expected a curve, got {:?}", other),
    }
}

#[test]
fn permuted_ancestors_give_another_result() {
    let leaf = || Shape::Curve(Curve {
        local_transform: Transform::identity(),
        keypoints: vec![Keypoint::Point(p(10, 0))],
        closed: false,
    });
    let a = group(Transform::translation(100, 0), vec![group(Transform::rotation(1), vec![leaf()])]);
    let b = group(Transform::rotation(1), vec![group(Transform::translation(100, 0), vec![leaf()])]);
    let ca = resolve_calls(&a, &Transform::identity(), false).unwrap();
    let cb = resolve_calls(&b, &Transform::identity(), false).unwrap();
    match (&ca[0], &cb[0]) {
        (ExportCall::Curve(x), ExportCall::Curve(y)) => {
            assert_eq!(x.keypoints[0], Keypoint::Point(p(100, 10)));
            assert_eq!(y.keypoints[0], Keypoint::Point(p(0, 110)));
        }
        _ => panic!("expected curves"),
    }
}

#[test]
fn bounding_box_of_group_is_union() {
    let s1 = line(p(0, 0), p(10, 5));
    let s2 = line(p(20, -3), p(30, 4));
    let b1 = s1.local_bounding_box().unwrap().unwrap();
    let b2 = s2.local_bounding_box().unwrap().unwrap();
    assert_eq!(b1, Rect { min: p(0, 0), max: p(10, 5) });
    assert_eq!(b2, Rect { min: p(20, -3), max: p(30, 4) });
    let g = group(Transform::identity(), vec![s1, s2]);
    assert_eq!(g.local_bounding_box(), Ok(Some(b1.union(&b2))));
    assert_eq!(g.local_bounding_box(), Ok(Some(Rect { min: p(0, -3), max: p(30, 5) })));
}

#[test]
fn empty_group_has_no_box() {
    let g = group(Transform::identity(), vec![]);
    assert_eq!(g.local_bounding_box(), Ok(None));
    let mut rec = Recorder::new(false);
    assert!(export(&g, &mut rec, &Transform::identity()).is_ok());
    assert!(rec.log.is_empty());
}

#[test]
fn style_wraps_only_its_shape() {
    let fill_red = Style { fill: Some(Fill::Color(red())), stroke: None };
    let shape = group(
        Transform::identity(),
        vec![styled(fill_red, line(p(0, 0), p(1, 1))), line(p(2, 2), p(3, 3))],
    );
    let mut rec = Recorder::new(false);
    assert!(export(&shape, &mut rec, &Transform::identity()).is_ok());
    assert_eq!(rec.log.len(), 4);
    assert!(matches!(&rec.log[0], ExportCall::StartStyle(s) if *s == fill_red));
    assert!(matches!(&rec.log[1], ExportCall::Curve(_)));
    assert!(matches!(rec.log[2], ExportCall::EndStyle));
    assert!(matches!(&rec.log[3], ExportCall::Curve(c) if c.keypoints[0] == Keypoint::Point(p(2, 2))));
}

#[test]
fn inner_style_wins_and_inherits() {
    let outer = Style { fill: Some(Fill::Color(red())), stroke: Some(Stroke::Full { color: red(), width: 3 }) };
    let inner = Style { fill: Some(Fill::Color(black())), stroke: None };
    let shape = styled(outer, styled(inner, line(p(0, 0), p(1, 1))));
    let mut rec = Recorder::new(false);
    assert!(export(&shape, &mut rec, &Transform::identity()).is_ok());
    assert_eq!(rec.log.len(), 5);
    let merged = Style { fill: Some(Fill::Color(black())), stroke: Some(Stroke::Full { color: red(), width: 3 }) };
    assert!(matches!(&rec.log[0], ExportCall::StartStyle(s) if *s == outer));
    assert!(matches!(&rec.log[1], ExportCall::StartStyle(s) if *s == merged));
    assert_eq!(inner.merged_into(&outer), merged);
}

#[test]
fn ellipse_falls_back_to_closed_curve() {
    let e = Shape::Ellipse(Ellipse { local_transform: Transform::scaling(2, 3) });
    let mut rec = Recorder::new(false);
    assert!(export(&e, &mut rec, &Transform::identity()).is_ok());
    assert_eq!(rec.log.len(), 1);
    match &rec.log[0] {
        ExportCall::Curve(c) => {
            assert!(c.closed);
            assert_eq!(c.keypoints.len(), 4);
            let ends: Vec<Point> = c
                .keypoints
                .iter()
                .map(|k| match k {
                    Keypoint::Bezier(b) => b.end,
                    Keypoint::Point(p) => *p,
                })
                .collect();
            assert_eq!(ends, vec![p(0, 3000), p(-2000, 0), p(0, -3000), p(2000, 0)]);
            match c.keypoints[0] {
                Keypoint::Bezier(b) => {
                    assert_eq!(b.start, Some(p(2000, 0)));
                    assert_eq!(b.start_control, p(2000, 3 * KAPPA));
                }
                _ => panic!("expected a Bezier arc"),
            }
        }
        other => panic!("expected a curve, got {:?}", other),
    }
}

#[test]
fn ellipse_goes_native_when_supported() {
    let e = Shape::Ellipse(Ellipse { local_transform: Transform::scaling(2, 3) });
    let mut rec = Recorder::new(true);
    assert!(export(&e, &mut rec, &Transform::translation(7, 8)).is_ok());
    assert_eq!(rec.log.len(), 1);
    match &rec.log[0] {
        ExportCall::Ellipse(pos) => {
            assert_eq!(pos.center, p(7, 8));
            assert_eq!(pos.semi_major, p(2000, 0));
            assert_eq!(pos.semi_minor, p(0, 3000));
        }
        other => panic!("expected a native ellipse, got {:?}", other),
    }
}

#[test]
fn children_are_drawn_in_order() {
    let shape = group(Transform::identity(), vec![text("a"), image(), line(p(0, 0), p(1, 0))]);
    let mut rec = Recorder::new(false);
    assert!(export(&shape, &mut rec, &Transform::identity()).is_ok());
    assert_eq!(rec.log.len(), 3);
    assert!(matches!(&rec.log[0], ExportCall::Text(_)));
    assert!(matches!(&rec.log[1], ExportCall::Image(_)));
    assert!(matches!(&rec.log[2], ExportCall::Curve(_)));
}

#[test]
fn backend_error_stops_the_export() {
    let shape = group(Transform::identity(), vec![line(p(0, 0), p(1, 0)), line(p(1, 0), p(2, 0))]);
    let mut rec = Recorder::with_limit(false, 1);
    let r = export(&shape, &mut rec, &Transform::identity());
    assert_eq!(r, Err(ExportError::Backend(RecorderFull)));
    assert_eq!(rec.log.len(), 1);
}

#[test]
fn overflow_is_reported() {
    let shape = line(p(i32::MAX, 0), p(0, 0));
    let mut rec = Recorder::new(false);
    let r = export(&shape, &mut rec, &Transform::translation(1, 0));
    assert_eq!(r, Err(ExportError::Geometry(GeometryError::Overflow)));
    assert!(rec.log.is_empty());
}

#[test]
fn degenerate_closed_curve_draws_nothing() {
    let single = |closed: bool| Shape::Curve(Curve {
        local_transform: Transform::identity(),
        keypoints: vec![Keypoint::Point(p(1, 1))],
        closed,
    });
    let mut rec = Recorder::new(false);
    assert!(export(&single(true), &mut rec, &Transform::identity()).is_ok());
    assert!(rec.log.is_empty());
    assert_eq!(single(true).local_bounding_box(), Ok(None));
    assert!(export(&single(false), &mut rec, &Transform::identity()).is_ok());
    assert_eq!(rec.log.len(), 1);
    let empty = Shape::Curve(Curve { local_transform: Transform::identity(), keypoints: vec![], closed: true });
    assert_eq!(resolve_calls(&empty, &Transform::identity(), false).unwrap().len(), 0);
}
