use dessin::circle::Circle;
use dessin::drawing::{AddShape, Drawing};
use dessin::geometry::{bounding_box_of, union_boxes, Point, Rect, Transform, UNIT};
use dessin::pdf::{PDFError, PDFExporter, PDFOptions, PdfOp, ToPDF};
use dessin::export::{export, Exporter};
use dessin::position::{isqrt, resolve_curve, GeometryError};
use dessin::recorder::{Recorder, RecorderFull};
use dessin::shape::{
    Bezier, Color, Curve, Ellipse, FontWeight, Group, Image, Keypoint, Line, Shape, Stroke, Style,
    Styled, Text, TextAlign, TextVerticalAlign,
};

fn p(x: i32, y: i32) -> Point {
    Point::new(x, y)
}

fn text_with(font: Option<u32>, weight: FontWeight, local_transform: Transform) -> Text {
    Text {
        local_transform,
        text: "hi".to_string(),
        align: TextAlign::Center,
        vertical_align: TextVerticalAlign::Top,
        font,
        font_weight: weight,
        font_size: 12,
        on_curve: None,
    }
}

#[test]
fn compose_applies_right_factor_first() {
    let t = Transform::translation(5, 0).compose(&Transform::scaling(2, 3)).unwrap();
    assert_eq!(t.apply(&p(1, 1)), Some(p(7, 3)));
    let u = Transform::scaling(2, 3).compose(&Transform::translation(5, 0)).unwrap();
    assert_eq!(u.apply(&p(1, 1)), Some(p(12, 3)));
    assert_ne!(t, u);
}

#[test]
fn translate_then_rotate_differs_from_rotate_then_translate() {
    let shift = Transform::translation(1, 0);
    let turn = Transform::rotation(1);
    let a = shift.compose(&turn).unwrap();
    let b = turn.compose(&shift).unwrap();
    assert_eq!(a.apply(&p(0, 0)), Some(p(1, 0)));
    assert_eq!(b.apply(&p(0, 0)), Some(p(0, 1)));
}

#[test]
fn composition_is_associative_on_values() {
    let a = Transform::translation(3, -4);
    let b = Transform::rotation(3);
    let c = Transform::scaling(5, 7);
    let left = a.compose(&b).unwrap().compose(&c).unwrap();
    let right = a.compose(&b.compose(&c).unwrap()).unwrap();
    assert_eq!(left, right);
}

#[test]
fn rotation_wraps_every_four_turns() {
    assert_eq!(Transform::rotation(4), Transform::identity());
    assert_eq!(Transform::rotation(2).apply(&p(3, 4)), Some(p(-3, -4)));
}

#[test]
fn compose_overflow_is_none() {
    let big = Transform::scaling(i32::MAX, 1);
    assert_eq!(big.compose(&Transform::scaling(2, 1)), None);
    assert_eq!(Transform::translation(i32::MAX, 0).compose(&Transform::translation(1, 0)), None);
}

#[test]
fn boxes_of_points() {
    assert_eq!(bounding_box_of(&vec![]), None);
    let r = bounding_box_of(&vec![p(3, -1), p(-2, 4), p(0, 0)]).unwrap();
    assert_eq!(r, Rect { min: p(-2, -1), max: p(3, 4) });
    assert_eq!(r.width(), 5);
    assert_eq!(r.height(), 5);
    assert_eq!(union_boxes(None, Some(r)), Some(r));
    assert_eq!(union_boxes(None, None), None);
}

#[test]
fn integer_square_root() {
    assert_eq!(isqrt(0), 0);
    assert_eq!(isqrt(1), 1);
    assert_eq!(isqrt(15), 3);
    assert_eq!(isqrt(16), 4);
    assert_eq!(isqrt(1 << 64), 1 << 32);
}

#[test]
fn text_scales_with_transform() {
    let t = text_with(None, FontWeight::Bold, Transform::scaling(2, 2));
    let pos = t.position(&Transform::translation(10, 20)).unwrap();
    assert_eq!(pos.font_size, 24);
    assert_eq!(pos.reference_start, p(10, 20));
    assert_eq!(pos.direction, p(2, 0));
    assert_eq!(pos.text, "hi");
    let turned = text_with(None, FontWeight::Bold, Transform::rotation(1));
    assert_eq!(turned.position(&Transform::identity()).unwrap().direction, p(0, 1));
}

#[test]
fn text_on_curve_is_resolved() {
    let mut t = text_with(None, FontWeight::Regular, Transform::translation(1, 1));
    t.on_curve = Some(Curve { local_transform: Transform::identity(), keypoints: vec![Keypoint::Point(p(2, 0))], closed: false });
    let pos = t.position(&Transform::identity()).unwrap();
    assert_eq!(pos.on_curve.unwrap().keypoints, vec![Keypoint::Point(p(3, 1))]);
    t.on_curve = Some(Curve {
        local_transform: Transform::identity(),
        keypoints: vec![Keypoint::Bezier(Bezier { start: None, start_control: p(0, 0), end_control: p(0, 0), end: p(0, 0) })],
        closed: false,
    });
    assert_eq!(t.position(&Transform::identity()).err(), Some(GeometryError::CurveHasNoStartingPoint));
}

#[test]
fn image_corners_and_size() {
    let img = Image { local_transform: Transform::scaling(3, 2), pixel_width: 4, pixel_height: 2, data: vec![0; 8] };
    let pos = img.position(&Transform::translation(100, 0)).unwrap();
    assert_eq!(pos.top_left, p(-1400, 1000));
    assert_eq!(pos.top_right, p(1600, 1000));
    assert_eq!(pos.bottom_right, p(1600, -1000));
    assert_eq!(pos.bottom_left, p(-1400, -1000));
    assert_eq!(pos.center, p(100, 0));
    assert_eq!(pos.width, 3000);
    assert_eq!(pos.height, 2000);
    assert_eq!(pos.rotation, p(3, 0));
    assert_eq!(pos.data, vec![0; 8]);
}

#[test]
fn line_resolves_to_open_two_point_curve() {
    let l = Line { local_transform: Transform::scaling(2, 2), from: p(1, 2), to: p(3, 4) };
    let pos = l.position(&Transform::identity()).unwrap();
    assert_eq!(pos.keypoints, vec![Keypoint::Point(p(2, 4)), Keypoint::Point(p(6, 8))]);
    assert!(!pos.closed);
}

#[test]
fn resolve_curve_maps_every_point() {
    let ks = vec![Keypoint::Point(p(1, 0)), Keypoint::Point(p(0, 1))];
    let pos = resolve_curve(&Transform::translation(1, 1), &Transform::rotation(1), &ks, true).unwrap();
    assert_eq!(pos.keypoints, vec![Keypoint::Point(p(1, 2)), Keypoint::Point(p(0, 1))]);
    assert!(pos.closed);
}

#[test]
fn ellipse_curve_is_closed_unit_circle() {
    let e = Ellipse { local_transform: Transform::identity() };
    let c = e.to_curve();
    assert!(c.closed);
    assert_eq!(c.keypoints.len(), 4);
    match c.keypoints[0] {
        Keypoint::Bezier(b) => {
            assert_eq!(b.start, Some(p(UNIT, 0)));
            assert_eq!(b.end, p(0, UNIT));
        }
        _ => panic!("expected a Bezier arc"),
    }
    match c.keypoints[3] {
        Keypoint::Bezier(b) => {
            assert_eq!(b.start, None);
            assert_eq!(b.end, p(UNIT, 0));
        }
        _ => panic!("expected a Bezier arc"),
    }
}

#[test]
fn shape_operations_right_multiply() {
    let mut s = Shape::Ellipse(Ellipse { local_transform: Transform::identity() });
    s.translate(10, 0);
    s.scale(2, 2);
    assert_eq!(s.local_transform().apply(&p(1, 0)), Some(p(12, 0)));
    let mut st = Shape::Style(Styled { style: Style::none(), shape: Box::new(s) });
    st.transform(&Transform::rotation(1));
    assert_eq!(st.local_transform().apply(&p(1, 0)), Some(p(10, 2)));
    match st {
        Shape::Style(inner) => assert_eq!(inner.shape.local_transform().apply(&p(1, 0)), Some(p(10, 2))),
        _ => panic!("expected a style"),
    }
}

#[test]
fn circle_radius_scales() {
    let c = Circle::new().with_radius(3);
    assert_eq!(*c.local_transform(), Transform::scaling(3, 3));
    let mut d = Circle::new();
    d.radius(2).radius(5);
    assert_eq!(d.local_transform, Transform::scaling(10, 10));
    match d.into_shape() {
        Shape::Ellipse(e) => assert_eq!(e.local_transform, Transform::scaling(10, 10)),
        _ => panic!("expected an ellipse"),
    }
}

#[test]
fn drawing_keeps_shapes_in_order() {
    let mut d = Drawing::empty().with_canvas_size(p(100, 50));
    d.add(Line { local_transform: Transform::identity(), from: p(0, 0), to: p(1, 1) })
        .add(Circle::new().with_radius(2))
        .add(text_with(None, FontWeight::Regular, Transform::identity()));
    assert_eq!(d.canvas_size, p(100, 50));
    assert_eq!(d.shapes().len(), 3);
    assert!(matches!(d.shapes()[0], Shape::Line(_)));
    assert!(matches!(d.shapes()[1], Shape::Ellipse(_)));
    assert!(matches!(d.shapes()[2], Shape::Text(_)));
    let e = d.into_embedded();
    assert_eq!(e.local_transform, Transform::identity());
    assert_eq!(e.canvas_size, p(100, 50));
    match e.into_shape() {
        Shape::Group(g) => assert_eq!(g.shapes.len(), 3),
        _ => panic!("expected a group"),
    }
}

#[test]
fn empty_drawing() {
    let d = Drawing::empty();
    assert_eq!(d.canvas_size, p(0, 0));
    assert!(d.shapes().is_empty());
}

#[test]
fn pdf_page_of_styled_circle() {
    let mut c = Circle::new();
    c.radius(10);
    let style = Style { fill: None, stroke: Some(Stroke::Full { color: Color { r: 0, g: 0, b: 0 }, width: 1000 }) };
    let shape = Shape::Style(Styled { style, shape: Box::new(c.into_shape()) });
    let doc = shape.to_pdf().unwrap();
    assert_eq!((doc.width, doc.height), (20000, 20000));
    assert_eq!(doc.ops.len(), 7);
    assert!(matches!(doc.ops[0], PdfOp::SetOutlineColor(Color { r: 0, g: 0, b: 0 })));
    assert!(matches!(doc.ops[1], PdfOp::SetOutlineThickness(1000)));
    match &doc.ops[2] {
        PdfOp::AddLine { points, closed } => {
            assert!(*closed);
            assert_eq!(points.len(), 13);
            // the circle is centred on the page
            assert_eq!(points[0], (p(20000, 10000), true));
            assert_eq!(points[1].1, true);
            assert_eq!(points[2].1, false);
            // each arc end is flagged: the next arc continues from it
            assert_eq!(points[3], (p(10000, 20000), true));
            assert_eq!(points[12], (p(20000, 10000), false));
        }
        other => panic!("expected a path, got {:?}", other),
    }
    assert!(matches!(doc.ops[3], PdfOp::SetOutlineColor(Color { r: 0, g: 0, b: 0 })));
    assert!(matches!(doc.ops[4], PdfOp::SetOutlineThickness(0)));
    assert!(matches!(doc.ops[5], PdfOp::SetLineDash(None)));
    assert!(matches!(doc.ops[6], PdfOp::SetFillColor(Color { r: 0, g: 0, b: 0 })));
}

#[test]
fn pdf_dashed_stroke_sets_pattern() {
    let style = Style { fill: None, stroke: Some(Stroke::Dashed { color: Color { r: 1, g: 2, b: 3 }, width: 5, on: 4, off: 2 }) };
    let shape = Shape::Style(Styled { style, shape: Box::new(Shape::Line(Line { local_transform: Transform::identity(), from: p(0, 0), to: p(4, 0) })) });
    let doc = shape.to_pdf_with_options(PDFOptions { size: Some((10, 6)), used_font: vec![] }).unwrap();
    assert_eq!((doc.width, doc.height), (10, 6));
    assert!(matches!(doc.ops[0], PdfOp::SetLineDash(Some((4, 2)))));
    assert!(matches!(doc.ops[1], PdfOp::SetOutlineColor(Color { r: 1, g: 2, b: 3 })));
    assert!(matches!(doc.ops[2], PdfOp::SetOutlineThickness(5)));
    match &doc.ops[3] {
        PdfOp::AddLine { points, closed } => {
            assert_eq!(points, &vec![(p(5, 3), false), (p(9, 3), false)]);
            assert!(!closed);
        }
        other => panic!("expected a path, got {:?}", other),
    }
}

#[test]
fn pdf_embeds_each_font_once() {
    let shape = Shape::Group(Group {
        local_transform: Transform::identity(),
        shapes: vec![
            Shape::Text(text_with(None, FontWeight::Regular, Transform::identity())),
            Shape::Text(text_with(Some(0), FontWeight::Regular, Transform::identity())),
            Shape::Text(text_with(Some(0), FontWeight::Bold, Transform::identity())),
            Shape::Text(text_with(Some(7), FontWeight::Bold, Transform::identity())),
        ],
        metadata: vec![],
    });
    let doc = shape
        .to_pdf_with_options(PDFOptions { size: Some((0, 0)), used_font: vec![(7, FontWeight::Bold)] })
        .unwrap();
    let embeds: Vec<(u32, FontWeight)> = doc
        .ops
        .iter()
        .filter_map(|o| match o {
            PdfOp::EmbedFont { font, weight } => Some((*font, *weight)),
            _ => None,
        })
        .collect();
    assert_eq!(embeds, vec![(0, FontWeight::Regular), (0, FontWeight::Bold)]);
    assert_eq!(doc.fonts, vec![(7, FontWeight::Bold), (0, FontWeight::Regular), (0, FontWeight::Bold)]);
    assert_eq!(doc.ops.len(), 6);
}

#[test]
fn pdf_reports_geometry_errors() {
    let shape = Shape::Curve(Curve {
        local_transform: Transform::identity(),
        keypoints: vec![Keypoint::Bezier(Bezier { start: None, start_control: p(0, 0), end_control: p(0, 0), end: p(1, 1) })],
        closed: false,
    });
    assert_eq!(shape.to_pdf().err(), Some(PDFError::CurveHasNoStartingPoint));
    let far = Shape::Line(Line { local_transform: Transform::identity(), from: p(i32::MAX, 0), to: p(0, 0) });
    assert_eq!(far.to_pdf_with_options(PDFOptions { size: Some((4, 0)), used_font: vec![] }).err(), Some(PDFError::Overflow));
}

#[test]
fn pdf_exporter_refuses_native_ellipses() {
    let mut exporter = PDFExporter::new_with_default_font();
    assert!(!exporter.can_export_ellipse());
    let e = Shape::Ellipse(Ellipse { local_transform: Transform::identity() });
    assert!(export(&e, &mut exporter, &Transform::identity()).is_ok());
    assert!(matches!(exporter.ops()[0], PdfOp::AddLine { closed: true, .. }));
    assert!(exporter.used_font().is_empty());
    let pos = Ellipse { local_transform: Transform::identity() }.position(&Transform::identity()).unwrap();
    assert_eq!(exporter.export_ellipse(&pos), Err(PDFError::EllipseNotSupported));
    let kept = PDFExporter::new(vec![(1, FontWeight::Italic)]);
    assert_eq!(kept.used_font(), &vec![(1, FontWeight::Italic)]);
}

#[test]
fn rotate_turns_in_own_frame() {
    let mut s = Shape::Line(Line { local_transform: Transform::translation(5, 0), from: p(1, 0), to: p(2, 0) });
    s.rotate(1);
    assert_eq!(s.local_transform().apply(&p(1, 0)), Some(p(5, 1)));
    s.rotate(3);
    assert_eq!(s.local_transform(), Transform::translation(5, 0));
}

#[test]
fn style_setters_and_wrapping() {
    let shape = Shape::Line(Line { local_transform: Transform::identity(), from: p(0, 0), to: p(1, 0) });
    match shape.with_style(Style::none()) {
        Shape::Style(mut st) => {
            st.set_fill(Some(dessin::shape::Fill::Color(Color { r: 9, g: 8, b: 7 })));
            st.set_stroke(Some(Stroke::Full { color: Color { r: 0, g: 0, b: 0 }, width: 2 }));
            assert_eq!(st.style.fill, Some(dessin::shape::Fill::Color(Color { r: 9, g: 8, b: 7 })));
            assert_eq!(st.style.stroke, Some(Stroke::Full { color: Color { r: 0, g: 0, b: 0 }, width: 2 }));
            st.set_fill(None);
            assert_eq!(st.style.fill, None);
            assert!(st.style.stroke.is_some());
        }
        _ => panic!("expected a style"),
    }
}

#[test]
fn circle_converts_to_ellipse_shape() {
    let s: Shape = Circle::new().with_radius(4).into();
    match s {
        Shape::Ellipse(e) => assert_eq!(e.local_transform, Transform::scaling(4, 4)),
        _ => panic!("expected an ellipse"),
    }
}

#[test]
fn pdf_curve_callback_rejects_missing_start() {
    let mut exporter = PDFExporter::new_with_default_font();
    let bad = dessin::position::CurvePosition {
        keypoints: vec![Keypoint::Bezier(Bezier { start: None, start_control: p(1, 1), end_control: p(2, 2), end: p(3, 3) })],
        closed: false,
    };
    assert_eq!(exporter.export_curve(&bad), Err(PDFError::CurveHasNoStartingPoint));
    assert!(exporter.ops().is_empty());
    let good = dessin::position::CurvePosition {
        keypoints: vec![Keypoint::Point(p(0, 0)), Keypoint::Point(p(1000, 0))],
        closed: false,
    };
    assert_eq!(exporter.export_curve(&good), Ok(()));
    assert_eq!(exporter.ops().len(), 1);
    match &exporter.ops()[0] {
        PdfOp::AddLine { points, closed } => {
            assert_eq!(points, &vec![(p(0, 0), false), (p(1000, 0), false)]);
            assert!(!closed);
        }
        other => panic!("expected a path, got {:?}", other),
    }
}

#[test]
fn pdf_degenerate_closed_curve_writes_nothing() {
    let mut exporter = PDFExporter::new_with_default_font();
    let empty = dessin::position::CurvePosition { keypoints: vec![], closed: true };
    let single = dessin::position::CurvePosition { keypoints: vec![Keypoint::Point(p(4, 4))], closed: true };
    assert_eq!(exporter.export_curve(&empty), Ok(()));
    assert_eq!(exporter.export_curve(&single), Ok(()));
    assert!(exporter.ops().is_empty());
}

#[test]
fn pdf_style_callbacks_always_succeed() {
    let mut exporter = PDFExporter::new_with_default_font();
    let style = Style {
        fill: Some(dessin::shape::Fill::Color(Color { r: 255, g: 0, b: 0 })),
        stroke: Some(Stroke::Dashed { color: Color { r: 1, g: 1, b: 1 }, width: 2, on: 3, off: 4 }),
    };
    assert_eq!(exporter.start_style(&Style::none()), Ok(()));
    assert!(exporter.ops().is_empty());
    assert_eq!(exporter.start_style(&style), Ok(()));
    assert_eq!(exporter.ops().len(), 4);
    assert!(matches!(exporter.ops()[0], PdfOp::SetFillColor(Color { r: 255, g: 0, b: 0 })));
    assert!(matches!(exporter.ops()[1], PdfOp::SetLineDash(Some((3, 4)))));
    assert_eq!(exporter.end_style(), Ok(()));
    assert_eq!(exporter.end_style(), Ok(()));
    assert_eq!(exporter.ops().len(), 12);
    for start in [4usize, 8] {
        assert!(matches!(exporter.ops()[start], PdfOp::SetOutlineColor(Color { r: 0, g: 0, b: 0 })));
        assert!(matches!(exporter.ops()[start + 1], PdfOp::SetOutlineThickness(0)));
        assert!(matches!(exporter.ops()[start + 2], PdfOp::SetLineDash(None)));
        assert!(matches!(exporter.ops()[start + 3], PdfOp::SetFillColor(Color { r: 0, g: 0, b: 0 })));
    }
}

#[test]
fn pdf_text_embeds_font_on_first_use_only() {
    let mut exporter = PDFExporter::new_with_default_font();
    let pos = text_with(Some(3), FontWeight::Italic, Transform::identity()).position(&Transform::identity()).unwrap();
    assert_eq!(exporter.export_text(&pos), Ok(()));
    assert_eq!(exporter.export_text(&pos), Ok(()));
    assert_eq!(exporter.used_font(), &vec![(3, FontWeight::Italic)]);
    assert_eq!(exporter.ops().len(), 3);
    assert!(matches!(exporter.ops()[0], PdfOp::EmbedFont { font: 3, weight: FontWeight::Italic }));
    assert!(matches!(exporter.ops()[1], PdfOp::WriteText { .. }));
    assert!(matches!(exporter.ops()[2], PdfOp::WriteText { .. }));
}

#[test]
fn recorder_fails_only_when_full() {
    let mut rec = Recorder::with_limit(false, 1);
    assert_eq!(rec.end_style(), Ok(()));
    assert_eq!(rec.end_style(), Err(RecorderFull));
    assert_eq!(rec.log.len(), 1);
}
