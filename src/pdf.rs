use vstd::prelude::*;
use crate::bounds::{bounding_box_spec, calls_points};
use crate::export::{
    degenerate, lemma_plain_calls, plain_calls, no_style, resolve_calls, shape_calls, view_calls, Call,
    ExportCall, Exporter,
};
use crate::geometry::{lemma_bbox_bounds, rect_contains, Point, Rect, Transform};
use crate::position::{
    missing_start, CurvePosition, CurveView, EllipsePosition, GeometryError, ImagePosition,
    TextPosition,
};
use crate::shape::{Color, Fill, FontWeight, Keypoint, Shape, Stroke, Style};

verus! {

/// The font a text without one is written in.
pub const DEFAULT_FONT: u32 = 0;

/// One drawing operation on a PDF page. Lengths are in coordinate steps.
#[derive(Clone, Debug)]
pub enum PdfOp {
    SetFillColor(Color),
    SetOutlineColor(Color),
    SetOutlineThickness(u32),
    /// A dash pattern `(on, off)`, or a solid line.
    SetLineDash(Option<(u32, u32)>),
    /// A path; a point flagged `true` is a Bezier control point, or an
    /// anchor that the next segment continues from.
    AddLine { points: Vec<(Point, bool)>, closed: bool },
    /// Puts a font into the document.
    EmbedFont { font: u32, weight: FontWeight },
    WriteText {
        text: String,
        font: u32,
        weight: FontWeight,
        size: u64,
        origin: Point,
        direction: Point,
    },
    AddImage {
        bottom_left: Point,
        width: u64,
        height: u64,
        rotation: Point,
        pixel_width: u32,
        pixel_height: u32,
        data: Vec<u8>,
    },
}

/// The mathematical model of a PDF operation.
pub ghost enum PdfOpView {
    SetFillColor(Color),
    SetOutlineColor(Color),
    SetOutlineThickness(u32),
    SetLineDash(Option<(u32, u32)>),
    AddLine { points: Seq<(Point, bool)>, closed: bool },
    EmbedFont { font: u32, weight: FontWeight },
    WriteText {
        text: Seq<char>,
        font: u32,
        weight: FontWeight,
        size: int,
        origin: Point,
        direction: Point,
    },
    AddImage {
        bottom_left: Point,
        width: int,
        height: int,
        rotation: Point,
        pixel_width: u32,
        pixel_height: u32,
        data: Seq<u8>,
    },
}

impl PdfOp {
    pub open spec fn view(&self) -> PdfOpView {
        match self {
            PdfOp::SetFillColor(c) => PdfOpView::SetFillColor(*c),
            PdfOp::SetOutlineColor(c) => PdfOpView::SetOutlineColor(*c),
            PdfOp::SetOutlineThickness(w) => PdfOpView::SetOutlineThickness(*w),
            PdfOp::SetLineDash(d) => PdfOpView::SetLineDash(*d),
            PdfOp::AddLine { points, closed } => PdfOpView::AddLine { points: points@, closed: *closed },
            PdfOp::EmbedFont { font, weight } => PdfOpView::EmbedFont { font: *font, weight: *weight },
            PdfOp::WriteText { text, font, weight, size, origin, direction } => PdfOpView::WriteText {
                text: text@,
                font: *font,
                weight: *weight,
                size: *size as int,
                origin: *origin,
                direction: *direction,
            },
            PdfOp::AddImage {
                bottom_left,
                width,
                height,
                rotation,
                pixel_width,
                pixel_height,
                data,
            } => PdfOpView::AddImage {
                bottom_left: *bottom_left,
                width: *width as int,
                height: *height as int,
                rotation: *rotation,
                pixel_width: *pixel_width,
                pixel_height: *pixel_height,
                data: data@,
            },
        }
    }
}

pub open spec fn view_ops(v: Seq<PdfOp>) -> Seq<PdfOpView> {
    v.map_values(|o: PdfOp| o@)
}

pub open spec fn black() -> Color {
    Color { r: 0, g: 0, b: 0 }
}

/// The operations that set a style.
pub open spec fn style_ops(s: Style) -> Seq<PdfOpView> {
    let fill = match s.fill {
        Some(Fill::Color(c)) => seq![PdfOpView::SetFillColor(c)],
        None => Seq::empty(),
    };
    let stroke = match s.stroke {
        Some(Stroke::Full { color, width }) => seq![
            PdfOpView::SetOutlineColor(color),
            PdfOpView::SetOutlineThickness(width),
        ],
        Some(Stroke::Dashed { color, width, on, off }) => seq![
            PdfOpView::SetLineDash(Some((on, off))),
            PdfOpView::SetOutlineColor(color),
            PdfOpView::SetOutlineThickness(width),
        ],
        None => Seq::empty(),
    };
    fill + stroke
}

/// The operations that restore the default draw state: black, no width, no
/// dash.
pub open spec fn reset_ops() -> Seq<PdfOpView> {
    seq![
        PdfOpView::SetOutlineColor(black()),
        PdfOpView::SetOutlineThickness(0),
        PdfOpView::SetLineDash(None),
        PdfOpView::SetFillColor(black()),
    ]
}

/// Keypoint `i + 1` is a Bezier segment that continues from keypoint `i`.
pub open spec fn continued(ks: Seq<Keypoint>, i: int) -> bool {
    i + 1 < ks.len() && (ks[i + 1] matches Keypoint::Bezier(b) && b.start is None)
}

/// The path points of keypoint `i`, with their flags.
pub open spec fn keypoint_path(ks: Seq<Keypoint>, i: int) -> Seq<(Point, bool)> {
    let next = continued(ks, i);
    match ks[i] {
        Keypoint::Point(p) => seq![(p, next)],
        Keypoint::Bezier(b) => {
            let head = match b.start {
                Some(s) => seq![(s, true)],
                None => Seq::empty(),
            };
            head + seq![(b.start_control, true), (b.end_control, false), (b.end, next)]
        },
    }
}

/// The path points of the first `n` keypoints.
pub open spec fn path_upto(ks: Seq<Keypoint>, n: int) -> Seq<(Point, bool)>
    decreases n,
{
    if n <= 0 {
        Seq::empty()
    } else {
        path_upto(ks, n - 1) + keypoint_path(ks, n - 1)
    }
}

pub open spec fn curve_path(c: CurveView) -> Seq<(Point, bool)> {
    path_upto(c.keypoints, c.keypoints.len() as int)
}

pub open spec fn font_of(font: Option<u32>) -> u32 {
    match font {
        Some(f) => f,
        None => DEFAULT_FONT,
    }
}

/// The operations of one call, given the fonts embedded so far.
pub open spec fn call_ops(c: Call, fonts: Seq<(u32, FontWeight)>) -> Seq<PdfOpView> {
    match c {
        Call::StartStyle(s) => style_ops(s),
        Call::EndStyle => reset_ops(),
        Call::Curve(cv) => if degenerate(cv) {
            Seq::empty()
        } else {
            seq![PdfOpView::AddLine { points: curve_path(cv), closed: cv.closed }]
        },
        Call::Ellipse(_) => Seq::empty(),
        Call::Text(t) => {
            let key = (font_of(t.font), t.font_weight);
            let embed = if fonts.contains(key) {
                Seq::empty()
            } else {
                seq![PdfOpView::EmbedFont { font: key.0, weight: key.1 }]
            };
            embed + seq![
                PdfOpView::WriteText {
                    text: t.text,
                    font: key.0,
                    weight: key.1,
                    size: t.font_size,
                    origin: t.reference_start,
                    direction: t.direction,
                },
            ]
        },
        Call::Image(i) => seq![
            PdfOpView::AddImage {
                bottom_left: i.bottom_left,
                width: i.width,
                height: i.height,
                rotation: i.rotation,
                pixel_width: i.pixel_width,
                pixel_height: i.pixel_height,
                data: i.data,
            },
        ],
    }
}

/// The fonts embedded after a call: a text's (font, weight) pair on its
/// first use.
pub open spec fn call_fonts(c: Call, fonts: Seq<(u32, FontWeight)>) -> Seq<(u32, FontWeight)> {
    match c {
        Call::Text(t) => {
            let key = (font_of(t.font), t.font_weight);
            if fonts.contains(key) {
                fonts
            } else {
                fonts.push(key)
            }
        },
        _ => fonts,
    }
}

/// The fonts embedded after a sequence of calls.
pub open spec fn calls_fonts(cs: Seq<Call>, fonts: Seq<(u32, FontWeight)>) -> Seq<(u32, FontWeight)>
    decreases cs.len(),
{
    if cs.len() == 0 {
        fonts
    } else {
        call_fonts(cs.last(), calls_fonts(cs.drop_last(), fonts))
    }
}

/// The operations of a sequence of calls.
pub open spec fn calls_ops(cs: Seq<Call>, fonts: Seq<(u32, FontWeight)>) -> Seq<PdfOpView>
    decreases cs.len(),
{
    if cs.len() == 0 {
        Seq::empty()
    } else {
        calls_ops(cs.drop_last(), fonts) + call_ops(cs.last(), calls_fonts(cs.drop_last(), fonts))
    }
}

/// The fonts after two runs of calls: the second starts from the first's.
pub proof fn lemma_calls_fonts_concat(a: Seq<Call>, b: Seq<Call>, fonts: Seq<(u32, FontWeight)>)
    ensures
        calls_fonts(a + b, fonts) == calls_fonts(b, calls_fonts(a, fonts)),
    decreases b.len(),
{
    if b.len() == 0 {
        assert(a + b =~= a);
    } else {
        assert((a + b).drop_last() =~= a + b.drop_last());
        lemma_calls_fonts_concat(a, b.drop_last(), fonts);
    }
}

/// The operations of two runs of calls are those of the first followed by
/// those of the second, which starts from the fonts the first left: drawing
/// order and style brackets carry over to the page.
pub proof fn lemma_calls_ops_concat(a: Seq<Call>, b: Seq<Call>, fonts: Seq<(u32, FontWeight)>)
    ensures
        calls_ops(a + b, fonts) == calls_ops(a, fonts) + calls_ops(b, calls_fonts(a, fonts)),
    decreases b.len(),
{
    if b.len() == 0 {
        assert(a + b =~= a);
        assert(calls_ops(a, fonts) + calls_ops(b, calls_fonts(a, fonts)) =~= calls_ops(a, fonts));
    } else {
        assert((a + b).drop_last() =~= a + b.drop_last());
        assert((a + b).last() == b.last());
        lemma_calls_ops_concat(a, b.drop_last(), fonts);
        lemma_calls_fonts_concat(a, b.drop_last(), fonts);
        assert(calls_ops(a + b, fonts) =~= calls_ops(a, fonts) + calls_ops(b, calls_fonts(a, fonts)));
    }
}

/// Why a PDF could not be made.
#[derive(Clone, Copy, Debug, PartialEq, Eq, Structural)]
pub enum PDFError {
    /// A curve starts with a Bezier segment that has no start.
    CurveHasNoStartingPoint,
    /// A coordinate left the representable range.
    Overflow,
    /// Ellipses reach this backend as curves only.
    EllipseNotSupported,
}

/// A backend that writes a PDF page as a list of operations, embedding each
/// (font, weight) pair once, on its first use.
pub struct PDFExporter {
    ops: Vec<PdfOp>,
    used_font: Vec<(u32, FontWeight)>,
    initial_fonts: Ghost<Seq<(u32, FontWeight)>>,
    history: Ghost<Seq<Call>>,
}

impl PDFExporter {
    pub closed spec fn consistent(&self) -> bool {
        &&& view_ops(self.ops@) == calls_ops(self.history@, self.initial_fonts@)
        &&& self.used_font@ == calls_fonts(self.history@, self.initial_fonts@)
    }

    /// The fonts already in the document before any call.
    pub closed spec fn initial_fonts(&self) -> Seq<(u32, FontWeight)> {
        self.initial_fonts@
    }

    /// An exporter for a document that already holds `used_font`.
    pub fn new(used_font: Vec<(u32, FontWeight)>) -> (r: PDFExporter)
        ensures
            r.calls().len() == 0,
            r.initial_fonts() == used_font@,
            r.inv(),
    {
        let ghost fonts = used_font@;
        assert(view_ops(Seq::<PdfOp>::empty()) =~= Seq::empty());
        PDFExporter {
            ops: Vec::new(),
            used_font,
            initial_fonts: Ghost(fonts),
            history: Ghost(Seq::empty()),
        }
    }

    /// An exporter for a document without fonts.
    pub fn new_with_default_font() -> (r: PDFExporter)
        ensures
            r.calls().len() == 0,
            r.initial_fonts().len() == 0,
            r.inv(),
    {
        PDFExporter::new(Vec::new())
    }

    /// The operations written so far: those of the calls received.
    pub fn ops(&self) -> (r: &Vec<PdfOp>)
        requires
            self.inv(),
        ensures
            view_ops(r@) == calls_ops(self.calls(), self.initial_fonts()),
    {
        &self.ops
    }

    /// The fonts in the document: those it started with and those the calls
    /// embedded.
    pub fn used_font(&self) -> (r: &Vec<(u32, FontWeight)>)
        requires
            self.inv(),
        ensures
            r@ == calls_fonts(self.calls(), self.initial_fonts()),
    {
        &self.used_font
    }

    /// Whether the document holds a font.
    fn has_font(&self, key: (u32, FontWeight)) -> (r: bool)
        ensures
            r == self.used_font@.contains(key),
    {
        let mut i: usize = 0;
        while i < self.used_font.len()
            invariant
                i <= self.used_font@.len(),
                forall|j: int| 0 <= j < i ==> self.used_font@[j] != key,
            decreases self.used_font.len() - i,
        {
            let (f, w) = self.used_font[i];
            if f == key.0 && w == key.1 {
                assert(self.used_font@[i as int] == key);
                return true;
            }
            i += 1;
        }
        false
    }

    /// Appends the operations of one more call.
    fn write(&mut self, call: Ghost<Call>, new_ops: Vec<PdfOp>)
        requires
            old(self).consistent(),
            view_ops(new_ops@) == call_ops(call@, old(self).used_font@),
            call_fonts(call@, old(self).used_font@) == old(self).used_font@,
        ensures
            final(self).consistent(),
            final(self).calls() == old(self).calls().push(call@),
            final(self).initial_fonts() == old(self).initial_fonts(),
    {
        let mut new_ops = new_ops;
        let ghost before = self.ops@;
        let ghost added = new_ops@;
        self.ops.append(&mut new_ops);
        proof {
            let h = self.history@.push(call@);
            assert(h.drop_last() =~= self.history@);
            assert(view_ops(before + added) =~= view_ops(before) + view_ops(added));
        }
        self.history = Ghost(self.history@.push(call@));
    }
}

fn path_of(ks: &Vec<Keypoint>) -> (r: Vec<(Point, bool)>)
    ensures
        r@ == path_upto(ks@, ks@.len() as int),
{
    let mut out: Vec<(Point, bool)> = Vec::new();
    let mut i: usize = 0;
    while i < ks.len()
        invariant
            i <= ks@.len(),
            out@ == path_upto(ks@, i as int),
        decreases ks.len() - i,
    {
        let next = if i + 1 < ks.len() {
            match &ks[i + 1] {
                Keypoint::Bezier(b) => b.start.is_none(),
                Keypoint::Point(_) => false,
            }
        } else {
            false
        };
        assert(next == continued(ks@, i as int));
        let ghost before = out@;
        match &ks[i] {
            Keypoint::Point(p) => out.push((*p, next)),
            Keypoint::Bezier(b) => {
                if let Some(s) = b.start {
                    out.push((s, true));
                }
                out.push((b.start_control, true));
                out.push((b.end_control, false));
                out.push((b.end, next));
            },
        }
        assert(out@ =~= before + keypoint_path(ks@, i as int));
        i += 1;
    }
    out
}

impl PDFExporter {
    fn write_style(&mut self, style: &Style)
        requires
            old(self).consistent(),
        ensures
            final(self).consistent(),
            final(self).calls() == old(self).calls().push(Call::StartStyle(*style)),
            final(self).initial_fonts() == old(self).initial_fonts(),
    {
        let mut ops: Vec<PdfOp> = Vec::new();
        if let Some(Fill::Color(c)) = style.fill {
            ops.push(PdfOp::SetFillColor(c));
        }
        match style.stroke {
            Some(Stroke::Full { color, width }) => {
                ops.push(PdfOp::SetOutlineColor(color));
                ops.push(PdfOp::SetOutlineThickness(width));
            },
            Some(Stroke::Dashed { color, width, on, off }) => {
                ops.push(PdfOp::SetLineDash(Some((on, off))));
                ops.push(PdfOp::SetOutlineColor(color));
                ops.push(PdfOp::SetOutlineThickness(width));
            },
            None => {},
        }
        assert(view_ops(ops@) =~= style_ops(*style));
        self.write(Ghost(Call::StartStyle(*style)), ops);
    }

    fn write_reset(&mut self)
        requires
            old(self).consistent(),
        ensures
            final(self).consistent(),
            final(self).calls() == old(self).calls().push(Call::EndStyle),
            final(self).initial_fonts() == old(self).initial_fonts(),
    {
        let ops = vec![
            PdfOp::SetOutlineColor(Color { r: 0, g: 0, b: 0 }),
            PdfOp::SetOutlineThickness(0),
            PdfOp::SetLineDash(None),
            PdfOp::SetFillColor(Color { r: 0, g: 0, b: 0 }),
        ];
        assert(view_ops(ops@) =~= reset_ops());
        self.write(Ghost(Call::EndStyle), ops);
    }

    /// Writes a curve that begins with a start point; a closed curve of
    /// fewer than two points writes nothing.
    fn write_curve(&mut self, curve: &CurvePosition)
        requires
            old(self).consistent(),
            !missing_start(curve.keypoints@),
        ensures
            final(self).consistent(),
            final(self).calls() == old(self).calls().push(Call::Curve(curve@)),
            final(self).initial_fonts() == old(self).initial_fonts(),
    {
        let ops = if curve.closed && (curve.keypoints.len() == 0 || (curve.keypoints.len() == 1
            && matches!(curve.keypoints[0], Keypoint::Point(_)))) {
            Vec::new()
        } else {
            let points = path_of(&curve.keypoints);
            vec![PdfOp::AddLine { points, closed: curve.closed }]
        };
        assert(view_ops(ops@) =~= call_ops(Call::Curve(curve@), self.used_font@));
        self.write(Ghost(Call::Curve(curve@)), ops);
    }

    fn write_text_call(&mut self, text: &TextPosition)
        requires
            old(self).consistent(),
        ensures
            final(self).consistent(),
            final(self).calls() == old(self).calls().push(Call::Text(text@)),
            final(self).initial_fonts() == old(self).initial_fonts(),
    {
        let font = match text.font {
            Some(f) => f,
            None => DEFAULT_FONT,
        };
        let key = (font, text.font_weight);
        let mut ops: Vec<PdfOp> = Vec::new();
        let known = self.has_font(key);
        if !known {
            ops.push(PdfOp::EmbedFont { font, weight: text.font_weight });
        }
        ops.push(
            PdfOp::WriteText {
                text: text.text.clone(),
                font,
                weight: text.font_weight,
                size: text.font_size,
                origin: text.reference_start,
                direction: text.direction,
            },
        );
        assert(view_ops(ops@) =~= call_ops(Call::Text(text@), self.used_font@));
        self.write_text(Ghost(Call::Text(text@)), ops, key, known);
    }

    fn write_image(&mut self, image: &ImagePosition)
        requires
            old(self).consistent(),
        ensures
            final(self).consistent(),
            final(self).calls() == old(self).calls().push(Call::Image(image@)),
            final(self).initial_fonts() == old(self).initial_fonts(),
    {
        let ops = vec![
            PdfOp::AddImage {
                bottom_left: image.bottom_left,
                width: image.width,
                height: image.height,
                rotation: image.rotation,
                pixel_width: image.pixel_width,
                pixel_height: image.pixel_height,
                data: image.data.clone(),
            },
        ];
        assert(view_ops(ops@) =~= call_ops(Call::Image(image@), self.used_font@));
        self.write(Ghost(Call::Image(image@)), ops);
    }

    /// Takes one call that is not a native ellipse nor a curve without a
    /// start.
    fn accept(&mut self, call: &ExportCall)
        requires
            old(self).consistent(),
            !(call@ is Ellipse),
            call@ matches Call::Curve(cv) ==> !missing_start(cv.keypoints),
        ensures
            final(self).consistent(),
            final(self).calls() == old(self).calls().push(call@),
            final(self).initial_fonts() == old(self).initial_fonts(),
    {
        match call {
            ExportCall::StartStyle(s) => self.write_style(s),
            ExportCall::EndStyle => self.write_reset(),
            ExportCall::Curve(c) => self.write_curve(c),
            ExportCall::Text(t) => self.write_text_call(t),
            ExportCall::Image(i) => self.write_image(i),
            ExportCall::Ellipse(_) => {},
        }
    }
}

impl Exporter for PDFExporter {
    type Error = PDFError;

    closed spec fn calls(&self) -> Seq<Call> {
        self.history@
    }

    closed spec fn inv(&self) -> bool {
        self.consistent()
    }

    open spec fn exports_ellipse(&self) -> bool {
        false
    }

    fn can_export_ellipse(&self) -> (r: bool) {
        false
    }

    fn start_style(&mut self, style: &Style) -> (r: Result<(), PDFError>)
        ensures
            r is Ok,
    {
        self.write_style(style);
        Ok(())
    }

    fn end_style(&mut self) -> (r: Result<(), PDFError>)
        ensures
            r is Ok,
    {
        self.write_reset();
        Ok(())
    }

    /// Fails on a curve whose first segment has no start to begin from.
    fn export_curve(&mut self, curve: &CurvePosition) -> (r: Result<(), PDFError>)
        ensures
            r is Ok <==> !missing_start(curve.keypoints@),
            r is Err ==> r == Err::<(), PDFError>(PDFError::CurveHasNoStartingPoint),
    {
        if curve.keypoints.len() > 0 {
            if let Keypoint::Bezier(b) = &curve.keypoints[0] {
                if b.start.is_none() {
                    return Err(PDFError::CurveHasNoStartingPoint);
                }
            }
        }
        self.write_curve(curve);
        Ok(())
    }

    /// Ellipses reach this backend as curves: a native one is refused.
    fn export_ellipse(&mut self, ellipse: &EllipsePosition) -> (r: Result<(), PDFError>)
        ensures
            r == Err::<(), PDFError>(PDFError::EllipseNotSupported),
    {
        Err(PDFError::EllipseNotSupported)
    }

    fn export_text(&mut self, text: &TextPosition) -> (r: Result<(), PDFError>)
        ensures
            r is Ok,
    {
        self.write_text_call(text);
        Ok(())
    }

    fn export_image(&mut self, image: &ImagePosition) -> (r: Result<(), PDFError>)
        ensures
            r is Ok,
    {
        self.write_image(image);
        Ok(())
    }
}

impl PDFExporter {
    /// Appends the operations of a text call, embedding its font if new.
    fn write_text(&mut self, call: Ghost<Call>, new_ops: Vec<PdfOp>, key: (u32, FontWeight), known: bool)
        requires
            old(self).consistent(),
            call@ is Text,
            key == (font_of(call@->Text_0.font), call@->Text_0.font_weight),
            known == old(self).used_font@.contains(key),
            view_ops(new_ops@) == call_ops(call@, old(self).used_font@),
        ensures
            final(self).consistent(),
            final(self).calls() == old(self).calls().push(call@),
            final(self).initial_fonts() == old(self).initial_fonts(),
    {
        let mut new_ops = new_ops;
        let ghost before = self.ops@;
        let ghost added = new_ops@;
        self.ops.append(&mut new_ops);
        if !known {
            self.used_font.push(key);
        }
        proof {
            let h = self.history@.push(call@);
            assert(h.drop_last() =~= self.history@);
            assert(view_ops(before + added) =~= view_ops(before) + view_ops(added));
        }
        self.history = Ghost(self.history@.push(call@));
    }
}

/// What a new PDF document starts from.
pub struct PDFOptions {
    /// The page size in coordinate steps; without it, the shape's bounding
    /// box gives it.
    pub size: Option<(u32, u32)>,
    /// Fonts the document already holds.
    pub used_font: Vec<(u32, FontWeight)>,
}

impl PDFOptions {
    /// No page size and no fonts.
    pub fn new() -> (r: PDFOptions)
        ensures
            r.size is None,
            r.used_font@.len() == 0,
    {
        PDFOptions { size: None, used_font: Vec::new() }
    }
}

/// A finished page: its size in coordinate steps, its operations and the
/// fonts embedded in it.
pub struct PdfDocument {
    pub width: u32,
    pub height: u32,
    pub ops: Vec<PdfOp>,
    pub fonts: Vec<(u32, FontWeight)>,
}

/// The page size: the one asked for, else that of the bounding box (empty
/// for a shape that draws nothing).
pub open spec fn page_size(bb: Result<Option<Rect>, GeometryError>, size: Option<(u32, u32)>) -> Result<
    (u32, u32),
    GeometryError,
> {
    match size {
        Some(wh) => Ok(wh),
        None => match bb {
            Err(e) => Err(e),
            Ok(None) => Ok((0u32, 0u32)),
            Ok(Some(r)) => Ok(((r.max.x - r.min.x) as u32, (r.max.y - r.min.y) as u32)),
        },
    }
}

/// The shape is drawn with its origin at the centre of the page.
pub open spec fn page_transform(w: u32, h: u32) -> Transform {
    Transform { a: 1, b: 0, c: 0, d: 1, tx: (w / 2) as i32, ty: (h / 2) as i32 }
}

pub open spec fn pdf_error(e: GeometryError) -> PDFError {
    match e {
        GeometryError::CurveHasNoStartingPoint => PDFError::CurveHasNoStartingPoint,
        GeometryError::Overflow => PDFError::Overflow,
    }
}

fn pdf_error_of(e: GeometryError) -> (r: PDFError)
    ensures
        r == pdf_error(e),
{
    match e {
        GeometryError::CurveHasNoStartingPoint => PDFError::CurveHasNoStartingPoint,
        GeometryError::Overflow => PDFError::Overflow,
    }
}

/// The page of a shape: its size, its calls and the fonts it starts with.
pub open spec fn page_spec(s: Shape, size: Option<(u32, u32)>, fonts: Seq<(u32, FontWeight)>) -> Result<
    (u32, u32, Seq<PdfOpView>, Seq<(u32, FontWeight)>),
    PDFError,
> {
    match page_size(bounding_box_spec(s), size) {
        Err(e) => Err(pdf_error(e)),
        Ok((w, h)) => match shape_calls(s, page_transform(w, h), false, no_style()) {
            Err(e) => Err(pdf_error(e)),
            Ok(cs) => Ok((w, h, calls_ops(cs, fonts), calls_fonts(cs, fonts))),
        },
    }
}

/// A shape that can be written as a PDF page.
pub trait ToPDF {
    /// The page that `to_pdf_with_options` makes.
    spec fn pdf_page(&self, size: Option<(u32, u32)>, fonts: Seq<(u32, FontWeight)>) -> Result<
        (u32, u32, Seq<PdfOpView>, Seq<(u32, FontWeight)>),
        PDFError,
    >;

    /// Writes the page into a fresh document sized by `options`.
    fn to_pdf_with_options(&self, options: PDFOptions) -> (r: Result<PdfDocument, PDFError>)
        ensures
            match self.pdf_page(options.size, options.used_font@) {
                Ok((w, h, ops, fonts)) => r matches Ok(d) && d.width == w && d.height == h
                    && view_ops(d.ops@) == ops && d.fonts@ == fonts,
                Err(e) => r matches Err(x) && x == e,
            },
    ;

    /// Writes the page with no options.
    fn to_pdf(&self) -> (r: Result<PdfDocument, PDFError>)
        ensures
            match self.pdf_page(None, Seq::empty()) {
                Ok((w, h, ops, fonts)) => r matches Ok(d) && d.width == w && d.height == h
                    && view_ops(d.ops@) == ops && d.fonts@ == fonts,
                Err(e) => r matches Err(x) && x == e,
            },
    ;
}

impl ToPDF for Shape {
    open spec fn pdf_page(&self, size: Option<(u32, u32)>, fonts: Seq<(u32, FontWeight)>) -> Result<
        (u32, u32, Seq<PdfOpView>, Seq<(u32, FontWeight)>),
        PDFError,
    > {
        page_spec(*self, size, fonts)
    }

    fn to_pdf_with_options(&self, options: PDFOptions) -> (r: Result<PdfDocument, PDFError>) {
        let (w, h) = match options.size {
            Some(wh) => wh,
            None => match self.local_bounding_box() {
                Err(e) => {
                    return Err(pdf_error_of(e));
                },
                Ok(None) => (0u32, 0u32),
                Ok(Some(r)) => {
                    proof {
                        let cs = shape_calls(*self, Transform { a: 1, b: 0, c: 0, d: 1, tx: 0, ty: 0 }, false, no_style())->Ok_0;
                        let ps = calls_points(cs);
                        lemma_bbox_bounds(ps);
                        assert(rect_contains(r, ps[0]));
                    }
                    ((r.max.x as i64 - r.min.x as i64) as u32, (r.max.y as i64 - r.min.y as i64) as u32)
                },
            },
        };
        let parent = Transform::translation((w / 2) as i32, (h / 2) as i32);
        let calls = match resolve_calls(self, &parent, false) {
            Ok(calls) => calls,
            Err(e) => {
                return Err(pdf_error_of(e));
            },
        };
        proof {
            lemma_plain_calls(*self, parent, no_style());
        }
        let mut exporter = PDFExporter::new(options.used_font);
        let mut i: usize = 0;
        while i < calls.len()
            invariant
                i <= calls@.len(),
                exporter.consistent(),
                plain_calls(view_calls(calls@)),
                exporter.calls() == view_calls(calls@).take(i as int),
                exporter.initial_fonts() == options.used_font@,
            decreases calls.len() - i,
        {
            assert(view_calls(calls@)[i as int] == calls@[i as int]@);
            exporter.accept(&calls[i]);
            i += 1;
            assert(exporter.calls() =~= view_calls(calls@).take(i as int));
        }
        assert(view_calls(calls@).take(i as int) =~= view_calls(calls@));
        Ok(PdfDocument { width: w, height: h, ops: exporter.ops, fonts: exporter.used_font })
    }

    fn to_pdf(&self) -> (r: Result<PdfDocument, PDFError>) {
        let options = PDFOptions::new();
        assert(options.used_font@ =~= Seq::empty());
        self.to_pdf_with_options(options)
    }
}

} // verus!
