use vstd::prelude::*;
use crate::export::{lemma_view_push, view_calls, Call, ExportCall, Exporter};
use crate::position::{CurvePosition, EllipsePosition, ImagePosition, TextPosition};
use crate::shape::Style;

verus! {

impl CurvePosition {
    /// A copy with the same view.
    pub fn duplicate(&self) -> (r: CurvePosition)
        ensures
            r@ == self@,
    {
        let mut keypoints = Vec::new();
        let mut i: usize = 0;
        while i < self.keypoints.len()
            invariant
                i <= self.keypoints@.len(),
                keypoints@ == self.keypoints@.subrange(0, i as int),
            decreases self.keypoints.len() - i,
        {
            keypoints.push(self.keypoints[i]);
            i += 1;
            assert(keypoints@ =~= self.keypoints@.subrange(0, i as int));
        }
        assert(keypoints@ =~= self.keypoints@);
        CurvePosition { keypoints, closed: self.closed }
    }
}

impl TextPosition {
    /// A copy with the same view.
    pub fn duplicate(&self) -> (r: TextPosition)
        ensures
            r@ == self@,
    {
        TextPosition {
            text: self.text.clone(),
            align: self.align,
            vertical_align: self.vertical_align,
            font_weight: self.font_weight,
            font_size: self.font_size,
            reference_start: self.reference_start,
            direction: self.direction,
            on_curve: match &self.on_curve {
                Some(c) => Some(c.duplicate()),
                None => None,
            },
            font: self.font,
        }
    }
}

impl ImagePosition {
    /// A copy with the same view.
    pub fn duplicate(&self) -> (r: ImagePosition)
        ensures
            r@ == self@,
    {
        ImagePosition {
            top_left: self.top_left,
            top_right: self.top_right,
            bottom_right: self.bottom_right,
            bottom_left: self.bottom_left,
            center: self.center,
            width: self.width,
            height: self.height,
            rotation: self.rotation,
            pixel_width: self.pixel_width,
            pixel_height: self.pixel_height,
            data: self.data.clone(),
        }
    }
}

/// The backend refused a call: it already holds as many as it may.
#[derive(Clone, Copy, Debug, PartialEq, Eq, Structural)]
pub struct RecorderFull;

/// A backend that keeps every call it receives, in order, up to an optional
/// limit beyond which it fails.
#[derive(Debug)]
pub struct Recorder {
    pub native_ellipse: bool,
    pub limit: Option<usize>,
    pub log: Vec<ExportCall>,
}

impl Recorder {
    pub fn new(native_ellipse: bool) -> (r: Recorder)
        ensures
            r.native_ellipse == native_ellipse,
            r.limit is None,
            r.log@.len() == 0,
    {
        Recorder { native_ellipse, limit: None, log: Vec::new() }
    }

    /// A recorder that fails every call once it holds `limit` calls.
    pub fn with_limit(native_ellipse: bool, limit: usize) -> (r: Recorder)
        ensures
            r.native_ellipse == native_ellipse,
            r.limit == Some(limit),
            r.log@.len() == 0,
    {
        Recorder { native_ellipse, limit: Some(limit), log: Vec::new() }
    }

    pub open spec fn is_full(&self) -> bool {
        self.limit matches Some(n) && self.log@.len() >= n
    }

    fn record(&mut self, call: ExportCall) -> (r: Result<(), RecorderFull>)
        ensures
            final(self).native_ellipse == old(self).native_ellipse,
            final(self).limit == old(self).limit,
            r is Err <==> old(self).is_full(),
            final(self).log@ == (if r is Ok {
                old(self).log@.push(call)
            } else {
                old(self).log@
            }),
    {
        if let Some(n) = self.limit {
            if self.log.len() >= n {
                return Err(RecorderFull);
            }
        }
        self.log.push(call);
        Ok(())
    }
}

impl Exporter for Recorder {
    type Error = RecorderFull;

    open spec fn calls(&self) -> Seq<Call> {
        view_calls(self.log@)
    }

    open spec fn inv(&self) -> bool {
        true
    }

    open spec fn exports_ellipse(&self) -> bool {
        self.native_ellipse
    }

    fn can_export_ellipse(&self) -> (r: bool) {
        self.native_ellipse
    }

    fn start_style(&mut self, style: &Style) -> (r: Result<(), RecorderFull>)
        ensures
            r is Err <==> old(self).is_full(),
            final(self).limit == old(self).limit,
    {
        proof {
            lemma_view_push(self.log@, ExportCall::StartStyle(*style));
        }
        self.record(ExportCall::StartStyle(*style))
    }

    fn end_style(&mut self) -> (r: Result<(), RecorderFull>)
        ensures
            r is Err <==> old(self).is_full(),
            final(self).limit == old(self).limit,
    {
        proof {
            lemma_view_push(self.log@, ExportCall::EndStyle);
        }
        self.record(ExportCall::EndStyle)
    }

    fn export_curve(&mut self, curve: &CurvePosition) -> (r: Result<(), RecorderFull>)
        ensures
            r is Err <==> old(self).is_full(),
            final(self).limit == old(self).limit,
    {
        let c = ExportCall::Curve(curve.duplicate());
        proof {
            lemma_view_push(self.log@, c);
        }
        self.record(c)
    }

    fn export_ellipse(&mut self, ellipse: &EllipsePosition) -> (r: Result<(), RecorderFull>)
        ensures
            r is Err <==> old(self).is_full(),
            final(self).limit == old(self).limit,
    {
        proof {
            lemma_view_push(self.log@, ExportCall::Ellipse(*ellipse));
        }
        self.record(ExportCall::Ellipse(*ellipse))
    }

    fn export_text(&mut self, text: &TextPosition) -> (r: Result<(), RecorderFull>)
        ensures
            r is Err <==> old(self).is_full(),
            final(self).limit == old(self).limit,
    {
        let c = ExportCall::Text(text.duplicate());
        proof {
            lemma_view_push(self.log@, c);
        }
        self.record(c)
    }

    fn export_image(&mut self, image: &ImagePosition) -> (r: Result<(), RecorderFull>)
        ensures
            r is Err <==> old(self).is_full(),
            final(self).limit == old(self).limit,
    {
        let c = ExportCall::Image(image.duplicate());
        proof {
            lemma_view_push(self.log@, c);
        }
        self.record(c)
    }
}

} // verus!
