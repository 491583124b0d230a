use egui::epaint::ClippedShape;
use egui::{CtxRef, Output, RawInput};
use crate::input::ScreenConfig;
use vstd::prelude::*;

verus! {

#[verifier::external_type_specification]
#[verifier::external_body]
pub struct ExCtxRef(egui::CtxRef);

#[verifier::external_type_specification]
#[verifier::external_body]
pub struct ExRawInput(egui::RawInput);

#[verifier::external_type_specification]
#[verifier::external_body]
pub struct ExOutput(egui::Output);

#[verifier::external_type_specification]
#[verifier::external_body]
pub struct ExClippedShape(egui::epaint::ClippedShape);

/// Owns the toolkit context and keeps at most one frame open at a time.
pub struct PocketbookBackend {
    egui_ctx: CtxRef,
    frame_open: bool,
}

/// Relies on `egui::CtxRef::default`: a fresh context, with no frame begun.
#[verifier::external_body]
fn new_context() -> CtxRef {
    CtxRef::default()
}

/// Relies on `egui::CtxRef::begin_frame`: it hands the input, at the given
/// scale, to the toolkit and replaces the context by a new generation. The
/// scale overrides the one in `raw_input`; the toolkit rejects a scale
/// outside the open range from 0 to 100.
#[verifier::external_body]
fn toolkit_begin_frame(ctx: &mut CtxRef, raw_input: RawInput, pixels_per_point: u16)
    requires
        0 < pixels_per_point < 100,
    ensures
        *final(ctx) != *old(ctx),
{
    ctx.begin_frame(RawInput { pixels_per_point: Some(pixels_per_point.into()), ..raw_input })
}

impl PocketbookBackend {
    /// Whether a frame has begun and not yet ended.
    pub closed spec fn is_frame_open(&self) -> bool {
        self.frame_open
    }

    /// The toolkit context as it stands.
    pub closed spec fn toolkit(&self) -> CtxRef {
        self.egui_ctx
    }

    /// A backend with a fresh toolkit context and no open frame.
    pub fn new() -> (r: PocketbookBackend)
        ensures
            !r.is_frame_open(),
    {
        PocketbookBackend { egui_ctx: new_context(), frame_open: false }
    }

    /// The toolkit context, for the hosted application's update.
    pub fn context(&self) -> (r: &CtxRef)
        ensures
            *r == self.toolkit(),
    {
        &self.egui_ctx
    }

    /// Whether a frame is open, so that callers can meet the frame calls'
    /// preconditions.
    pub fn frame_open(&self) -> (r: bool)
        ensures
            r == self.is_frame_open(),
    {
        self.frame_open
    }

    /// Opens a frame and hands `raw_input` to the toolkit at the scale of
    /// `config`, which moves the context to a new frame. Frames never overlap.
    pub fn begin_frame(&mut self, raw_input: RawInput, config: &ScreenConfig)
        requires
            !old(self).is_frame_open(),
            config.wf(),
        ensures
            final(self).is_frame_open(),
            final(self).toolkit() != old(self).toolkit(),
    {
        toolkit_begin_frame(&mut self.egui_ctx, raw_input, config.pixels_per_point as u16);
        self.frame_open = true;
    }

    /// Relies on `egui::CtxRef::end_frame`: it closes the toolkit's frame and
    /// returns its output and display list. The toolkit panics when no frame
    /// was ever begun, which an open frame here rules out.
    #[verifier::external_body]
    fn finish_toolkit_frame(&self) -> (Output, Vec<ClippedShape>)
        requires
            self.frame_open,
    {
        self.egui_ctx.end_frame()
    }

    /// Closes the open frame and returns the toolkit's output and display list.
    pub fn end_frame(&mut self) -> (r: (Output, Vec<ClippedShape>))
        requires
            old(self).is_frame_open(),
        ensures
            !final(self).is_frame_open(),
            final(self).toolkit() == old(self).toolkit(),
    {
        let out = self.finish_toolkit_frame();
        self.frame_open = false;
        out
    }
}

} // verus!
