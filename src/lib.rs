//! Platform-integration layer that drives an immediate-mode GUI toolkit on an
//! e-ink reader: event translation, frame bookkeeping, display-list rendering
//! decisions and refresh-mode selection.
pub mod dispatch;
pub mod frame;
pub mod input;
pub mod render;
pub mod repaint;

pub use repaint::NeedRepaint;
pub use input::{
    translate_event, EventKind, InputBatch, InputEvent, PixelPos, ScreenConfig, TouchPhase,
    MAX_PIXELS_PER_POINT, PIXELS_PER_POINT, SCREEN_HEIGHT_PX, SCREEN_WIDTH_PX,
};
pub use render::{
    device_color, render_display_list, ClipRect, ClippedPrimitive, DeviceColor, DrawCall, FontRole,
    PixelRect, Primitive, Rgb, TEXT_ALIGN_LEFT, TEXT_BLOCK_ALIGN, TEXT_VALIGN_BOTTOM,
};
pub use frame::PocketbookBackend;
pub use dispatch::{partial_refresh_region, plan_event, EventPlan, STATUS_HANDLED};
