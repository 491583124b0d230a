use crate::input::{translate_event, translated, EventKind, InputBatch, ScreenConfig};
use crate::render::PixelRect;
use vstd::prelude::*;

verus! {

/// Status returned to the host for every event this layer handles or ignores.
pub const STATUS_HANDLED: i32 = 0;

/// What the host integration must do for one native event, in this order:
/// ask the host to close the application; reset the panel mode; drive one
/// frame with the given input and draw its display list; refresh the whole
/// screen. Then `status` goes back to the host.
#[derive(Clone, Debug)]
pub struct EventPlan {
    pub close_app: bool,
    pub reset_panel: bool,
    pub frame_input: Option<InputBatch>,
    pub full_refresh: bool,
    pub status: i32,
}

/// Event kinds that drive a toolkit frame.
pub open spec fn drives_frame(kind: EventKind) -> bool {
    kind == EventKind::Show || kind == EventKind::PointerDown || kind == EventKind::PointerUp
        || kind == EventKind::PointerDrag
}

/// Decides how one native event is handled. A key press only asks for the
/// application to close. A show resets the panel, drives a frame with no
/// input and refreshes the whole screen. A press, release or drag drives a
/// frame with its translated input and leaves refreshing to the widgets that
/// changed. Any other event is ignored.
pub fn plan_event(config: &ScreenConfig, kind: EventKind, p1: i32, p2: i32) -> (r: EventPlan)
    requires
        config.wf(),
    ensures
        r.close_app == (kind == EventKind::KeyPress),
        r.reset_panel == (kind == EventKind::Show),
        r.full_refresh == (kind == EventKind::Show),
        r.frame_input is Some <==> drives_frame(kind),
        r.frame_input matches Some(b) ==> b.describes(*config, translated(kind, p1, p2)),
        r.status == STATUS_HANDLED,
{
    let show = matches!(kind, EventKind::Show);
    let frame_input = match kind {
        EventKind::Show | EventKind::PointerDown | EventKind::PointerUp | EventKind::PointerDrag => {
            Some(InputBatch::new(config, translate_event(kind, p1, p2)))
        },
        _ => None,
    };
    EventPlan {
        close_app: matches!(kind, EventKind::KeyPress),
        reset_panel: show,
        frame_input,
        full_refresh: show,
        status: STATUS_HANDLED,
    }
}

/// The region to refresh after a widget reports its state: its own box when
/// it changed, nothing otherwise.
pub fn partial_refresh_region(changed: bool, rect: PixelRect) -> (r: Option<PixelRect>)
    ensures
        r == (if changed { Some(rect) } else { None::<PixelRect> }),
{
    if changed {
        Some(rect)
    } else {
        None
    }
}

} // verus!
