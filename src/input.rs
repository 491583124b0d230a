use vstd::prelude::*;

verus! {

/// Physical width of the supported panel, in device pixels.
pub const SCREEN_WIDTH_PX: u32 = 1404;

/// Physical height of the supported panel, in device pixels.
pub const SCREEN_HEIGHT_PX: u32 = 1872;

/// Device pixels per toolkit point on the supported panel.
pub const PIXELS_PER_POINT: u32 = 3;

/// Exclusive upper bound on the scale factor that the toolkit accepts.
pub const MAX_PIXELS_PER_POINT: u32 = 100;

/// Screen geometry shared by the event translator and the renderer.
#[derive(Clone, Copy, Debug, PartialEq, Eq, Structural)]
pub struct ScreenConfig {
    pub width_px: u32,
    pub height_px: u32,
    pub pixels_per_point: u32,
}

impl ScreenConfig {
    /// The toolkit accepts scale factors strictly between 0 and 100.
    pub open spec fn wf(&self) -> bool {
        0 < self.pixels_per_point < MAX_PIXELS_PER_POINT
    }

    /// Whether the scale factor is one the toolkit accepts.
    pub fn pixels_per_point_supported(&self) -> (r: bool)
        ensures
            r == self.wf(),
    {
        0 < self.pixels_per_point && self.pixels_per_point < MAX_PIXELS_PER_POINT
    }

    /// Geometry of the supported reader panel.
    pub fn pocketbook() -> (r: ScreenConfig)
        ensures
            r.wf(),
            r.width_px == SCREEN_WIDTH_PX,
            r.height_px == SCREEN_HEIGHT_PX,
            r.pixels_per_point == PIXELS_PER_POINT,
    {
        ScreenConfig {
            width_px: SCREEN_WIDTH_PX,
            height_px: SCREEN_HEIGHT_PX,
            pixels_per_point: PIXELS_PER_POINT,
        }
    }

    /// Logical screen width handed to the toolkit: half the pixel width.
    pub fn logical_width(&self) -> (r: u32)
        ensures
            r == self.width_px / 2,
    {
        self.width_px / 2
    }

    /// Logical screen height handed to the toolkit: half the pixel height.
    pub fn logical_height(&self) -> (r: u32)
        ensures
            r == self.height_px / 2,
    {
        self.height_px / 2
    }
}

/// Kind of a native device event.
#[derive(Clone, Copy, Debug, PartialEq, Eq, Structural)]
pub enum EventKind {
    Show,
    PointerDown,
    PointerUp,
    PointerDrag,
    KeyPress,
    Other,
}

/// Phase of the single synthesized touch point.
#[derive(Clone, Copy, Debug, PartialEq, Eq, Structural)]
pub enum TouchPhase {
    Start,
    End,
}

/// A position in device pixels. The toolkit sees it divided by the
/// batch's pixels-per-point scale.
#[derive(Clone, Copy, Debug, PartialEq, Eq, Structural)]
pub struct PixelPos {
    pub x: i32,
    pub y: i32,
}

/// One semantic input event for the toolkit. Only the primary button and a
/// single touch point exist on this device.
#[derive(Clone, Copy, Debug, PartialEq, Eq, Structural)]
pub enum InputEvent {
    Touch { phase: TouchPhase, pos: PixelPos },
    PointerButton { pos: PixelPos, pressed: bool },
    PointerMoved { pos: PixelPos },
}

/// The input events that a native event of `kind` with parameters
/// `(p1, p2)` stands for, in the order the toolkit must see them.
pub open spec fn translated(kind: EventKind, p1: i32, p2: i32) -> Seq<InputEvent> {
    let pos = PixelPos { x: p1, y: p2 };
    match kind {
        EventKind::PointerDown => seq![
            InputEvent::Touch { phase: TouchPhase::Start, pos },
            InputEvent::PointerButton { pos, pressed: true },
        ],
        EventKind::PointerUp => seq![
            InputEvent::Touch { phase: TouchPhase::End, pos },
            InputEvent::PointerButton { pos, pressed: false },
        ],
        EventKind::PointerDrag => seq![InputEvent::PointerMoved { pos }],
        _ => Seq::empty(),
    }
}

/// Translates a native event into the toolkit's input events. A press or a
/// release gives a touch event followed by a primary-button event at the same
/// position; a drag gives one pointer move; every other kind gives nothing.
pub fn translate_event(kind: EventKind, p1: i32, p2: i32) -> (r: Vec<InputEvent>)
    ensures
        r@ == translated(kind, p1, p2),
        (kind == EventKind::PointerDown || kind == EventKind::PointerUp) ==> {
            let pressed = kind == EventKind::PointerDown;
            let phase = if pressed { TouchPhase::Start } else { TouchPhase::End };
            &&& r@.len() == 2
            &&& r@[0] == (InputEvent::Touch { phase, pos: PixelPos { x: p1, y: p2 } })
            &&& r@[1] == (InputEvent::PointerButton { pos: PixelPos { x: p1, y: p2 }, pressed })
        },
        kind == EventKind::PointerDrag ==> r@ == seq![
            InputEvent::PointerMoved { pos: PixelPos { x: p1, y: p2 } },
        ],
{
    let pos = PixelPos { x: p1, y: p2 };
    let mut r: Vec<InputEvent> = Vec::new();
    match kind {
        EventKind::PointerDown => {
            r.push(InputEvent::Touch { phase: TouchPhase::Start, pos });
            r.push(InputEvent::PointerButton { pos, pressed: true });
        },
        EventKind::PointerUp => {
            r.push(InputEvent::Touch { phase: TouchPhase::End, pos });
            r.push(InputEvent::PointerButton { pos, pressed: false });
        },
        EventKind::PointerDrag => {
            r.push(InputEvent::PointerMoved { pos });
        },
        _ => {},
    }
    assert(r@ =~= translated(kind, p1, p2));
    r
}

/// The per-frame input handed to the toolkit.
#[derive(Clone, Debug)]
pub struct InputBatch {
    pub screen_width_px: u32,
    pub screen_height_px: u32,
    pub logical_width: u32,
    pub logical_height: u32,
    pub pixels_per_point: u32,
    pub events: Vec<InputEvent>,
}

impl InputBatch {
    /// The batch carries the geometry of `config` and exactly `events`.
    pub open spec fn describes(&self, config: ScreenConfig, events: Seq<InputEvent>) -> bool {
        &&& self.screen_width_px == config.width_px
        &&& self.screen_height_px == config.height_px
        &&& self.logical_width == config.width_px / 2
        &&& self.logical_height == config.height_px / 2
        &&& self.pixels_per_point == config.pixels_per_point
        &&& self.events@ == events
    }

    /// Wraps `events` with the screen geometry of `config`.
    pub fn new(config: &ScreenConfig, events: Vec<InputEvent>) -> (r: InputBatch)
        ensures
            r.describes(*config, events@),
    {
        InputBatch {
            screen_width_px: config.width_px,
            screen_height_px: config.height_px,
            logical_width: config.logical_width(),
            logical_height: config.logical_height(),
            pixels_per_point: config.pixels_per_point,
            events,
        }
    }
}

} // verus!
