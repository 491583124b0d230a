use crate::input::PixelPos;
use vstd::prelude::*;

verus! {

/// Left-aligned text, as the device's text-block flags encode it.
pub const TEXT_ALIGN_LEFT: i32 = 1;

/// Bottom-aligned text, as the device's text-block flags encode it.
pub const TEXT_VALIGN_BOTTOM: i32 = 64;

/// Text blocks are drawn left- and bottom-aligned inside their box.
pub const TEXT_BLOCK_ALIGN: i32 = TEXT_ALIGN_LEFT + TEXT_VALIGN_BOTTOM;

/// An opaque fill or foreground color, one byte per channel.
#[derive(Clone, Copy, Debug, PartialEq, Eq, Structural)]
pub struct Rgb {
    pub r: u8,
    pub g: u8,
    pub b: u8,
}

/// A color in the device's packed encoding.
#[derive(Clone, Copy, Debug, PartialEq, Eq, Structural)]
pub struct DeviceColor(pub i32);

/// The device packs red into the low byte, then green, then blue.
pub open spec fn device_color_value(c: Rgb) -> int {
    c.b * 65536 + c.g * 256 + c.r
}

/// Packs `c` into the device encoding; no alpha or blending is involved.
pub fn device_color(c: Rgb) -> (r: DeviceColor)
    ensures
        r.0 == device_color_value(c),
{
    DeviceColor((c.b as i32) * 65536 + (c.g as i32) * 256 + (c.r as i32))
}

/// The packed encoding keeps every channel: each can be read back from it.
pub proof fn lemma_device_color_channels(c: Rgb)
    ensures
        device_color_value(c) % 256 == c.r,
        (device_color_value(c) / 256) % 256 == c.g,
        device_color_value(c) / 65536 == c.b,
{
    let v = device_color_value(c);
    assert(v % 256 == c.r as int) by (nonlinear_arith)
        requires v == c.b * 65536 + c.g * 256 + c.r, 0 <= c.r < 256, 0 <= c.g < 256;
    assert(v / 256 == c.b * 256 + c.g) by (nonlinear_arith)
        requires v == c.b * 65536 + c.g * 256 + c.r, 0 <= c.r < 256, 0 <= c.g < 256;
    assert((c.b * 256 + c.g) % 256 == c.g as int) by (nonlinear_arith)
        requires 0 <= c.g < 256, 0 <= c.b;
    assert(v / 65536 == c.b as int) by (nonlinear_arith)
        requires v == c.b * 65536 + c.g * 256 + c.r, 0 <= c.r < 256, 0 <= c.g < 256;
}

/// A clip rectangle in device pixels.
#[derive(Clone, Copy, Debug, PartialEq, Eq, Structural)]
pub struct ClipRect {
    pub min_x: i32,
    pub min_y: i32,
    pub max_x: i32,
    pub max_y: i32,
}

impl ClipRect {
    /// A clip with positive width and height; any other clip hides everything.
    pub open spec fn positive(&self) -> bool {
        self.min_x < self.max_x && self.min_y < self.max_y
    }

    /// Whether the clip has positive area.
    pub fn is_positive(&self) -> (r: bool)
        ensures
            r == self.positive(),
    {
        self.min_x < self.max_x && self.min_y < self.max_y
    }
}

/// An axis-aligned box in device pixels: top-left corner and size.
#[derive(Clone, Copy, Debug, PartialEq, Eq, Structural)]
pub struct PixelRect {
    pub x: i32,
    pub y: i32,
    pub w: i32,
    pub h: i32,
}

/// Font roles held by the resource store.
#[derive(Clone, Copy, Debug, PartialEq, Eq, Structural)]
pub enum FontRole {
    RegularText,
    Title,
    Caption,
}

/// A display-list primitive with its geometry in device pixels.
#[derive(Clone, Debug, PartialEq, Eq)]
pub enum Primitive {
    Empty,
    Circle { center: PixelPos, radius: i32, fill: Rgb },
    /// The corner radius is carried but not drawn: the device fills square corners.
    Rect { rect: PixelRect, corner_radius: i32, fill: Rgb },
    /// A laid-out text block bounded by `rect`.
    Text { rect: PixelRect, text: String, color: Rgb },
    /// Lines, paths and meshes: this device has no primitive for them.
    Unsupported,
}

/// One display-list entry: a primitive and the clip it is drawn under.
#[derive(Clone, Debug, PartialEq, Eq)]
pub struct ClippedPrimitive {
    pub clip: ClipRect,
    pub primitive: Primitive,
}

/// One call into the device's drawing service.
#[derive(Clone, Debug, PartialEq, Eq)]
pub enum DrawCall {
    FillCircle { center: PixelPos, radius: i32, color: DeviceColor },
    FillRect { rect: PixelRect, color: DeviceColor },
    /// Select `font` in `color`, then draw `text` inside `rect` with `align` flags.
    TextBlock { rect: PixelRect, text: String, font: FontRole, color: DeviceColor, align: i32 },
}

/// The device call that stands for `p`, if the device can draw it.
pub open spec fn draw_call_of(p: Primitive) -> Option<DrawCall> {
    match p {
        Primitive::Circle { center, radius, fill } => Some(
            DrawCall::FillCircle { center, radius, color: DeviceColor(device_color_value(fill) as i32) },
        ),
        Primitive::Rect { rect, corner_radius, fill } => Some(
            DrawCall::FillRect { rect, color: DeviceColor(device_color_value(fill) as i32) },
        ),
        Primitive::Text { rect, text, color } => Some(
            DrawCall::TextBlock {
                rect,
                text,
                font: FontRole::RegularText,
                color: DeviceColor(device_color_value(color) as i32),
                align: TEXT_BLOCK_ALIGN,
            },
        ),
        _ => None,
    }
}

/// The calls that a display list gives, in list order: entries under a
/// non-positive clip and primitives the device cannot draw give none.
pub open spec fn rendered(list: Seq<ClippedPrimitive>) -> Seq<DrawCall>
    decreases list.len(),
{
    if list.len() == 0 {
        Seq::empty()
    } else {
        let before = rendered(list.drop_last());
        let e = list.last();
        if e.clip.positive() {
            match draw_call_of(e.primitive) {
                Some(c) => before.push(c),
                None => before,
            }
        } else {
            before
        }
    }
}

/// The device call for one primitive.
fn primitive_call(p: &Primitive) -> (r: Option<DrawCall>)
    ensures
        r == draw_call_of(*p),
{
    match p {
        Primitive::Circle { center, radius, fill } => Some(
            DrawCall::FillCircle { center: *center, radius: *radius, color: device_color(*fill) },
        ),
        Primitive::Rect { rect, corner_radius: _, fill } => Some(
            DrawCall::FillRect { rect: *rect, color: device_color(*fill) },
        ),
        Primitive::Text { rect, text, color } => Some(
            DrawCall::TextBlock {
                rect: *rect,
                text: text.clone(),
                font: FontRole::RegularText,
                color: device_color(*color),
                align: TEXT_BLOCK_ALIGN,
            },
        ),
        _ => None,
    }
}

/// Walks the display list once, in order, and returns the device calls it
/// stands for. Nothing is reordered or merged.
pub fn render_display_list(list: &Vec<ClippedPrimitive>) -> (r: Vec<DrawCall>)
    ensures
        r@ == rendered(list@),
{
    let mut r: Vec<DrawCall> = Vec::new();
    let mut i: usize = 0;
    while i < list.len()
        invariant
            i <= list@.len(),
            r@ == rendered(list@.subrange(0, i as int)),
        decreases list@.len() - i,
    {
        let e = &list[i];
        proof {
            assert(list@.subrange(0, i + 1).drop_last() =~= list@.subrange(0, i as int));
        }
        if e.clip.is_positive() {
            match primitive_call(&e.primitive) {
                Some(c) => r.push(c),
                None => {},
            }
        }
        i = i + 1;
    }
    assert(list@.subrange(0, list@.len() as int) =~= list@);
    r
}

/// An entry whose clip has no positive area adds no device call.
pub proof fn lemma_hidden_entry_draws_nothing(list: Seq<ClippedPrimitive>, e: ClippedPrimitive)
    requires
        !e.clip.positive(),
    ensures
        rendered(list.push(e)) == rendered(list),
{
    assert(list.push(e).drop_last() =~= list);
}

/// A visible rectangle or circle adds exactly one fill call whose color is
/// its fill color packed channel for channel.
pub proof fn lemma_fill_color_kept(list: Seq<ClippedPrimitive>, e: ClippedPrimitive)
    requires
        e.clip.positive(),
        e.primitive is Rect || e.primitive is Circle,
    ensures
        ({
            let out = rendered(list.push(e));
            let fill = if e.primitive is Rect {
                e.primitive->Rect_fill
            } else {
                e.primitive->Circle_fill
            };
            let color = if out.last() is FillRect {
                out.last()->FillRect_color
            } else {
                out.last()->FillCircle_color
            };
            &&& out.len() == rendered(list).len() + 1
            &&& out.drop_last() == rendered(list)
            &&& (e.primitive is Rect ==> out.last() is FillRect)
            &&& (e.primitive is Circle ==> out.last() is FillCircle)
            &&& color.0 == device_color_value(fill)
        }),
{
    assert(list.push(e).drop_last() =~= list);
    assert(rendered(list).push(draw_call_of(e.primitive).unwrap()).drop_last() =~= rendered(list));
    let fill = if e.primitive is Rect {
        e.primitive->Rect_fill
    } else {
        e.primitive->Circle_fill
    };
    assert(0 <= device_color_value(fill) < 16777216) by (nonlinear_arith)
        requires
            device_color_value(fill) == fill.b * 65536 + fill.g * 256 + fill.r,
            0 <= fill.r < 256, 0 <= fill.g < 256, 0 <= fill.b < 256;
}

} // verus!
