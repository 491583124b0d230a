use pocketbook_egui::{
    device_color, partial_refresh_region, plan_event, render_display_list, translate_event,
    ClipRect, ClippedPrimitive, DeviceColor, DrawCall, EventKind, FontRole,
    InputEvent, NeedRepaint, PixelPos, PixelRect, PocketbookBackend, Primitive, Rgb,
    ScreenConfig, TouchPhase, STATUS_HANDLED, TEXT_BLOCK_ALIGN,
};

fn visible() -> ClipRect {
    ClipRect { min_x: 0, min_y: 0, max_x: 1404, max_y: 1872 }
}

fn points(pos: PixelPos, ppp: u32) -> (f32, f32) {
    (pos.x as f32 / ppp as f32, pos.y as f32 / ppp as f32)
}

#[test]
fn pointer_down_gives_touch_start_then_press() {
    let r = translate_event(EventKind::PointerDown, 10, -4);
    let pos = PixelPos { x: 10, y: -4 };
    assert_eq!(
        r,
        vec![
            InputEvent::Touch { phase: TouchPhase::Start, pos },
            InputEvent::PointerButton { pos, pressed: true },
        ]
    );
}

#[test]
fn pointer_up_gives_touch_end_then_release() {
    let r = translate_event(EventKind::PointerUp, 7, 8);
    let pos = PixelPos { x: 7, y: 8 };
    assert_eq!(
        r,
        vec![
            InputEvent::Touch { phase: TouchPhase::End, pos },
            InputEvent::PointerButton { pos, pressed: false },
        ]
    );
}

#[test]
fn pointer_drag_gives_one_move() {
    let r = translate_event(EventKind::PointerDrag, 30, 45);
    assert_eq!(r, vec![InputEvent::PointerMoved { pos: PixelPos { x: 30, y: 45 } }]);
    if let InputEvent::PointerMoved { pos } = r[0] {
        assert_eq!(points(pos, 3), (10.0, 15.0));
    }
}

#[test]
fn other_kinds_give_no_input() {
    assert!(translate_event(EventKind::Show, 1, 2).is_empty());
    assert!(translate_event(EventKind::KeyPress, 1, 2).is_empty());
    assert!(translate_event(EventKind::Other, 1, 2).is_empty());
}

#[test]
fn frames_open_and_close_in_pairs() {
    let config = ScreenConfig::pocketbook();
    let mut backend = PocketbookBackend::new();
    assert!(!backend.frame_open());
    backend.begin_frame(egui::RawInput::default(), &config);
    assert!(backend.frame_open());
    assert_eq!(backend.context().pixels_per_point(), 3.0);
    let (_output, _shapes) = backend.end_frame();
    assert!(!backend.frame_open());
    backend.begin_frame(egui::RawInput::default(), &config);
    assert!(backend.frame_open());
    let _ = backend.end_frame();
    assert!(!backend.frame_open());
}

#[test]
fn begin_frame_moves_the_toolkit_to_a_new_context() {
    let config = ScreenConfig::pocketbook();
    let mut backend = PocketbookBackend::new();
    let before = backend.context().clone();
    backend.begin_frame(egui::RawInput::default(), &config);
    assert!(*backend.context() != before);
    let _ = backend.end_frame();
}

#[test]
fn non_positive_clips_draw_nothing() {
    let fill = Rgb { r: 1, g: 2, b: 3 };
    let rect = PixelRect { x: 0, y: 0, w: 5, h: 5 };
    let clips = [
        ClipRect { min_x: 0, min_y: 0, max_x: 0, max_y: 10 },
        ClipRect { min_x: 0, min_y: 0, max_x: 10, max_y: 0 },
        ClipRect { min_x: 5, min_y: 5, max_x: 1, max_y: 9 },
    ];
    let list: Vec<ClippedPrimitive> = clips
        .iter()
        .map(|c| ClippedPrimitive {
            clip: *c,
            primitive: Primitive::Rect { rect, corner_radius: 0, fill },
        })
        .collect();
    assert!(render_display_list(&list).is_empty());
}

#[test]
fn fill_colors_keep_their_channels() {
    let fill = Rgb { r: 0x12, g: 0x34, b: 0x56 };
    let list = vec![
        ClippedPrimitive {
            clip: visible(),
            primitive: Primitive::Rect {
                rect: PixelRect { x: 3, y: 6, w: 30, h: 60 },
                corner_radius: 4,
                fill,
            },
        },
        ClippedPrimitive {
            clip: visible(),
            primitive: Primitive::Circle { center: PixelPos { x: 9, y: 12 }, radius: 15, fill },
        },
    ];
    let color = DeviceColor(0x563412);
    assert_eq!(device_color(fill), color);
    assert_eq!(
        render_display_list(&list),
        vec![
            DrawCall::FillRect { rect: PixelRect { x: 3, y: 6, w: 30, h: 60 }, color },
            DrawCall::FillCircle { center: PixelPos { x: 9, y: 12 }, radius: 15, color },
        ]
    );
}

#[test]
fn text_uses_regular_font_left_bottom() {
    let rect = PixelRect { x: 1, y: 2, w: 300, h: 40 };
    let list = vec![
        ClippedPrimitive { clip: visible(), primitive: Primitive::Empty },
        ClippedPrimitive {
            clip: visible(),
            primitive: Primitive::Text { rect, text: String::from("Hello"), color: Rgb { r: 0, g: 0, b: 0 } },
        },
        ClippedPrimitive { clip: visible(), primitive: Primitive::Unsupported },
    ];
    assert_eq!(TEXT_BLOCK_ALIGN, 65);
    assert_eq!(
        render_display_list(&list),
        vec![DrawCall::TextBlock {
            rect,
            text: String::from("Hello"),
            font: FontRole::RegularText,
            color: DeviceColor(0),
            align: 65,
        }]
    );
}

#[test]
fn show_always_refreshes_fully_once() {
    let config = ScreenConfig::pocketbook();
    let plan = plan_event(&config, EventKind::Show, 5, 6);
    assert!(plan.full_refresh);
    assert!(plan.reset_panel);
    assert!(!plan.close_app);
    let batch = plan.frame_input.expect("a show drives a frame");
    assert!(batch.events.is_empty());
    assert_eq!(plan.status, STATUS_HANDLED);
}

#[test]
fn pointer_down_after_show_end_to_end() {
    let config = ScreenConfig::pocketbook();
    let show = plan_event(&config, EventKind::Show, 0, 0);
    assert!(show.full_refresh);
    let plan = plan_event(&config, EventKind::PointerDown, 300, 600);
    assert!(!plan.full_refresh);
    assert!(!plan.reset_panel);
    let batch = plan.frame_input.expect("a press drives a frame");
    assert_eq!(batch.pixels_per_point, 3);
    assert_eq!(batch.screen_width_px, 1404);
    assert_eq!(batch.screen_height_px, 1872);
    assert_eq!(batch.logical_width, 702);
    assert_eq!(batch.logical_height, 936);
    assert_eq!(batch.events.len(), 2);
    match (batch.events[0], batch.events[1]) {
        (
            InputEvent::Touch { phase: TouchPhase::Start, pos: a },
            InputEvent::PointerButton { pos: b, pressed: true },
        ) => {
            assert_eq!(points(a, batch.pixels_per_point), (100.0, 200.0));
            assert_eq!(points(b, batch.pixels_per_point), (100.0, 200.0));
        }
        _ => panic!("unexpected input events"),
    }
}

#[test]
fn key_press_only_closes() {
    let config = ScreenConfig::pocketbook();
    let plan = plan_event(&config, EventKind::KeyPress, 1, 2);
    assert!(plan.close_app);
    assert!(plan.frame_input.is_none());
    assert!(!plan.full_refresh);
    assert!(!plan.reset_panel);
}

#[test]
fn other_events_are_ignored() {
    let config = ScreenConfig::pocketbook();
    let plan = plan_event(&config, EventKind::Other, 1, 2);
    assert!(!plan.close_app && !plan.reset_panel && !plan.full_refresh);
    assert!(plan.frame_input.is_none());
    assert_eq!(plan.status, 0);
}

#[test]
fn partial_refresh_only_when_changed() {
    let rect = PixelRect { x: 30, y: 60, w: 90, h: 120 };
    assert_eq!(partial_refresh_region(true, rect), Some(rect));
    assert_eq!(partial_refresh_region(false, rect), None);
}

#[test]
fn repaint_flag_starts_raised_and_clears() {
    let flag = NeedRepaint::new();
    assert!(flag.fetch_and_clear());
    assert!(!flag.fetch_and_clear());
    flag.set_true();
    assert!(flag.fetch_and_clear());
    flag.request_repaint();
    assert!(flag.fetch_and_clear());
}

#[test]
fn device_color_packs_blue_high() {
    assert_eq!(device_color(Rgb { r: 255, g: 0, b: 0 }), DeviceColor(0x0000ff));
    assert_eq!(device_color(Rgb { r: 0, g: 0, b: 255 }), DeviceColor(0xff0000));
    assert_eq!(device_color(Rgb { r: 255, g: 255, b: 255 }), DeviceColor(0xffffff));
}

#[test]
fn scale_bounds_are_checked() {
    assert!(ScreenConfig::pocketbook().pixels_per_point_supported());
    let zero = ScreenConfig { width_px: 10, height_px: 10, pixels_per_point: 0 };
    assert!(!zero.pixels_per_point_supported());
    let large = ScreenConfig { width_px: 10, height_px: 10, pixels_per_point: 100 };
    assert!(!large.pixels_per_point_supported());
    let top = ScreenConfig { width_px: 10, height_px: 10, pixels_per_point: 99 };
    assert!(top.pixels_per_point_supported());
}
