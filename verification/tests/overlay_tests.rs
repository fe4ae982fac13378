use snip_rust::handles::ResizeHandle;
use snip_rust::overlay::{
    move_rect, resize_rect, CursorKind, OverlayAction, OverlayEvent, OverlayMode, OverlayState,
};

fn shown_overlay(w: u32, h: u32, fill: u8) -> OverlayState {
    let mut ov = OverlayState::new();
    let pixels = vec![fill; (w as usize) * (h as usize) * 4];
    assert!(ov.show_with_image(w, h, pixels, (0, 0)));
    ov
}

fn drag(ov: &mut OverlayState, from: (i32, i32), to: (i32, i32)) {
    ov.handle_event(&OverlayEvent::CursorMoved { x: from.0, y: from.1 });
    ov.handle_event(&OverlayEvent::LeftPressed);
    ov.handle_event(&OverlayEvent::CursorMoved { x: to.0, y: to.1 });
    ov.handle_event(&OverlayEvent::LeftReleased);
}

#[test]
fn drag_scenario_full_hd() {
    // Screen 1920x1080; drag from (100,100) to (500,400).
    let mut ov = shown_overlay(1920, 1080, 100);
    drag(&mut ov, (100, 100), (500, 400));
    assert_eq!(ov.selection, Some((100, 100, 400, 300)));
    assert!(matches!(ov.mode, OverlayMode::IdleWithSelection));
    let frame = ov.redraw().unwrap();
    // 680 pixels of space below the selection exceed bar height plus margin,
    // so the toolbar appears below the selection, centered under it.
    let bar = ov.toolbar_rect.unwrap();
    assert_eq!(bar, (166, 406, 268, 28));
    assert!(bar.1 >= 400);
    assert_eq!(frame.len(), 1920 * 1080);
}

#[test]
fn empty_drag_cancels_back_to_idle() {
    // Press and release at the identical point with no movement.
    let mut ov = shown_overlay(800, 600, 0);
    ov.handle_event(&OverlayEvent::CursorMoved { x: 10, y: 10 });
    ov.handle_event(&OverlayEvent::LeftPressed);
    ov.handle_event(&OverlayEvent::CursorMoved { x: 10, y: 10 });
    let act = ov.handle_event(&OverlayEvent::LeftReleased);
    assert!(ov.selection.is_none());
    assert!(matches!(ov.mode, OverlayMode::Idle));
    assert!(matches!(act, OverlayAction::Canceled));
}

#[test]
fn composited_frame_pixels() {
    let mut ov = shown_overlay(1920, 1080, 100);
    drag(&mut ov, (100, 100), (500, 400));
    let frame = ov.redraw().unwrap();
    let px = |x: usize, y: usize| frame[y * 1920 + x];
    // Outside the selection: dimmed source (channels 100 -> 60, alpha kept).
    assert_eq!(px(50, 50), 0x643C3C3C);
    // Inside the selection and away from chrome: undimmed source.
    assert_eq!(px(300, 250), 0x64646464);
    // Selection border and corner handle marker: white.
    assert_eq!(px(100, 100), 0xFFFFFFFF);
    assert_eq!(px(200, 100), 0xFFFFFFFF);
}

#[test]
fn escape_hides_and_cancels() {
    let mut ov = shown_overlay(800, 600, 0);
    let act = ov.handle_event(&OverlayEvent::EscapePressed);
    assert!(matches!(act, OverlayAction::Canceled));
    assert!(!ov.visible);
    assert!(ov.screenshot.is_none());
}

#[test]
fn right_click_idle_cancels_overlay() {
    let mut ov = shown_overlay(800, 600, 0);
    let act = ov.handle_event(&OverlayEvent::RightPressed);
    assert!(matches!(act, OverlayAction::Canceled));
    assert!(!ov.visible);
}

#[test]
fn right_click_with_selection_clears_it() {
    let mut ov = shown_overlay(800, 600, 0);
    drag(&mut ov, (10, 10), (60, 60));
    let act = ov.handle_event(&OverlayEvent::RightPressed);
    assert!(matches!(act, OverlayAction::Nothing));
    assert!(ov.selection.is_none());
    assert!(matches!(ov.mode, OverlayMode::Idle));
    assert_eq!(ov.cursor, CursorKind::Crosshair);
    assert!(ov.visible);
}

#[test]
fn move_gesture_translates_and_clamps() {
    let mut ov = shown_overlay(800, 600, 0);
    drag(&mut ov, (100, 100), (200, 200));
    assert_eq!(ov.selection, Some((100, 100, 100, 100)));
    // Press inside the body, drag far past the top-left corner.
    ov.handle_event(&OverlayEvent::CursorMoved { x: 150, y: 150 });
    ov.handle_event(&OverlayEvent::LeftPressed);
    assert!(matches!(ov.mode, OverlayMode::MovingSelection { .. }));
    ov.handle_event(&OverlayEvent::CursorMoved { x: -500, y: -500 });
    assert_eq!(ov.selection, Some((0, 0, 100, 100)));
    ov.handle_event(&OverlayEvent::LeftReleased);
    assert!(matches!(ov.mode, OverlayMode::IdleWithSelection));
}

#[test]
fn resize_gesture_from_corner_handle() {
    let mut ov = shown_overlay(800, 600, 0);
    drag(&mut ov, (100, 100), (200, 200));
    // Press exactly on the bottom-right handle anchor.
    ov.handle_event(&OverlayEvent::CursorMoved { x: 199, y: 199 });
    ov.handle_event(&OverlayEvent::LeftPressed);
    assert!(matches!(
        ov.mode,
        OverlayMode::Resizing { handle: ResizeHandle::BottomRight }
    ));
    ov.handle_event(&OverlayEvent::CursorMoved { x: 400, y: 300 });
    assert_eq!(ov.selection, Some((100, 100, 301, 201)));
    ov.handle_event(&OverlayEvent::LeftReleased);
    assert!(matches!(ov.mode, OverlayMode::IdleWithSelection));
}

#[test]
fn resize_never_collapses_below_minimum() {
    // Dragging the right edge far left of the origin leaves the minimum side.
    let r = resize_rect(100, 100, 50, 50, ResizeHandle::Right, 10, 10, 800, 600);
    assert_eq!(r, (100, 100, 5, 50));
    let r = resize_rect(100, 100, 50, 50, ResizeHandle::Left, 700, 700, 800, 600);
    assert_eq!(r, (146, 100, 4, 50));
    // And a drag far outside the frame clamps to the frame bounds.
    let r = resize_rect(100, 100, 50, 50, ResizeHandle::BottomRight, 2000, 2000, 800, 600);
    assert_eq!(r, (100, 100, 700, 500));
    assert!(r.2 >= 4 && r.3 >= 4);
    assert!(r.0 + r.2 <= 800 && r.1 + r.3 <= 600);
}

#[test]
fn move_rect_clamps_to_frame() {
    let r = move_rect(100, 100, 50, 50, 10, 10, 5000, 5000, 800, 600);
    assert_eq!(r, (750, 550, 50, 50));
}

#[test]
fn pin_button_emits_selection_and_position() {
    let mut ov = shown_overlay(1920, 1080, 7);
    drag(&mut ov, (100, 100), (500, 400));
    ov.redraw();
    assert!(ov.toolbar_rect.is_some());
    // The pin button is the second slot: bar x 166, slots from 172, 52 apart.
    ov.handle_event(&OverlayEvent::CursorMoved { x: 230, y: 415 });
    ov.handle_event(&OverlayEvent::LeftPressed);
    let act = ov.handle_event(&OverlayEvent::LeftReleased);
    match act {
        OverlayAction::PasteSelection { png, width, height, screen_x, screen_y } => {
            assert_eq!((width, height), (400, 300));
            assert_eq!((screen_x, screen_y), (100, 100));
            let (dw, dh, _) = snip_rust::codec::decode_image(&png).unwrap();
            assert_eq!((dw, dh), (400, 300));
        }
        _ => panic!("expected a pinned selection"),
    }
    assert!(!ov.visible);
}

#[test]
fn save_button_leaves_png_bytes() {
    let mut ov = shown_overlay(1920, 1080, 7);
    drag(&mut ov, (100, 100), (500, 400));
    ov.redraw();
    // The save button is the third slot, starting at x 276.
    ov.handle_event(&OverlayEvent::CursorMoved { x: 280, y: 415 });
    ov.handle_event(&OverlayEvent::LeftPressed);
    let act = ov.handle_event(&OverlayEvent::LeftReleased);
    assert!(matches!(act, OverlayAction::Nothing));
    let bytes = ov.take_pending_save().unwrap();
    assert!(bytes.starts_with(&[137, 80, 78, 71, 13, 10, 26, 10]));
    // Taking the bytes clears them; the overlay stays up after a save.
    assert!(ov.pending_save.is_none());
    assert!(ov.visible);
}

#[test]
fn copy_button_is_dispatchable_noop() {
    let mut ov = shown_overlay(1920, 1080, 7);
    drag(&mut ov, (100, 100), (500, 400));
    ov.redraw();
    // The copy button is the fourth slot, starting at x 328.
    ov.handle_event(&OverlayEvent::CursorMoved { x: 330, y: 415 });
    ov.handle_event(&OverlayEvent::LeftPressed);
    let act = ov.handle_event(&OverlayEvent::LeftReleased);
    assert!(matches!(act, OverlayAction::Nothing));
    assert!(ov.visible);
    assert_eq!(ov.selection, Some((100, 100, 400, 300)));
}

#[test]
fn annotate_button_switches_mode() {
    let mut ov = shown_overlay(1920, 1080, 7);
    drag(&mut ov, (100, 100), (500, 400));
    ov.redraw();
    // The annotate button is the fifth slot, starting at x 380.
    ov.handle_event(&OverlayEvent::CursorMoved { x: 390, y: 415 });
    ov.handle_event(&OverlayEvent::LeftPressed);
    let act = ov.handle_event(&OverlayEvent::LeftReleased);
    assert!(matches!(act, OverlayAction::Nothing));
    assert!(matches!(ov.mode, OverlayMode::Annotating));
}

#[test]
fn exit_button_cancels() {
    let mut ov = shown_overlay(1920, 1080, 7);
    drag(&mut ov, (100, 100), (500, 400));
    ov.redraw();
    // The exit button is the first slot, starting at x 172.
    ov.handle_event(&OverlayEvent::CursorMoved { x: 180, y: 415 });
    ov.handle_event(&OverlayEvent::LeftPressed);
    let act = ov.handle_event(&OverlayEvent::LeftReleased);
    assert!(matches!(act, OverlayAction::Canceled));
    assert!(!ov.visible);
}

#[test]
fn hover_sets_cursor_shapes() {
    let mut ov = shown_overlay(1920, 1080, 7);
    drag(&mut ov, (100, 100), (500, 400));
    ov.redraw();
    // Over a toolbar button: pointer.
    ov.handle_event(&OverlayEvent::CursorMoved { x: 180, y: 415 });
    assert_eq!(ov.cursor, CursorKind::Pointer);
    assert_eq!(ov.toolbar_hover, Some(0));
    // Over the top edge handle: vertical resize.
    ov.handle_event(&OverlayEvent::CursorMoved { x: 300, y: 100 });
    assert_eq!(ov.cursor, CursorKind::NsResize);
    // Inside the body: move.
    ov.handle_event(&OverlayEvent::CursorMoved { x: 300, y: 250 });
    assert_eq!(ov.cursor, CursorKind::Move);
    // Far outside: arrow.
    ov.handle_event(&OverlayEvent::CursorMoved { x: 1800, y: 1000 });
    assert_eq!(ov.cursor, CursorKind::Arrow);
}

#[test]
fn hidden_overlay_ignores_events() {
    let mut ov = OverlayState::new();
    let act = ov.handle_event(&OverlayEvent::LeftPressed);
    assert!(matches!(act, OverlayAction::Nothing));
    assert!(ov.redraw().is_none());
}

#[test]
fn show_rejects_wrong_byte_count() {
    let mut ov = OverlayState::new();
    assert!(!ov.show_with_image(10, 10, vec![0u8; 9], (0, 0)));
    assert!(!ov.visible);
    assert!(!ov.show_with_image(0, 10, Vec::new(), (0, 0)));
}
