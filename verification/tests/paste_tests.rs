use snip_rust::codec::encode_png;
use snip_rust::paste_window::{
    PasteError, PasteEvent, PasteReply, PasteWindow, FRAME_INNER_FOCUS, FRAME_INNER_UNFOCUS,
    FRAME_OUTER,
};

fn sample_png(w: u32, h: u32, r: u8, g: u8, b: u8) -> Vec<u8> {
    let mut data = Vec::new();
    for _ in 0..(w * h) {
        data.extend_from_slice(&[r, g, b, 255]);
    }
    encode_png(&data, w, h).unwrap()
}

#[test]
fn pin_position_shifts_by_border_width() {
    // A selection pinned at capture-local (100, 100) on a monitor with
    // global origin (0, 0) opens its window at (100 - margin, 100 - margin).
    let png = sample_png(5, 4, 1, 2, 3);
    let (pw, pos) = PasteWindow::new_from_png(&png, Some((100, 100))).unwrap();
    assert_eq!(pw.margin, 2);
    assert_eq!(pos, Some((98, 98)));
    assert_eq!((pw.width, pw.height), (5, 4));
    assert_eq!((pw.total_w, pw.total_h), (9, 8));
}

#[test]
fn snapshot_frames_have_borders_and_image() {
    let png = sample_png(5, 4, 1, 2, 3);
    let (pw, _) = PasteWindow::new_from_png(&png, None).unwrap();
    let tw = pw.total_w as usize;
    // Outer ring, inner ring, then the image (RGBA 1,2,3 packs to BGRA).
    assert_eq!(pw.frame_focus[0], FRAME_OUTER);
    assert_eq!(pw.frame_focus[tw - 1], FRAME_OUTER);
    assert_eq!(pw.frame_focus[tw + 1], FRAME_INNER_FOCUS);
    assert_eq!(pw.frame_unfocus[tw + 1], FRAME_INNER_UNFOCUS);
    assert_eq!(pw.frame_focus[2 * tw + 2], 0xFF010203);
    // The two composites differ only in the inner border color.
    assert_eq!(pw.frame_focus.len(), pw.frame_unfocus.len());
    assert_eq!(pw.frame_focus[2 * tw + 2], pw.frame_unfocus[2 * tw + 2]);
}

#[test]
fn redraw_follows_focus() {
    let png = sample_png(3, 3, 9, 9, 9);
    let (mut pw, _) = PasteWindow::new_from_png(&png, None).unwrap();
    assert!(pw.focused);
    let focus_frame = pw.redraw().clone();
    pw.handle_event(&PasteEvent::Focused(false));
    let unfocus_frame = pw.redraw().clone();
    assert_eq!(focus_frame, pw.frame_focus);
    assert_eq!(unfocus_frame, pw.frame_unfocus);
    assert_ne!(focus_frame, unfocus_frame);
}

#[test]
fn drag_repositions_by_global_delta() {
    let png = sample_png(3, 3, 0, 0, 0);
    let (mut pw, _) = PasteWindow::new_from_png(&png, None).unwrap();
    pw.handle_event(&PasteEvent::CursorMoved { x: 2, y: 1, global: None });
    pw.handle_event(&PasteEvent::LeftPressed);
    assert!(pw.dragging);
    let reply = pw.handle_event(
        &PasteEvent::CursorMoved { x: 2, y: 1, global: Some((500, 400)) },
    );
    assert_eq!(reply, PasteReply::Reposition(498, 399));
    pw.handle_event(&PasteEvent::LeftReleased);
    assert!(!pw.dragging);
    // Without a drag in progress, cursor moves ask for nothing.
    let reply = pw.handle_event(
        &PasteEvent::CursorMoved { x: 2, y: 1, global: Some((900, 900)) },
    );
    assert_eq!(reply, PasteReply::Nothing);
}

#[test]
fn context_menu_guards_next_press() {
    let png = sample_png(3, 3, 0, 0, 0);
    let (mut pw, _) = PasteWindow::new_from_png(&png, None).unwrap();
    let reply = pw.handle_event(&PasteEvent::RightReleased);
    assert_eq!(reply, PasteReply::ShowMenu);
    // The press that dismisses the menu must not start a drag.
    pw.handle_event(&PasteEvent::LeftPressed);
    assert!(!pw.dragging);
    // The next press drags again.
    pw.handle_event(&PasteEvent::LeftPressed);
    assert!(pw.dragging);
}

#[test]
fn escape_defers_destruction() {
    let png = sample_png(3, 3, 0, 0, 0);
    let (mut pw, _) = PasteWindow::new_from_png(&png, None).unwrap();
    assert!(!pw.is_pending_destroy());
    pw.handle_event(&PasteEvent::EscapePressed);
    assert!(pw.is_pending_destroy());
    pw.destroy();
    assert!(!pw.is_pending_destroy());
}

#[test]
fn undecodable_bytes_are_rejected() {
    let junk = vec![0u8, 1, 2, 3];
    assert!(matches!(
        PasteWindow::new_from_png(&junk, None),
        Err(PasteError::UndecodableImage)
    ));
}

#[test]
fn sweep_destroys_flagged_windows_only() {
    let png = sample_png(3, 3, 0, 0, 0);
    let mut windows = Vec::new();
    for _ in 0..3 {
        let (pw, _) = PasteWindow::new_from_png(&png, None).unwrap();
        windows.push(pw);
    }
    windows[1].handle_event(&PasteEvent::EscapePressed);
    let destroyed = snip_rust::paste_window::sweep_pending(&mut windows);
    assert_eq!(destroyed, 1);
    assert_eq!(windows.len(), 2);
    assert!(windows.iter().all(|w| !w.is_pending_destroy()));
}
