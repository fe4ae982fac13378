use snip_rust::drawing::{draw_handle, fill_rect, set_px, stroke_rect};
use snip_rust::handles::{hit_test_handle, ResizeHandle};
use snip_rust::pixel::build_dim_cache;

#[test]
fn set_px_writes_only_in_bounds() {
    let mut frame = vec![0u32; 4 * 3];
    set_px(&mut frame, 4, 3, 1, 2, 0xAB);
    assert_eq!(frame[2 * 4 + 1], 0xAB);
    set_px(&mut frame, 4, 3, -1, 0, 0xCD);
    set_px(&mut frame, 4, 3, 4, 0, 0xCD);
    set_px(&mut frame, 4, 3, 0, 3, 0xCD);
    assert_eq!(frame.iter().filter(|&&p| p != 0).count(), 1);
}

#[test]
fn fill_rect_clips_to_frame() {
    let mut frame = vec![0u32; 5 * 5];
    fill_rect(&mut frame, 5, 5, 3, 3, 10, 10, 7);
    for y in 0..5usize {
        for x in 0..5usize {
            let expect = if x >= 3 && y >= 3 { 7 } else { 0 };
            assert_eq!(frame[y * 5 + x], expect);
        }
    }
}

#[test]
fn stroke_rect_draws_outline_only() {
    let mut frame = vec![0u32; 6 * 6];
    stroke_rect(&mut frame, 6, 6, 1, 1, 4, 4, 9);
    for y in 0..6usize {
        for x in 0..6usize {
            let inside = x >= 1 && x < 5 && y >= 1 && y < 5;
            let on_edge = inside && (x == 1 || x == 4 || y == 1 || y == 4);
            let expect = if on_edge { 9 } else { 0 };
            assert_eq!(frame[y * 6 + x], expect, "at ({x},{y})");
        }
    }
    // Degenerate rectangles draw nothing.
    let mut frame = vec![0u32; 6 * 6];
    stroke_rect(&mut frame, 6, 6, 1, 1, 1, 4, 9);
    assert!(frame.iter().all(|&p| p == 0));
}

#[test]
fn draw_handle_marks_square() {
    let mut frame = vec![0u32; 9 * 9];
    draw_handle(&mut frame, 9, 9, 4, 4, 3);
    for y in 0..9usize {
        for x in 0..9usize {
            let inside = x >= 1 && x <= 7 && y >= 1 && y <= 7;
            let expect = if inside { 0xFFFFFFFF } else { 0 };
            assert_eq!(frame[y * 9 + x], expect);
        }
    }
}

#[test]
fn handle_hit_testing_matches_anchors() {
    // Corners before edges, within a 5 pixel tolerance.
    assert_eq!(hit_test_handle(100, 100, 100, 100, 400, 300), Some(ResizeHandle::TopLeft));
    assert_eq!(hit_test_handle(503, 98, 100, 100, 400, 300), Some(ResizeHandle::TopRight));
    assert_eq!(hit_test_handle(300, 100, 100, 100, 400, 300), Some(ResizeHandle::Top));
    assert_eq!(hit_test_handle(100, 250, 100, 100, 400, 300), Some(ResizeHandle::Left));
    assert_eq!(hit_test_handle(499, 399, 100, 100, 400, 300), Some(ResizeHandle::BottomRight));
    assert_eq!(hit_test_handle(250, 250, 100, 100, 400, 300), None);
    assert_eq!(hit_test_handle(300, 110, 100, 100, 400, 300), None);
    // An empty selection has no handles.
    assert_eq!(hit_test_handle(0, 0, 0, 0, 0, 10), None);
}

#[test]
fn handle_hit_testing_mirrors_under_point_reflection() {
    // Reflecting the cursor through the selection's pixel center maps each
    // handle to its opposite; the selection (10, 10, 25, 25) has odd sides.
    let cases = [
        ((10, 10), ResizeHandle::TopLeft, ResizeHandle::BottomRight),
        ((22, 10), ResizeHandle::Top, ResizeHandle::Bottom),
        ((34, 22), ResizeHandle::Right, ResizeHandle::Left),
        ((34, 34), ResizeHandle::BottomRight, ResizeHandle::TopLeft),
    ];
    for ((cx, cy), there, back) in cases {
        assert_eq!(hit_test_handle(cx, cy, 10, 10, 25, 25), Some(there));
        let (rx, ry) = (2 * 10 + 25 - 1 - cx, 2 * 10 + 25 - 1 - cy);
        assert_eq!(hit_test_handle(rx, ry, 10, 10, 25, 25), Some(back));
    }
}

#[test]
fn dim_cache_is_deterministic_and_lossy() {
    let pixels: Vec<u8> = vec![100, 50, 200, 255, 0, 0, 0, 255];
    let a = build_dim_cache(&pixels);
    let b = build_dim_cache(&pixels);
    // Same bytes in, same cache words out.
    assert_eq!(a, b);
    // Exact dimming: channels drop to 60%, truncated; alpha is kept.
    // r=100 -> 60, g=50 -> 30, b=200 -> 120; packed little-endian BGRA.
    assert_eq!(a[0], 0xFF3C1E78);
    // Lossy: distinct pixels can dim to the same word.
    let dark0 = build_dim_cache(&vec![0, 0, 0, 255]);
    let dark1 = build_dim_cache(&vec![1, 1, 1, 255]);
    assert_eq!(dark0, dark1);
}
