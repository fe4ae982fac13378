use snip_rust::toolbar::{compute_toolbar_rect, draw_toolbar, hit_test_toolbar_button};

fn assert_inside_screen(bar: (i32, i32, i32, i32), sw: u32, sh: u32) {
    let (bx, by, bw, bh) = bar;
    assert!(bx >= 0 && by >= 0);
    assert!(bx + bw <= sw as i32);
    assert!(by + bh <= sh as i32);
}

#[test]
fn toolbar_below_when_space_allows() {
    let bar = compute_toolbar_rect(100, 100, 400, 300, 1920, 1080).unwrap();
    assert_eq!(bar, (166, 406, 268, 28));
    assert_inside_screen(bar, 1920, 1080);
}

#[test]
fn toolbar_above_when_no_space_below() {
    // The selection reaches the bottom edge, but there is room above.
    let bar = compute_toolbar_rect(100, 700, 400, 380, 1920, 1080).unwrap();
    assert_eq!(bar, (166, 700 - 6 - 28, 268, 28));
    assert_inside_screen(bar, 1920, 1080);
}

#[test]
fn toolbar_embeds_when_no_space_on_either_side() {
    // A selection covering the whole screen leaves no margin anywhere.
    let bar = compute_toolbar_rect(0, 0, 300, 100, 300, 100).unwrap();
    assert_eq!(bar, (300 - 268 - 4, 100 - 28 - 4, 268, 28));
    assert_inside_screen(bar, 300, 100);
}

#[test]
fn toolbar_clamped_inside_narrow_screens() {
    // A selection hugging the left edge still yields a bar at x = 0.
    let bar = compute_toolbar_rect(0, 0, 10, 10, 1920, 1080).unwrap();
    assert_eq!(bar.0, 0);
    assert_inside_screen(bar, 1920, 1080);
}

#[test]
fn toolbar_absent_without_selection_or_room() {
    assert!(compute_toolbar_rect(0, 0, 0, 10, 1920, 1080).is_none());
    assert!(compute_toolbar_rect(0, 0, 10, 0, 1920, 1080).is_none());
    // A screen smaller than the bar cannot contain it.
    assert!(compute_toolbar_rect(0, 0, 10, 10, 100, 100).is_none());
}

#[test]
fn toolbar_hit_test_finds_slots_and_gaps() {
    let (bx, by, bw, bh) = (166, 406, 268, 28);
    assert_eq!(hit_test_toolbar_button(180, 410, bx, by, bw, bh), Some(0));
    assert_eq!(hit_test_toolbar_button(230, 433, bx, by, bw, bh), Some(1));
    assert_eq!(hit_test_toolbar_button(400, 420, bx, by, bw, bh), Some(4));
    // Between two slots.
    assert_eq!(hit_test_toolbar_button(222, 410, bx, by, bw, bh), None);
    // Inside the bar but left of the first slot.
    assert_eq!(hit_test_toolbar_button(168, 410, bx, by, bw, bh), None);
    // Outside the bar.
    assert_eq!(hit_test_toolbar_button(180, 405, bx, by, bw, bh), None);
    assert_eq!(hit_test_toolbar_button(0, 0, bx, by, bw, bh), None);
}

#[test]
fn toolbar_drawing_stays_inside_bar() {
    let w: u32 = 400;
    let h: u32 = 100;
    let mut frame = vec![0x11111111u32; (w * h) as usize];
    draw_toolbar(&mut frame, w, h, 50, 30, 268, 28, None);
    let px = |x: usize, y: usize| frame[y * (w as usize) + x];
    // Outside the bar: untouched.
    assert_eq!(px(49, 30), 0x11111111);
    assert_eq!(px(50, 29), 0x11111111);
    assert_eq!(px(318, 58), 0x11111111);
    // The bar outline is white.
    assert_eq!(px(50, 30), 0xFFFFFFFF);
    assert_eq!(px(317, 57), 0xFFFFFFFF);
    // The gap between the first two buttons keeps the bar background.
    assert_eq!(px(50 + 6 + 48 + 2, 44), 0xFF202020);
}
