//! Action-bar layout and drawing: a fixed five-button bar (exit, pin, save,
//! copy, annotate) placed below the selection when it fits, above it
//! otherwise, and embedded at the selection's bottom-right corner as a last
//! resort; the bar never exceeds the screen bounds.

use vstd::prelude::*;

use crate::drawing::{fill_rect, in_rect, on_outline, pixel, set_px, stroke_rect};
use crate::geom::{clamp_i64, clamp_int};

verus! {

/// Number of action buttons on the bar.
pub const TB_BUTTONS: usize = 5;

/// Width in pixels of one button slot.
pub const TB_BTN_W: i32 = 48;

/// Height in pixels of one button slot.
pub const TB_BTN_H: i32 = 26;

/// Horizontal padding between the bar edge and the first or last button.
pub const TB_BTN_PAD_X: i32 = 6;

/// Gap in pixels between adjacent buttons.
pub const TB_BTN_GAP: i32 = 4;

/// Vertical margin between the selection and the bar.
pub const TB_MARGIN: i32 = 6;

/// Inset from the selection's bottom-right corner for the embedded placement.
pub const INSET_PAD: i32 = 4;

/// Total bar width: padding, five buttons, and four gaps.
pub open spec fn tb_total_w() -> int {
    2 * TB_BTN_PAD_X + 5 * TB_BTN_W + 4 * TB_BTN_GAP
}

/// Total bar height: one button plus a one-pixel border row on each side.
pub open spec fn tb_total_h() -> int {
    TB_BTN_H + 2
}

/// The action-bar rectangle for selection `(sel_x, sel_y, sel_w, sel_h)` on
/// a `sw * sh` screen, or `None` for an empty selection or a screen too
/// small to hold the bar. Placement priority: below the selection, above it,
/// then embedded at its bottom-right corner; in every case the bar is
/// clamped inside the screen.
pub open spec fn spec_toolbar_rect(
    sel_x: int,
    sel_y: int,
    sel_w: int,
    sel_h: int,
    sw: int,
    sh: int,
) -> Option<(int, int, int, int)> {
    let tw = tb_total_w();
    let th = tb_total_h();
    if sel_w <= 0 || sel_h <= 0 || sw < tw || sh < th {
        None
    } else {
        let centered = clamp_int(sel_x + sel_w / 2 - tw / 2, 0, sw - tw);
        if sh - (sel_y + sel_h) >= th + TB_MARGIN {
            Some((centered, sel_y + sel_h + TB_MARGIN, tw, th))
        } else if sel_y >= th + TB_MARGIN {
            Some((centered, sel_y - TB_MARGIN - th, tw, th))
        } else {
            Some(
                (
                    clamp_int(sel_x + sel_w - tw - INSET_PAD, 0, sw - tw),
                    clamp_int(sel_y + sel_h - th - INSET_PAD, 0, sh - th),
                    tw,
                    th,
                ),
            )
        }
    }
}

/// Computes the action-bar rectangle for the given selection and screen
/// size. The result, when there is one, always lies fully inside the screen.
pub fn compute_toolbar_rect(
    sel_x: u32,
    sel_y: u32,
    sel_w: u32,
    sel_h: u32,
    screen_w: u32,
    screen_h: u32,
) -> (r: Option<(i32, i32, i32, i32)>)
    requires
        screen_w <= i32::MAX,
        screen_h <= i32::MAX,
        sel_x + sel_w <= screen_w,
        sel_y + sel_h <= screen_h,
    ensures
        ({
            let s = spec_toolbar_rect(
                sel_x as int,
                sel_y as int,
                sel_w as int,
                sel_h as int,
                screen_w as int,
                screen_h as int,
            );
            match r {
                Some((bx, by, bw, bh)) => s == Some((bx as int, by as int, bw as int, bh as int)),
                None => s is None,
            }
        }),
        r matches Some((bx, by, bw, bh)) ==> 0 <= bx && 0 <= by && bx + bw <= screen_w && by + bh
            <= screen_h && bw == tb_total_w() && bh == tb_total_h(),
{
    let tw: i64 = 2 * (TB_BTN_PAD_X as i64) + 5 * (TB_BTN_W as i64) + 4 * (TB_BTN_GAP as i64);
    let th: i64 = TB_BTN_H as i64 + 2;
    let sw = screen_w as i64;
    let sh = screen_h as i64;
    if sel_w == 0 || sel_h == 0 || sw < tw || sh < th {
        return None;
    }
    let sx = sel_x as i64;
    let sy = sel_y as i64;
    let sel_wl = sel_w as i64;
    let sel_hl = sel_h as i64;
    let centered = clamp_i64(sx + sel_wl / 2 - tw / 2, 0, sw - tw);
    let sel_bottom = sy + sel_hl;
    if sh - sel_bottom >= th + TB_MARGIN as i64 {
        let by = sel_bottom + TB_MARGIN as i64;
        return Some((centered as i32, by as i32, tw as i32, th as i32));
    }
    if sy >= th + TB_MARGIN as i64 {
        let by = sy - TB_MARGIN as i64 - th;
        return Some((centered as i32, by as i32, tw as i32, th as i32));
    }
    let bx = clamp_i64(sx + sel_wl - tw - INSET_PAD as i64, 0, sw - tw);
    let by = clamp_i64(sy + sel_hl - th - INSET_PAD as i64, 0, sh - th);
    Some((bx as i32, by as i32, tw as i32, th as i32))
}

/// The button index (left to right) whose slot contains `(px, py)` on the
/// bar `(bx, by, bw, bh)`, or `None` outside the bar or between slots.
pub open spec fn spec_hit_toolbar(px: int, py: int, bx: int, by: int, bw: int, bh: int) -> Option<
    int,
> {
    if !in_rect(px, py, bx, by, bw, bh) {
        None
    } else {
        let rel = px - (bx + TB_BTN_PAD_X);
        let slot = TB_BTN_W + TB_BTN_GAP;
        if rel >= 0 && rel / slot < 5 && rel % slot < TB_BTN_W {
            Some(rel / slot)
        } else {
            None
        }
    }
}

/// Hit-tests a cursor position against the five button slots of the bar,
/// laid out left to right from `bar_x + TB_BTN_PAD_X` with the layout's
/// fixed button width and gap.
pub fn hit_test_toolbar_button(
    px: i32,
    py: i32,
    bar_x: i32,
    bar_y: i32,
    bar_w: i32,
    bar_h: i32,
) -> (r: Option<usize>)
    ensures
        ({
            let s = spec_hit_toolbar(
                px as int,
                py as int,
                bar_x as int,
                bar_y as int,
                bar_w as int,
                bar_h as int,
            );
            match r {
                Some(idx) => s == Some(idx as int),
                None => s is None,
            }
        }),
{
    let pxl = px as i64;
    let pyl = py as i64;
    let bxl = bar_x as i64;
    let byl = bar_y as i64;
    if pxl < bxl || pyl < byl || pxl >= bxl + bar_w as i64 || pyl >= byl + bar_h as i64 {
        return None;
    }
    let rel = pxl - (bxl + TB_BTN_PAD_X as i64);
    let slot = (TB_BTN_W + TB_BTN_GAP) as i64;
    if rel < 0 {
        return None;
    }
    let idx = rel / slot;
    let off = rel % slot;
    proof {
        vstd::arithmetic::div_mod::lemma_fundamental_div_mod(rel as int, slot as int);
        vstd::arithmetic::div_mod::lemma_mod_bound(rel as int, slot as int);
    }
    if idx < 5 && off < TB_BTN_W as i64 {
        Some(idx as usize)
    } else {
        None
    }
}

/// The button rectangle of slot `idx` on a bar at `(x, y)` of height `h`.
pub open spec fn tb_button_rect(idx: int, x: int, y: int, h: int) -> (int, int, int, int) {
    (x + TB_BTN_PAD_X + idx * (TB_BTN_W + TB_BTN_GAP), y + h / 2 - TB_BTN_H / 2, TB_BTN_W as int, TB_BTN_H as int)
}

/// Whether `(px, py)` lies in one of the five button rectangles of the bar
/// at `(x, y)` of height `h`.
pub open spec fn tb_in_some_button(px: int, py: int, x: int, y: int, h: int) -> bool {
    exists|idx: int|
        0 <= idx < 5 && #[trigger] in_rect(
            px,
            py,
            tb_button_rect(idx, x, y, h).0,
            tb_button_rect(idx, x, y, h).1,
            tb_button_rect(idx, x, y, h).2,
            tb_button_rect(idx, x, y, h).3,
        )
}

/// Draws one button: a filled slot with a one-pixel border and a 12x12 icon
/// glyph centered in it; hovering swaps the palette. Pixels outside the
/// button rectangle are untouched.
fn draw_button(
    frame: &mut Vec<u32>,
    width: u32,
    height: u32,
    x: i32,
    y: i32,
    w: i32,
    h: i32,
    index: usize,
    base_icon_color: u32,
    hovered: bool,
)
    requires
        old(frame)@.len() == width * height,
        12 <= w,
        12 <= h,
        x + w <= i32::MAX,
        y + h <= i32::MAX,
    ensures
        final(frame)@.len() == old(frame)@.len(),
        forall|px: int, py: int|
            0 <= px < width && 0 <= py < height && !in_rect(
                px,
                py,
                x as int,
                y as int,
                w as int,
                h as int,
            ) ==> #[trigger] pixel(final(frame)@, width, px, py) == pixel(
                old(frame)@,
                width,
                px,
                py,
            ),
{
    let (bg, border, icon_color) = if hovered {
        (0xFF4A4A4Au32, 0xFFFFFFFFu32, 0xFFFFD24Du32)
    } else {
        (0xFF333333u32, 0xFFCCCCCCu32, base_icon_color)
    };
    fill_rect(frame, width, height, x, y, w, h, bg);
    stroke_rect(frame, width, height, x, y, w, h, border);
    let icon_w: i32 = 12;
    let icon_h: i32 = 12;
    let ix = x + (w - icon_w) / 2;
    let iy = y + (h - icon_h) / 2;
    if index == 0 {
        icon_exit(frame, width, height, ix, iy, icon_w, icon_h, icon_color);
    } else if index == 1 {
        icon_pin(frame, width, height, ix, iy, icon_w, icon_h, icon_color);
    } else if index == 2 {
        icon_save(frame, width, height, ix, iy, icon_w, icon_h, icon_color);
    } else if index == 3 {
        icon_copy(frame, width, height, ix, iy, icon_w, icon_h, icon_color);
    } else if index == 4 {
        icon_annotate(frame, width, height, ix, iy, icon_w, icon_h, icon_color);
    }
}

/// Draws the action bar: opaque background, white outline, and the five
/// buttons. Pixels outside the bar rectangle are untouched, the one-pixel
/// outline is white, and the interior between button slots keeps the bar's
/// background color.
pub fn draw_toolbar(
    frame: &mut Vec<u32>,
    width: u32,
    height: u32,
    x: i32,
    y: i32,
    w: i32,
    h: i32,
    hovered: Option<usize>,
)
    requires
        old(frame)@.len() == width * height,
        w == tb_total_w(),
        h == tb_total_h(),
        x + w <= i32::MAX,
        y + h <= i32::MAX,
    ensures
        final(frame)@.len() == old(frame)@.len(),
        forall|px: int, py: int|
            0 <= px < width && 0 <= py < height && !in_rect(
                px,
                py,
                x as int,
                y as int,
                w as int,
                h as int,
            ) ==> #[trigger] pixel(final(frame)@, width, px, py) == pixel(
                old(frame)@,
                width,
                px,
                py,
            ),
        forall|px: int, py: int|
            0 <= px < width && 0 <= py < height && on_outline(
                px,
                py,
                x as int,
                y as int,
                w as int,
                h as int,
            ) ==> #[trigger] pixel(final(frame)@, width, px, py) == 0xFFFFFFFFu32,
        forall|px: int, py: int|
            0 <= px < width && 0 <= py < height && in_rect(
                px,
                py,
                x as int,
                y as int,
                w as int,
                h as int,
            ) && !on_outline(px, py, x as int, y as int, w as int, h as int)
                && !tb_in_some_button(px, py, x as int, y as int, h as int) ==> #[trigger] pixel(
                final(frame)@,
                width,
                px,
                py,
            ) == 0xFF202020u32,
{
    let _frame_len = frame.len();
    fill_rect(frame, width, height, x, y, w, h, 0xFF202020);
    stroke_rect(frame, width, height, x, y, w, h, 0xFFFFFFFF);
    let ghost base = frame@;
    let mut cursor_x = x + TB_BTN_PAD_X;
    let center_y = y + h / 2;
    let by = center_y - TB_BTN_H / 2;
    let icon_color = 0xFFFFFFFFu32;
    let mut idx: usize = 0;
    while idx < TB_BUTTONS
        invariant
            frame@.len() == width * height,
            width * height <= usize::MAX,
            idx <= 5,
            cursor_x == x + TB_BTN_PAD_X + idx * (TB_BTN_W + TB_BTN_GAP),
            by == y + h / 2 - TB_BTN_H / 2,
            w == tb_total_w(),
            h == tb_total_h(),
            x + w <= i32::MAX,
            y + h <= i32::MAX,
            base.len() == width * height,
            forall|px: int, py: int|
                0 <= px < width && 0 <= py < height && !in_rect(
                    px,
                    py,
                    x as int,
                    y as int,
                    w as int,
                    h as int,
                ) ==> #[trigger] pixel(frame@, width, px, py) == pixel(base, width, px, py),
            forall|px: int, py: int|
                0 <= px < width && 0 <= py < height && in_rect(
                    px,
                    py,
                    x as int,
                    y as int,
                    w as int,
                    h as int,
                ) && !(exists|i: int|
                    0 <= i < idx && #[trigger] in_rect(
                        px,
                        py,
                        tb_button_rect(i, x as int, y as int, h as int).0,
                        tb_button_rect(i, x as int, y as int, h as int).1,
                        tb_button_rect(i, x as int, y as int, h as int).2,
                        tb_button_rect(i, x as int, y as int, h as int).3,
                    )) ==> #[trigger] pixel(frame@, width, px, py) == pixel(base, width, px, py),
        decreases TB_BUTTONS - idx,
    {
        let is_hovered = match hovered {
            Some(hv) => hv == idx,
            None => false,
        };
        proof {
            assert(idx < 5);
            assert(idx * (TB_BTN_W + TB_BTN_GAP) <= 4 * (TB_BTN_W + TB_BTN_GAP)) by (nonlinear_arith)
                requires idx <= 4;
            assert(cursor_x + TB_BTN_W <= i32::MAX);
        }
        let ghost pre = frame@;
        draw_button(
            frame,
            width,
            height,
            cursor_x,
            by,
            TB_BTN_W,
            TB_BTN_H,
            idx,
            icon_color,
            is_hovered,
        );
        proof {
            assert forall|px: int, py: int|
                0 <= px < width && 0 <= py < height && in_rect(
                    px,
                    py,
                    x as int,
                    y as int,
                    w as int,
                    h as int,
                ) && !(exists|i: int|
                    0 <= i < idx + 1 && #[trigger] in_rect(
                        px,
                        py,
                        tb_button_rect(i, x as int, y as int, h as int).0,
                        tb_button_rect(i, x as int, y as int, h as int).1,
                        tb_button_rect(i, x as int, y as int, h as int).2,
                        tb_button_rect(i, x as int, y as int, h as int).3,
                    )) implies #[trigger] pixel(frame@, width, px, py) == pixel(
                base,
                width,
                px,
                py,
            ) by {
                assert(!in_rect(
                    px,
                    py,
                    tb_button_rect(idx as int, x as int, y as int, h as int).0,
                    tb_button_rect(idx as int, x as int, y as int, h as int).1,
                    tb_button_rect(idx as int, x as int, y as int, h as int).2,
                    tb_button_rect(idx as int, x as int, y as int, h as int).3,
                ));
                assert(pixel(frame@, width, px, py) == pixel(pre, width, px, py));
            }
        }
        proof {
            assert((idx + 1) * (TB_BTN_W + TB_BTN_GAP) == idx * (TB_BTN_W + TB_BTN_GAP) + (
            TB_BTN_W + TB_BTN_GAP)) by (nonlinear_arith);
        }
        cursor_x = cursor_x + TB_BTN_W + TB_BTN_GAP;
        idx = idx + 1;
    }
    proof {
        assert forall|px: int, py: int|
            0 <= px < width && 0 <= py < height && on_outline(
                px,
                py,
                x as int,
                y as int,
                w as int,
                h as int,
            ) implies #[trigger] pixel(frame@, width, px, py) == 0xFFFFFFFFu32 by {
            assert forall|i: int| 0 <= i < 5 implies !in_rect(
                px,
                py,
                tb_button_rect(i, x as int, y as int, h as int).0,
                tb_button_rect(i, x as int, y as int, h as int).1,
                tb_button_rect(i, x as int, y as int, h as int).2,
                tb_button_rect(i, x as int, y as int, h as int).3,
            ) by {}
            assert(pixel(frame@, width, px, py) == pixel(base, width, px, py));
        }
    }
}

/// Draws the exit glyph: a 12x12 cross of two diagonals. Pixels outside the
/// 12x12 box at `(x, y)` are untouched.
fn icon_exit(frame: &mut Vec<u32>, width: u32, height: u32, x: i32, y: i32, w: i32, h: i32, color: u32)
    requires
        old(frame)@.len() == width * height,
        w == 12,
        h == 12,
        x + 12 <= i32::MAX,
        y + 12 <= i32::MAX,
    ensures
        final(frame)@.len() == old(frame)@.len(),
        forall|px: int, py: int|
            0 <= px < width && 0 <= py < height && !in_rect(px, py, x as int, y as int, 12, 12)
                ==> #[trigger] pixel(final(frame)@, width, px, py) == pixel(
                old(frame)@,
                width,
                px,
                py,
            ),
{
    let mut i: i32 = 0;
    while i < w
        invariant
            frame@.len() == width * height,
            0 <= i <= w,
            w == 12,
            h == 12,
            x + 12 <= i32::MAX,
            y + 12 <= i32::MAX,
            forall|px: int, py: int|
                0 <= px < width && 0 <= py < height && !in_rect(px, py, x as int, y as int, 12, 12)
                    ==> #[trigger] pixel(frame@, width, px, py) == pixel(
                    old(frame)@,
                    width,
                    px,
                    py,
                ),
        decreases w - i,
    {
        set_px(frame, width, height, x + i, y + i, color);
        set_px(frame, width, height, x + (w - 1 - i), y + i, color);
        i = i + 1;
    }
}

/// Draws the pin glyph: a head bar, a needle, and two flanks. Pixels outside
/// the 12x12 box at `(x, y)` are untouched.
fn icon_pin(frame: &mut Vec<u32>, width: u32, height: u32, x: i32, y: i32, w: i32, h: i32, color: u32)
    requires
        old(frame)@.len() == width * height,
        w == 12,
        h == 12,
        x + 12 <= i32::MAX,
        y + 12 <= i32::MAX,
    ensures
        final(frame)@.len() == old(frame)@.len(),
        forall|px: int, py: int|
            0 <= px < width && 0 <= py < height && !in_rect(px, py, x as int, y as int, 12, 12)
                ==> #[trigger] pixel(final(frame)@, width, px, py) == pixel(
                old(frame)@,
                width,
                px,
                py,
            ),
{
    let mut xx: i32 = x;
    while xx < x + w
        invariant
            frame@.len() == width * height,
            x <= xx <= x + 12,
            w == 12,
            h == 12,
            x + 12 <= i32::MAX,
            y + 12 <= i32::MAX,
            forall|px: int, py: int|
                0 <= px < width && 0 <= py < height && !in_rect(px, py, x as int, y as int, 12, 12)
                    ==> #[trigger] pixel(frame@, width, px, py) == pixel(
                    old(frame)@,
                    width,
                    px,
                    py,
                ),
        decreases x + w - xx,
    {
        set_px(frame, width, height, xx, y, color);
        xx = xx + 1;
    }
    let mut yy: i32 = y;
    while yy < y + h
        invariant
            frame@.len() == width * height,
            y <= yy <= y + 12,
            w == 12,
            h == 12,
            x + 12 <= i32::MAX,
            y + 12 <= i32::MAX,
            forall|px: int, py: int|
                0 <= px < width && 0 <= py < height && !in_rect(px, py, x as int, y as int, 12, 12)
                    ==> #[trigger] pixel(frame@, width, px, py) == pixel(
                    old(frame)@,
                    width,
                    px,
                    py,
                ),
        decreases y + h - yy,
    {
        set_px(frame, width, height, x + w / 2, yy, color);
        yy = yy + 1;
    }
    let mut i: i32 = 0;
    while i < w / 2
        invariant
            frame@.len() == width * height,
            0 <= i <= 6,
            w == 12,
            h == 12,
            x + 12 <= i32::MAX,
            y + 12 <= i32::MAX,
            forall|px: int, py: int|
                0 <= px < width && 0 <= py < height && !in_rect(px, py, x as int, y as int, 12, 12)
                    ==> #[trigger] pixel(frame@, width, px, py) == pixel(
                    old(frame)@,
                    width,
                    px,
                    py,
                ),
        decreases w / 2 - i,
    {
        set_px(frame, width, height, x + w / 2 - i, y + h - 1 - i, color);
        set_px(frame, width, height, x + w / 2 + i, y + h - 1 - i, color);
        i = i + 1;
    }
}

/// Draws the save glyph: an outer box, a label line, and two body bars.
/// Pixels outside the 12x12 box at `(x, y)` are untouched.
fn icon_save(frame: &mut Vec<u32>, width: u32, height: u32, x: i32, y: i32, w: i32, h: i32, color: u32)
    requires
        old(frame)@.len() == width * height,
        w == 12,
        h == 12,
        x + 12 <= i32::MAX,
        y + 12 <= i32::MAX,
    ensures
        final(frame)@.len() == old(frame)@.len(),
        forall|px: int, py: int|
            0 <= px < width && 0 <= py < height && !in_rect(px, py, x as int, y as int, 12, 12)
                ==> #[trigger] pixel(final(frame)@, width, px, py) == pixel(
                old(frame)@,
                width,
                px,
                py,
            ),
{
    let ghost orig = old(frame)@;
    stroke_rect(frame, width, height, x, y, w, h, color);
    let mut xx: i32 = x + 2;
    while xx < x + w - 2
        invariant
            frame@.len() == width * height,
            x + 2 <= xx <= x + 10,
            w == 12,
            h == 12,
            x + 12 <= i32::MAX,
            y + 12 <= i32::MAX,
            orig.len() == width * height,
            forall|px: int, py: int|
                0 <= px < width && 0 <= py < height && !in_rect(px, py, x as int, y as int, 12, 12)
                    ==> #[trigger] pixel(frame@, width, px, py) == pixel(orig, width, px, py),
        decreases x + w - 2 - xx,
    {
        set_px(frame, width, height, xx, y + 2, color);
        xx = xx + 1;
    }
    let mut yy: i32 = y + h / 2;
    while yy < y + h - 2
        invariant
            frame@.len() == width * height,
            y + 6 <= yy <= y + 10,
            w == 12,
            h == 12,
            x + 12 <= i32::MAX,
            y + 12 <= i32::MAX,
            orig.len() == width * height,
            forall|px: int, py: int|
                0 <= px < width && 0 <= py < height && !in_rect(px, py, x as int, y as int, 12, 12)
                    ==> #[trigger] pixel(frame@, width, px, py) == pixel(orig, width, px, py),
        decreases y + h - 2 - yy,
    {
        set_px(frame, width, height, x + 2, yy, color);
        set_px(frame, width, height, x + w - 3, yy, color);
        yy = yy + 1;
    }
}

/// Draws the copy glyph: two overlapping page outlines. Pixels outside the
/// 12x12 box at `(x, y)` are untouched.
fn icon_copy(frame: &mut Vec<u32>, width: u32, height: u32, x: i32, y: i32, w: i32, h: i32, color: u32)
    requires
        old(frame)@.len() == width * height,
        w == 12,
        h == 12,
        x + 12 <= i32::MAX,
        y + 12 <= i32::MAX,
    ensures
        final(frame)@.len() == old(frame)@.len(),
        forall|px: int, py: int|
            0 <= px < width && 0 <= py < height && !in_rect(px, py, x as int, y as int, 12, 12)
                ==> #[trigger] pixel(final(frame)@, width, px, py) == pixel(
                old(frame)@,
                width,
                px,
                py,
            ),
{
    stroke_rect(frame, width, height, x + 2, y + 2, w - 2, h - 2, color);
    stroke_rect(frame, width, height, x, y, w - 2, h - 2, color);
}

/// Draws the annotate glyph: a pen diagonal with a nib block. Pixels outside
/// the 12x12 box at `(x, y)` are untouched.
fn icon_annotate(frame: &mut Vec<u32>, width: u32, height: u32, x: i32, y: i32, w: i32, h: i32, color: u32)
    requires
        old(frame)@.len() == width * height,
        w == 12,
        h == 12,
        x + 12 <= i32::MAX,
        y + 12 <= i32::MAX,
    ensures
        final(frame)@.len() == old(frame)@.len(),
        forall|px: int, py: int|
            0 <= px < width && 0 <= py < height && !in_rect(px, py, x as int, y as int, 12, 12)
                ==> #[trigger] pixel(final(frame)@, width, px, py) == pixel(
                old(frame)@,
                width,
                px,
                py,
            ),
{
    let ghost orig = old(frame)@;
    let mut i: i32 = 0;
    while i < w
        invariant
            frame@.len() == width * height,
            0 <= i <= 12,
            w == 12,
            h == 12,
            x + 12 <= i32::MAX,
            y + 12 <= i32::MAX,
            orig.len() == width * height,
            forall|px: int, py: int|
                0 <= px < width && 0 <= py < height && !in_rect(px, py, x as int, y as int, 12, 12)
                    ==> #[trigger] pixel(frame@, width, px, py) == pixel(orig, width, px, py),
        decreases w - i,
    {
        set_px(frame, width, height, x + i, y + h - 1 - i, color);
        i = i + 1;
    }
    fill_rect(frame, width, height, x + 1, y + h - 4, 3, 3, color);
}

} // verus!
