//! Raster primitives over packed BGRA frame buffers: single pixels, filled
//! and stroked rectangles, and the square resize-handle markers.
//!
//! A frame is a row-major `Vec<u32>` of exactly `width * height` words.
//! Coordinates may lie outside the frame; every primitive clips to the
//! frame bounds and leaves all other pixels untouched.

use vstd::prelude::*;

verus! {

/// The word of `frame` at column `px`, row `py` of a `width`-wide frame.
pub open spec fn pixel(frame: Seq<u32>, width: u32, px: int, py: int) -> u32 {
    frame[py * width + px]
}

/// Whether `(px, py)` lies in the half-open rectangle at `(x, y)` of size
/// `w * h`.
pub open spec fn in_rect(px: int, py: int, x: int, y: int, w: int, h: int) -> bool {
    x <= px < x + w && y <= py < y + h
}

/// Row-major indices of distinct in-bounds coordinates are distinct.
proof fn lemma_pix_injective(width: int, x1: int, y1: int, x2: int, y2: int)
    requires
        0 <= x1 < width,
        0 <= x2 < width,
        (x1, y1) != (x2, y2),
    ensures
        y1 * width + x1 != y2 * width + x2,
{
    if y1 == y2 {
    } else {
        assert(y1 * width + x1 != y2 * width + x2) by (nonlinear_arith)
            requires
                0 <= x1 < width,
                0 <= x2 < width,
                y1 != y2,
        ;
    }
}

/// A row-major index of in-bounds coordinates lies inside the frame.
proof fn lemma_pix_in_frame(width: int, height: int, x: int, y: int)
    requires
        0 <= x < width,
        0 <= y < height,
    ensures
        0 <= y * width + x < width * height,
{
    assert(0 <= y * width + x < width * height) by (nonlinear_arith)
        requires
            0 <= x < width,
            0 <= y < height,
    ;
}

/// Writes `color` at `(x, y)` if that point lies inside the frame; out of
/// bounds coordinates are ignored.
pub fn set_px(frame: &mut Vec<u32>, width: u32, height: u32, x: i32, y: i32, color: u32)
    requires
        old(frame)@.len() == width * height,
    ensures
        final(frame)@.len() == old(frame)@.len(),
        forall|px: int, py: int|
            0 <= px < width && 0 <= py < height ==> #[trigger] pixel(final(frame)@, width, px, py) == (
            if px == x && py == y {
                color
            } else {
                pixel(old(frame)@, width, px, py)
            }),
{
    if x < 0 || y < 0 {
        return ;
    }
    let sw = width as i64;
    let sh = height as i64;
    if (x as i64) >= sw || (y as i64) >= sh {
        return ;
    }
    proof {
        lemma_pix_in_frame(width as int, height as int, x as int, y as int);
    }
    let _frame_len = frame.len();
    let idx = (y as usize) * (width as usize) + (x as usize);
    frame[idx] = color;
    proof {
        assert forall|px: int, py: int|
            0 <= px < width && 0 <= py < height implies #[trigger] pixel(frame@, width, px, py)
            == (if px == x && py == y {
            color
        } else {
            pixel(old(frame)@, width, px, py)
        }) by {
            lemma_pix_in_frame(width as int, height as int, px, py);
            if !(px == x && py == y) {
                lemma_pix_injective(width as int, px, py, x as int, y as int);
            }
        }
    }
}

/// Fills the rectangle at `(x, y)` of size `w * h` with `color`, clipped to
/// the frame; every pixel outside the rectangle keeps its old value.
pub fn fill_rect(
    frame: &mut Vec<u32>,
    width: u32,
    height: u32,
    x: i32,
    y: i32,
    w: i32,
    h: i32,
    color: u32,
)
    requires
        old(frame)@.len() == width * height,
    ensures
        final(frame)@.len() == old(frame)@.len(),
        forall|px: int, py: int|
            0 <= px < width && 0 <= py < height ==> #[trigger] pixel(final(frame)@, width, px, py) == (
            if in_rect(px, py, x as int, y as int, w as int, h as int) {
                color
            } else {
                pixel(old(frame)@, width, px, py)
            }),
{
    let _frame_len = frame.len();
    let yh: i64 = (y as i64) + (h as i64);
    let xw: i64 = (x as i64) + (w as i64);
    let sh = if (height as i64) < yh {
        height as i64
    } else {
        yh
    };
    let sw = if (width as i64) < xw {
        width as i64
    } else {
        xw
    };
    let y0: i64 = if y > 0 {
        y as i64
    } else {
        0
    };
    let mut yy: i64 = y0;
    while yy < sh
        invariant
            frame@.len() == width * height,
            width * height <= usize::MAX,
            y0 <= yy,
            sh <= height,
            sw <= width,
            y0 == if y > 0 {
                y as int
            } else {
                0
            },
            sh == if height < y + h {
                height as int
            } else {
                (y + h) as int
            },
            sw == if width < x + w {
                width as int
            } else {
                (x + w) as int
            },
            forall|px: int, py: int|
                0 <= px < width && 0 <= py < height ==> #[trigger] pixel(frame@, width, px, py) == (
                if in_rect(px, py, x as int, y as int, w as int, h as int) && py < yy {
                    color
                } else {
                    pixel(old(frame)@, width, px, py)
                }),
        decreases sh - yy,
    {
        let x0: i64 = if x > 0 {
            x as i64
        } else {
            0
        };
        let mut xx: i64 = x0;
        while xx < sw
            invariant
                frame@.len() == width * height,
                width * height <= usize::MAX,
                x0 <= xx,
                sw <= width,
                sh <= height,
                y0 <= yy < sh,
                x0 == if x > 0 {
                    x as int
                } else {
                    0
                },
                y0 == if y > 0 {
                    y as int
                } else {
                    0
                },
                sh == if height < y + h {
                    height as int
                } else {
                    (y + h) as int
                },
                sw == if width < x + w {
                    width as int
                } else {
                    (x + w) as int
                },
                forall|px: int, py: int|
                    0 <= px < width && 0 <= py < height ==> #[trigger] pixel(frame@, width, px, py)
                        == (if in_rect(px, py, x as int, y as int, w as int, h as int) && (py < yy
                        || (py == yy && px < xx)) {
                        color
                    } else {
                        pixel(old(frame)@, width, px, py)
                    }),
            decreases sw - xx,
        {
            proof {
                lemma_pix_in_frame(width as int, height as int, xx as int, yy as int);
            }
            proof {
                if 0 < yy {
                    vstd::arithmetic::mul::lemma_mul_inequality(yy as int, (height - 1) as int, width as int);
                }
            }
            let idx = (yy as usize) * (width as usize) + (xx as usize);
            let ghost pre = frame@;
            frame[idx] = color;
            proof {
                assert forall|px: int, py: int|
                    0 <= px < width && 0 <= py < height implies #[trigger] pixel(
                    frame@,
                    width,
                    px,
                    py,
                ) == (if in_rect(px, py, x as int, y as int, w as int, h as int) && (py < yy || (py
                    == yy && px < xx + 1)) {
                    color
                } else {
                    pixel(old(frame)@, width, px, py)
                }) by {
                    lemma_pix_in_frame(width as int, height as int, px, py);
                    assert(pixel(pre, width, px, py) == pre[py * width + px]);
                    if !(px == xx && py == yy) {
                        lemma_pix_injective(width as int, px, py, xx as int, yy as int);
                    }
                }
            }
            xx = xx + 1;
        }
        yy = yy + 1;
    }
}

/// Whether `(px, py)` lies on the one-pixel outline of the rectangle at
/// `(x, y)` of size `w * h`.
pub open spec fn on_outline(px: int, py: int, x: int, y: int, w: int, h: int) -> bool {
    in_rect(px, py, x, y, w, h) && (px == x || px == x + w - 1 || py == y || py == y + h - 1)
}

/// Draws the one-pixel outline of the rectangle at `(x, y)` of size `w * h`
/// in `color`, clipped to the frame. Rectangles one pixel wide or tall or
/// smaller are not drawn.
pub fn stroke_rect(
    frame: &mut Vec<u32>,
    width: u32,
    height: u32,
    x: i32,
    y: i32,
    w: i32,
    h: i32,
    color: u32,
)
    requires
        old(frame)@.len() == width * height,
        i32::MIN <= x + w <= i32::MAX,
        i32::MIN <= y + h <= i32::MAX,
    ensures
        final(frame)@.len() == old(frame)@.len(),
        forall|px: int, py: int|
            0 <= px < width && 0 <= py < height ==> #[trigger] pixel(final(frame)@, width, px, py) == (
            if w > 1 && h > 1 && on_outline(px, py, x as int, y as int, w as int, h as int) {
                color
            } else {
                pixel(old(frame)@, width, px, py)
            }),
{
    if w <= 1 || h <= 1 {
        return ;
    }
    let ghost s0 = frame@;
    fill_rect(frame, width, height, x, y, w, 1, color);
    let ghost s1 = frame@;
    fill_rect(frame, width, height, x, y + h - 1, w, 1, color);
    let ghost s2 = frame@;
    fill_rect(frame, width, height, x, y, 1, h, color);
    let ghost s3 = frame@;
    fill_rect(frame, width, height, x + w - 1, y, 1, h, color);
}

/// Draws a filled square marker of half-width `half` centered at `(cx, cy)`
/// in white, clipped to the frame.
pub fn draw_handle(frame: &mut Vec<u32>, width: u32, height: u32, cx: i32, cy: i32, half: i32)
    requires
        old(frame)@.len() == width * height,
        half >= 0,
        2 * half + 1 <= i32::MAX,
        i32::MIN <= cx - half,
        i32::MIN <= cy - half,
    ensures
        final(frame)@.len() == old(frame)@.len(),
        forall|px: int, py: int|
            0 <= px < width && 0 <= py < height ==> #[trigger] pixel(final(frame)@, width, px, py) == (
            if in_rect(px, py, cx - half, cy - half, 2 * half + 1, 2 * half + 1) {
                0xFFFFFFFFu32
            } else {
                pixel(old(frame)@, width, px, py)
            }),
{
    fill_rect(frame, width, height, cx - half, cy - half, 2 * half + 1, 2 * half + 1, 0xFFFFFFFF);
}

} // verus!
