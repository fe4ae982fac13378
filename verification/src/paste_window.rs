//! Pinned snapshot windows: a committed selection decoded back into pixels
//! and framed by two precomputed bordered composites (focused and
//! unfocused), with drag, context-menu and deferred-destruction state. The
//! windowing layer creates the actual window at the position this module
//! computes and presents the frame it selects.

use vstd::prelude::*;

use crate::codec::{decode_image, decoded_rgba};
use crate::geom::clamp_i64;
use crate::overlay::sat_i32;
use crate::pixel::{rgba_to_bgra_words, spec_bgra_words};

verus! {

/// Border width around a snapshot window: one dark outline pixel and one
/// focus-colored pixel on every side.
pub const SNAPSHOT_MARGIN: u32 = 2;

/// Color of the outermost one-pixel window outline.
pub const FRAME_OUTER: u32 = 0xFF202020;

/// Background color behind the image area.
pub const FRAME_FILL: u32 = 0xFF1E1E1E;

/// Inner border color while the window has focus.
pub const FRAME_INNER_FOCUS: u32 = 0xFF3DA5F4;

/// Inner border color while the window is unfocused.
pub const FRAME_INNER_UNFOCUS: u32 = 0xFF888888;

/// Why a snapshot window could not be created.
#[derive(Clone, Copy, Debug, PartialEq, Eq)]
pub enum PasteError {
    /// The byte stream could not be decoded into an image.
    UndecodableImage,
    /// The decoded image is empty or too large to frame.
    BadDimensions,
}

/// An input event for a snapshot window, with local cursor positions
/// truncated onto the integer pixel grid; a cursor move carries the global
/// cursor position when the platform can supply it.
#[derive(Clone, Copy, Debug, PartialEq, Eq)]
pub enum PasteEvent {
    CursorMoved { x: i32, y: i32, global: Option<(i32, i32)> },
    LeftPressed,
    LeftReleased,
    RightReleased,
    EscapePressed,
    Focused(bool),
}

/// What the controller should do after a snapshot window handled an event.
#[derive(Clone, Copy, Debug, PartialEq, Eq)]
pub enum PasteReply {
    /// Nothing to do.
    Nothing,
    /// Move the window's outer origin to this global position.
    Reposition(i32, i32),
    /// Open the window's context menu at the last cursor position.
    ShowMenu,
}

/// One composited frame pixel: the outermost ring is the dark outline, the
/// next ring (when the margin allows one) the inner border color, the
/// centered `w * h` window shows the image, and anything left is fill.
pub open spec fn spec_frame_pixel(
    img: Seq<u32>,
    w: int,
    h: int,
    m: int,
    inner: u32,
    px: int,
    py: int,
) -> u32 {
    let tw = w + 2 * m;
    let th = h + 2 * m;
    if py == 0 || py == th - 1 || px == 0 || px == tw - 1 {
        FRAME_OUTER
    } else if m >= 2 && (py == 1 || py == th - 2 || px == 1 || px == tw - 2) {
        inner
    } else if m <= px < m + w && m <= py < m + h {
        img[(py - m) * w + (px - m)]
    } else {
        FRAME_FILL
    }
}

/// A full composited frame: `(w + 2m) * (h + 2m)` pixels in row-major
/// order, each as [`spec_frame_pixel`] describes.
pub open spec fn spec_snapshot_frame(img: Seq<u32>, w: int, h: int, m: int, inner: u32) -> Seq<
    u32,
> {
    let tw = w + 2 * m;
    let th = h + 2 * m;
    Seq::new((tw * th) as nat, |i: int| spec_frame_pixel(img, w, h, m, inner, i % tw, i / tw))
}

/// Builds one bordered composite frame around the image.
fn build_frame(image: &Vec<u32>, w: u32, h: u32, margin: u32, inner: u32) -> (out: Vec<u32>)
    requires
        image@.len() == w * h,
        1 <= margin <= 16,
        w + 2 * margin <= u32::MAX,
        h + 2 * margin <= u32::MAX,
        (w + 2 * margin) * (h + 2 * margin) <= usize::MAX,
    ensures
        out@ == spec_snapshot_frame(image@, w as int, h as int, margin as int, inner),
        out@.len() == (w + 2 * margin) * (h + 2 * margin),
{
    let _image_len = image.len();
    let tw = (w as usize) + 2 * (margin as usize);
    let th = (h as usize) + 2 * (margin as usize);
    let total = tw * th;
    let mut out: Vec<u32> = Vec::new();
    let mut i: usize = 0;
    while i < total
        invariant
            image@.len() == w * h,
            image@.len() <= usize::MAX,
            1 <= margin <= 16,
            tw == w + 2 * margin,
            th == h + 2 * margin,
            total == tw * th,
            total <= usize::MAX,
            i <= total,
            out@.len() == i,
            forall|j: int|
                0 <= j < i ==> out@[j] == spec_snapshot_frame(
                    image@,
                    w as int,
                    h as int,
                    margin as int,
                    inner,
                )[j],
        decreases total - i,
    {
        let px = i % tw;
        let py = i / tw;
        proof {
            vstd::arithmetic::div_mod::lemma_fundamental_div_mod(i as int, tw as int);
            vstd::arithmetic::div_mod::lemma_mod_bound(i as int, tw as int);
            assert(py < th) by (nonlinear_arith)
                requires
                    i < total,
                    total == tw * th,
                    i == tw * (py as int) + px,
                    0 <= px < tw,
                    tw >= 1,
            ;
        }
        let v: u32 = if py == 0 || py == th - 1 || px == 0 || px == tw - 1 {
            FRAME_OUTER
        } else if margin >= 2 && (py == 1 || py == th - 2 || px == 1 || px == tw - 2) {
            inner
        } else if (margin as usize) <= px && px < (margin as usize) + (w as usize) && (
        margin as usize) <= py && py < (margin as usize) + (h as usize) {
            proof {
                assert((py - margin) * w + (px - margin) < w * h) by (nonlinear_arith)
                    requires
                        margin <= px < margin + w,
                        margin <= py < margin + h,
                ;
            }
            image[(py - margin as usize) * (w as usize) + (px - margin as usize)]
        } else {
            FRAME_FILL
        };
        out.push(v);
        i = i + 1;
    }
    proof {
        assert((w + 2 * margin) * (h + 2 * margin) == (tw as int) * (th as int));
        assert(out@ =~= spec_snapshot_frame(image@, w as int, h as int, margin as int, inner));
    }
    out
}

/// Whether a decoded image of size `w * h` can be framed as a snapshot
/// window on this machine.
pub open spec fn paste_dims_ok(w: nat, h: nat) -> bool {
    &&& 1 <= w
    &&& 1 <= h
    &&& w + 2 * SNAPSHOT_MARGIN <= u32::MAX
    &&& h + 2 * SNAPSHOT_MARGIN <= u32::MAX
    &&& (w + 2 * SNAPSHOT_MARGIN) * (h + 2 * SNAPSHOT_MARGIN) <= usize::MAX
    &&& 4 * w * h <= usize::MAX
}

/// Whether the next left press only dismisses a just-opened context menu.
#[derive(Clone, Copy, Debug, PartialEq, Eq)]
pub enum ClickGuard {
    Idle,
    SkipNext,
}

/// A pinned floating snapshot: its decoded pixels, the two precomputed
/// bordered composites, and its drag, focus and destruction state.
pub struct PasteWindow {
    /// Decoded image width in pixels.
    pub width: u32,
    /// Decoded image height in pixels.
    pub height: u32,
    /// Border width on each side.
    pub margin: u32,
    /// Window width including borders.
    pub total_w: u32,
    /// Window height including borders.
    pub total_h: u32,
    /// Whether a drag is in progress.
    pub dragging: bool,
    /// Cursor offset inside the window at press time.
    pub drag_offset: (i32, i32),
    /// Whether the window has input focus.
    pub focused: bool,
    /// Decoded image pixels as packed BGRA words.
    pub pixels: Vec<u32>,
    /// Composite frame shown while focused.
    pub frame_focus: Vec<u32>,
    /// Composite frame shown while unfocused.
    pub frame_unfocus: Vec<u32>,
    /// Last cursor position in window-local coordinates.
    pub last_local_cursor: (i32, i32),
    /// Guard that swallows the left press which dismisses a context menu.
    pub click_guard: ClickGuard,
    /// Set by the escape key; the controller destroys the window on its
    /// next loop pass.
    pub pending_destroy: bool,
}

impl PasteWindow {
    /// Well-formedness: the totals include the borders, the pixel buffer is
    /// one word per image pixel, and both composites are exactly the frames
    /// of the image.
    pub open spec fn wf(&self) -> bool {
        &&& 1 <= self.margin <= 16
        &&& 1 <= self.width
        &&& 1 <= self.height
        &&& self.total_w == self.width + 2 * self.margin
        &&& self.total_h == self.height + 2 * self.margin
        &&& self.pixels@.len() == self.width * self.height
        &&& self.frame_focus@ == spec_snapshot_frame(
            self.pixels@,
            self.width as int,
            self.height as int,
            self.margin as int,
            FRAME_INNER_FOCUS,
        )
        &&& self.frame_unfocus@ == spec_snapshot_frame(
            self.pixels@,
            self.width as int,
            self.height as int,
            self.margin as int,
            FRAME_INNER_UNFOCUS,
        )
    }

    /// Decodes an encoded image and builds a snapshot window for it,
    /// initially focused and not dragging. The second component of the
    /// result is the window's outer origin: the desired position shifted up
    /// and left by the border width, so the image area lands exactly on the
    /// desired position.
    pub fn new_from_png(png_bytes: &Vec<u8>, desired_pos: Option<(i32, i32)>) -> (r: Result<
        (PasteWindow, Option<(i32, i32)>),
        PasteError,
    >)
        ensures
            ({
                match decoded_rgba(png_bytes@) {
                    None => r matches Err(e) && e == PasteError::UndecodableImage,
                    Some((w, h, p)) => {
                        if paste_dims_ok(w, h) {
                            &&& r matches Ok((pw, pos))
                            &&& r->Ok_0.0.wf()
                            &&& r->Ok_0.0.width == w
                            &&& r->Ok_0.0.height == h
                            &&& r->Ok_0.0.margin == SNAPSHOT_MARGIN
                            &&& r->Ok_0.0.pixels@ == spec_bgra_words(p, (w * h) as nat)
                            &&& r->Ok_0.0.focused
                            &&& !r->Ok_0.0.dragging
                            &&& !r->Ok_0.0.pending_destroy
                            &&& r->Ok_0.1 == (match desired_pos {
                                Some((x, y)) => Some(
                                    (
                                        sat_i32(x - SNAPSHOT_MARGIN) as i32,
                                        sat_i32(y - SNAPSHOT_MARGIN) as i32,
                                    ),
                                ),
                                None => None::<(i32, i32)>,
                            })
                        } else {
                            r matches Err(e) && e == PasteError::BadDimensions
                        }
                    },
                }
            }),
    {
        let (w, h, rgba) = match decode_image(png_bytes) {
            Ok(d) => d,
            Err(_) => {
                return Err(PasteError::UndecodableImage);
            },
        };
        if w == 0 || h == 0 {
            return Err(PasteError::BadDimensions);
        }
        let m = SNAPSHOT_MARGIN;
        if w > u32::MAX - 2 * m || h > u32::MAX - 2 * m {
            return Err(PasteError::BadDimensions);
        }
        let tw = (w as u64) + 2 * (m as u64);
        let th = (h as u64) + 2 * (m as u64);
        proof {
            assert((w as int + 4) * (h as int + 4) == (tw as int) * (th as int)) by (nonlinear_arith)
                requires
                    tw == w + 4,
                    th == h + 4,
            ;
        }
        proof {
            assert((tw as int) * (th as int) <= 0x100_0000_0000_0000_0000 && (4 * (w as int)) * (
            h as int) <= 0x100_0000_0000_0000_0000) by (nonlinear_arith)
                requires
                    0 <= tw <= 0x2_0000_0000,
                    0 <= th <= 0x2_0000_0000,
                    0 <= w <= 0xFFFF_FFFF,
                    0 <= h <= 0xFFFF_FFFF,
            ;
        }
        if (tw as u128) * (th as u128) > usize::MAX as u128 {
            return Err(PasteError::BadDimensions);
        }
        if (4 * (w as u128)) * (h as u128) > usize::MAX as u128 {
            return Err(PasteError::BadDimensions);
        }
        proof {
            assert(4 * ((w as int) * (h as int)) == (4 * (w as int)) * (h as int) && 4 * (w as int)
                * (h as int) == (4 * (w as int)) * (h as int)) by (nonlinear_arith);
        }
        let n = (w as usize) * (h as usize);
        let pixels = rgba_to_bgra_words(&rgba, n);
        let frame_focus = build_frame(&pixels, w, h, m, FRAME_INNER_FOCUS);
        let frame_unfocus = build_frame(&pixels, w, h, m, FRAME_INNER_UNFOCUS);
        let pos = match desired_pos {
            Some((x, y)) => {
                let px = clamp_i64((x as i64) - (m as i64), i32::MIN as i64, i32::MAX as i64);
                let py = clamp_i64((y as i64) - (m as i64), i32::MIN as i64, i32::MAX as i64);
                Some((px as i32, py as i32))
            },
            None => None,
        };
        let pw = PasteWindow {
            width: w,
            height: h,
            margin: m,
            total_w: (tw as u32),
            total_h: (th as u32),
            dragging: false,
            drag_offset: (0, 0),
            focused: true,
            pixels,
            frame_focus,
            frame_unfocus,
            last_local_cursor: (0, 0),
            click_guard: ClickGuard::Idle,
            pending_destroy: false,
        };
        Ok((pw, pos))
    }

    /// Handles one input event. A drag follows the global cursor, keeping
    /// the offset recorded at press time; a right-button release asks the
    /// controller to open the context menu and arms a guard so the next
    /// left press only dismisses that menu; the escape key marks the
    /// window for deferred destruction.
    pub fn handle_event(&mut self, event: &PasteEvent) -> (reply: PasteReply)
        requires
            old(self).wf(),
        ensures
            final(self).wf(),
            match *event {
                PasteEvent::CursorMoved { x, y, global } => {
                    &&& *final(self) == (PasteWindow { last_local_cursor: (x, y), ..*old(self) })
                    &&& reply == (if old(self).dragging && global is Some {
                        PasteReply::Reposition(
                            sat_i32(global->Some_0.0 - old(self).drag_offset.0) as i32,
                            sat_i32(global->Some_0.1 - old(self).drag_offset.1) as i32,
                        )
                    } else {
                        PasteReply::Nothing
                    })
                },
                PasteEvent::LeftPressed => {
                    &&& reply is Nothing
                    &&& if old(self).click_guard is SkipNext {
                        *final(self) == (PasteWindow { click_guard: ClickGuard::Idle, ..*old(self) })
                    } else {
                        *final(self) == (PasteWindow {
                            dragging: true,
                            focused: true,
                            drag_offset: old(self).last_local_cursor,
                            ..*old(self)
                        })
                    }
                },
                PasteEvent::LeftReleased => reply is Nothing && *final(self) == (PasteWindow {
                    dragging: false,
                    ..*old(self)
                }),
                PasteEvent::RightReleased => reply is ShowMenu && *final(self) == (PasteWindow {
                    click_guard: ClickGuard::SkipNext,
                    ..*old(self)
                }),
                PasteEvent::EscapePressed => reply is Nothing && *final(self) == (PasteWindow {
                    pending_destroy: true,
                    ..*old(self)
                }),
                PasteEvent::Focused(f) => reply is Nothing && *final(self) == (PasteWindow {
                    focused: f,
                    ..*old(self)
                }),
            },
    {
        match *event {
            PasteEvent::CursorMoved { x, y, global } => {
                self.last_local_cursor = (x, y);
                if self.dragging {
                    if let Some((gx, gy)) = global {
                        let rx = clamp_i64(
                            (gx as i64) - (self.drag_offset.0 as i64),
                            i32::MIN as i64,
                            i32::MAX as i64,
                        );
                        let ry = clamp_i64(
                            (gy as i64) - (self.drag_offset.1 as i64),
                            i32::MIN as i64,
                            i32::MAX as i64,
                        );
                        return PasteReply::Reposition(rx as i32, ry as i32);
                    }
                }
                PasteReply::Nothing
            },
            PasteEvent::LeftPressed => {
                match self.click_guard {
                    ClickGuard::SkipNext => {
                        self.click_guard = ClickGuard::Idle;
                    },
                    ClickGuard::Idle => {
                        self.dragging = true;
                        self.focused = true;
                        self.drag_offset = self.last_local_cursor;
                    },
                }
                PasteReply::Nothing
            },
            PasteEvent::LeftReleased => {
                self.dragging = false;
                PasteReply::Nothing
            },
            PasteEvent::RightReleased => {
                self.click_guard = ClickGuard::SkipNext;
                PasteReply::ShowMenu
            },
            PasteEvent::EscapePressed => {
                self.pending_destroy = true;
                PasteReply::Nothing
            },
            PasteEvent::Focused(f) => {
                self.focused = f;
                PasteReply::Nothing
            },
        }
    }

    /// The composite to present this frame: the focused composite while the
    /// window has focus, the unfocused one otherwise.
    pub fn redraw(&self) -> (f: &Vec<u32>)
        requires
            self.wf(),
        ensures
            f@ == if self.focused {
                spec_snapshot_frame(
                    self.pixels@,
                    self.width as int,
                    self.height as int,
                    self.margin as int,
                    FRAME_INNER_FOCUS,
                )
            } else {
                spec_snapshot_frame(
                    self.pixels@,
                    self.width as int,
                    self.height as int,
                    self.margin as int,
                    FRAME_INNER_UNFOCUS,
                )
            },
            f@.len() == self.total_w * self.total_h,
    {
        proof {
            assert((self.width + 2 * self.margin) * (self.height + 2 * self.margin) == (
            self.total_w as int) * (self.total_h as int));
        }
        if self.focused {
            &self.frame_focus
        } else {
            &self.frame_unfocus
        }
    }

    /// Whether the escape key asked for this window to be destroyed on the
    /// controller's next loop pass.
    pub fn is_pending_destroy(&self) -> (r: bool)
        ensures
            r == self.pending_destroy,
    {
        self.pending_destroy
    }

    /// Completes destruction logically: the destroy flag is cleared so a
    /// sweep never reaps the same window twice. Releasing the platform
    /// window itself is the controller's job.
    pub fn destroy(&mut self)
        requires
            old(self).wf(),
        ensures
            final(self).wf(),
            *final(self) == (PasteWindow { pending_destroy: false, ..*old(self) }),
    {
        self.pending_destroy = false;
    }
}

/// Whether a window survives a destruction sweep.
pub open spec fn keeps_window(w: PasteWindow) -> bool {
    !w.pending_destroy
}

/// The controller's two-phase destruction sweep: every window whose
/// destroy flag is set is completed and dropped, every other window stays,
/// in order; nothing is mutated while the live collection is walked.
/// Returns how many windows were destroyed.
pub fn sweep_pending(windows: &mut Vec<PasteWindow>) -> (destroyed: usize)
    requires
        forall|i: int| 0 <= i < old(windows)@.len() ==> (#[trigger] old(windows)@[i]).wf(),
    ensures
        final(windows)@ == old(windows)@.filter(|w: PasteWindow| keeps_window(w)),
        destroyed == old(windows)@.len() - final(windows)@.len(),
{
    let ghost orig = windows@;
    let n = windows.len();
    let mut kept: Vec<PasteWindow> = Vec::new();
    let mut destroyed: usize = 0;
    let mut i: usize = 0;
    while i < n
        invariant
            n == orig.len(),
            i <= n,
            windows@ == orig.subrange(i as int, n as int),
            kept@ == orig.subrange(0, i as int).filter(|w: PasteWindow| keeps_window(w)),
            destroyed == i - kept@.len(),
            forall|j: int| 0 <= j < orig.len() ==> (#[trigger] orig[j]).wf(),
        decreases n - i,
    {
        let mut w = windows.remove(0);
        proof {
            assert(w == orig[i as int]);
            assert(windows@ =~= orig.subrange(i + 1, n as int));
            let prefix = orig.subrange(0, i as int);
            let next = orig.subrange(0, i + 1);
            assert(next =~= prefix + seq![orig[i as int]]);
            Seq::filter_distributes_over_add(
                prefix,
                seq![orig[i as int]],
                |x: PasteWindow| keeps_window(x),
            );
            assert(seq![orig[i as int]].drop_last() =~= Seq::<PasteWindow>::empty());
            reveal_with_fuel(Seq::filter, 2);
        }
        if w.is_pending_destroy() {
            w.destroy();
            destroyed = destroyed + 1;
        } else {
            kept.push(w);
        }
        proof {
            assert(kept@ =~= orig.subrange(0, i + 1).filter(|x: PasteWindow| keeps_window(x)));
        }
        i = i + 1;
    }
    proof {
        assert(orig.subrange(0, n as int) =~= orig);
    }
    *windows = kept;
    destroyed
}

/// The focused and unfocused composites differ only in the color of the
/// inner border ring: at every other position the two frames agree.
pub proof fn lemma_frames_differ_only_in_inner_ring(img: Seq<u32>, w: int, h: int, m: int)
    ensures
        forall|px: int, py: int|
            !(m >= 2 && (py == 1 || py == h + 2 * m - 2 || px == 1 || px == w + 2 * m - 2))
                ==> #[trigger] spec_frame_pixel(img, w, h, m, FRAME_INNER_FOCUS, px, py)
                == spec_frame_pixel(img, w, h, m, FRAME_INNER_UNFOCUS, px, py),
{
}

} // verus!
