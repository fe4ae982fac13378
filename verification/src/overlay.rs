//! The overlay selection engine: an interactive state machine over a
//! captured frame. Input events (already truncated to the integer pixel
//! grid) drive mode transitions, selection geometry, and the committed
//! action; the windowing layer only delivers events and presents the frames
//! that [`OverlayState::redraw`] composes.

use vstd::prelude::*;

use crate::capture::CapturedImage;
use crate::codec::{encode_png, png_of};
use crate::geom::{clamp_i64, clamp_int, max_i64, min_i64};
use crate::handles::{hit_test_handle, spec_hit_handle, ResizeHandle};
use crate::drawing::{fill_rect, in_rect, on_outline, pixel};
use crate::handles::handle_anchor;
use crate::pixel::{build_dim_cache, crop_rgba, spec_crop, spec_dim_cache, spec_dim_pixel, spec_pack_bgra};
use crate::toolbar::spec_toolbar_rect;

verus! {

/// Smallest selection side that a resize transition may leave, in pixels.
pub const MIN_SELECTION: u32 = 4;

/// What the overlay hands its controller after an event.
pub enum OverlayAction {
    /// Nothing to do.
    Nothing,
    /// The session was canceled; no output was produced.
    Canceled,
    /// A selection was pinned: its encoded bytes, pixel size, and the
    /// absolute screen position of its top-left corner.
    PasteSelection { png: Vec<u8>, width: u32, height: u32, screen_x: i32, screen_y: i32 },
}

/// The interaction mode, carrying exactly the data that mode needs.
#[derive(Clone, Copy, Debug, PartialEq, Eq)]
pub enum OverlayMode {
    /// No selection and no gesture in progress.
    Idle,
    /// Rubber-banding a new selection from the anchor point.
    Dragging { anchor_x: i32, anchor_y: i32 },
    /// Translating the selection; the offset is from cursor to selection
    /// origin at press time.
    MovingSelection { offset_x: i32, offset_y: i32 },
    /// Resizing the selection by one handle.
    Resizing { handle: ResizeHandle },
    /// A finished selection awaiting a command.
    IdleWithSelection,
    /// Annotation mode; a mode flag only, no drawing primitives.
    Annotating,
}

/// The cursor shape the overlay wants shown.
#[derive(Clone, Copy, Debug, PartialEq, Eq)]
pub enum CursorKind {
    Arrow,
    Crosshair,
    Move,
    Pointer,
    NsResize,
    EwResize,
    NwseResize,
    NeswResize,
}

/// An input event, with cursor positions truncated toward zero onto the
/// integer pixel grid.
#[derive(Clone, Copy, Debug, PartialEq, Eq)]
pub enum OverlayEvent {
    LeftPressed,
    LeftReleased,
    RightPressed,
    CursorMoved { x: i32, y: i32 },
    EscapePressed,
}

/// Whether a selection is present and covers at least one pixel.
pub open spec fn sel_nonempty(s: Option<(u32, u32, u32, u32)>) -> bool {
    match s {
        Some((x, y, w, h)) => w > 0 && h > 0,
        None => false,
    }
}

/// The normalized selection of a drag gesture: both the anchor and the
/// cursor are clamped onto the frame, the origin is their componentwise
/// minimum and the size their absolute difference.
pub open spec fn spec_drag_rect(ax: int, ay: int, cx: int, cy: int, iw: int, ih: int) -> (
    int,
    int,
    int,
    int,
) {
    let a0 = clamp_int(ax, 0, iw - 1);
    let c0 = clamp_int(cx, 0, iw - 1);
    let a1 = clamp_int(ay, 0, ih - 1);
    let c1 = clamp_int(cy, 0, ih - 1);
    let x = if a0 < c0 {
        a0
    } else {
        c0
    };
    let y = if a1 < c1 {
        a1
    } else {
        c1
    };
    let w = if a0 < c0 {
        c0 - a0
    } else {
        a0 - c0
    };
    let h = if a1 < c1 {
        c1 - a1
    } else {
        a1 - c1
    };
    (x, y, w, h)
}

/// The selection after a move gesture: the origin follows the cursor minus
/// the press offset, clamped so the selection stays inside the frame.
pub open spec fn spec_move_rect(
    x: int,
    y: int,
    w: int,
    h: int,
    ox: int,
    oy: int,
    cx: int,
    cy: int,
    iw: int,
    ih: int,
) -> (int, int, int, int) {
    (clamp_int(cx - ox, 0, iw - w), clamp_int(cy - oy, 0, ih - h), w, h)
}

/// A left or top edge moved to the cursor: the new edge is clamped so the
/// opposite edge keeps at least the minimum side, and the far edge stays.
pub open spec fn spec_resize_low(x: int, w: int, c: int) -> (int, int) {
    let hi = if x + w - MIN_SELECTION >= 0 {
        x + w - MIN_SELECTION
    } else {
        0
    };
    let n = clamp_int(c, 0, hi);
    (n, x + w - n)
}

/// A right or bottom edge moved to the cursor: the new far edge is clamped
/// into the frame and at least the minimum side from the origin.
pub open spec fn spec_resize_high(x: int, w: int, c: int, limit: int) -> (int, int) {
    let hi = limit - 1;
    let lo = if x + MIN_SELECTION < hi {
        x + MIN_SELECTION
    } else {
        hi
    };
    let n = clamp_int(c, lo, hi);
    (x, n - x + 1)
}

/// Final normalization of one axis: the side is clamped to at least the
/// minimum (or the whole frame where the frame is smaller) and at most the
/// frame, then the origin is clamped so the selection fits.
pub open spec fn spec_fit_axis(x: int, w: int, limit: int) -> (int, int) {
    let lo = if MIN_SELECTION as int <= limit {
        MIN_SELECTION as int
    } else {
        limit
    };
    let w2 = clamp_int(w, lo, limit);
    (clamp_int(x, 0, limit - w2), w2)
}

/// The selection after a resize gesture by `handle` with the cursor at
/// `(cx, cy)`, on a `iw * ih` frame.
pub open spec fn spec_resize_rect(
    x: int,
    y: int,
    w: int,
    h: int,
    handle: ResizeHandle,
    cx: int,
    cy: int,
    iw: int,
    ih: int,
) -> (int, int, int, int) {
    let hx = match handle {
        ResizeHandle::TopLeft | ResizeHandle::BottomLeft | ResizeHandle::Left => spec_resize_low(
            x,
            w,
            cx,
        ),
        ResizeHandle::TopRight | ResizeHandle::Right | ResizeHandle::BottomRight
            => spec_resize_high(x, w, cx, iw),
        ResizeHandle::Top | ResizeHandle::Bottom => (x, w),
    };
    let hy = match handle {
        ResizeHandle::TopLeft | ResizeHandle::Top | ResizeHandle::TopRight => spec_resize_low(
            y,
            h,
            cy,
        ),
        ResizeHandle::BottomLeft | ResizeHandle::Bottom | ResizeHandle::BottomRight
            => spec_resize_high(y, h, cy, ih),
        ResizeHandle::Left | ResizeHandle::Right => (y, h),
    };
    let fx = spec_fit_axis(hx.0, hx.1, iw);
    let fy = spec_fit_axis(hy.0, hy.1, ih);
    (fx.0, fy.0, fx.1, fy.1)
}

/// Resize transitions keep the selection well-formed: on any frame at least
/// the minimum side in each dimension, the result keeps both sides between
/// the minimum and the frame size and both edges inside `[0, frame]`.
pub proof fn lemma_resize_in_bounds(
    x: int,
    y: int,
    w: int,
    h: int,
    handle: ResizeHandle,
    cx: int,
    cy: int,
    iw: int,
    ih: int,
)
    requires
        iw >= MIN_SELECTION,
        ih >= MIN_SELECTION,
    ensures
        ({
            let r = spec_resize_rect(x, y, w, h, handle, cx, cy, iw, ih);
            &&& MIN_SELECTION <= r.2 <= iw
            &&& MIN_SELECTION <= r.3 <= ih
            &&& 0 <= r.0 && r.0 + r.2 <= iw
            &&& 0 <= r.1 && r.1 + r.3 <= ih
        }),
{
}

/// One axis of a drag gesture, computed on the clamped cursor positions.
fn drag_axis(a: i32, c: i32, limit: u32) -> (r: (u32, u32))
    requires
        1 <= limit <= i32::MAX,
    ensures
        ({
            let a0 = clamp_int(a as int, 0, limit - 1);
            let c0 = clamp_int(c as int, 0, limit - 1);
            &&& r.0 == if a0 < c0 {
                a0
            } else {
                c0
            }
            &&& r.1 == if a0 < c0 {
                c0 - a0
            } else {
                a0 - c0
            }
        }),
{
    let a0 = clamp_i64(a as i64, 0, limit as i64 - 1);
    let c0 = clamp_i64(c as i64, 0, limit as i64 - 1);
    if a0 < c0 {
        ((a0 as u32), ((c0 - a0) as u32))
    } else {
        ((c0 as u32), ((a0 - c0) as u32))
    }
}

/// The normalized selection rectangle of a drag from the anchor to the
/// cursor, clamped onto a `iw * ih` frame. An anchor-and-release at the
/// same point yields a zero-size (empty) selection.
pub fn drag_rect(ax: i32, ay: i32, cx: i32, cy: i32, iw: u32, ih: u32) -> (r: (u32, u32, u32, u32))
    requires
        1 <= iw <= i32::MAX,
        1 <= ih <= i32::MAX,
    ensures
        (r.0 as int, r.1 as int, r.2 as int, r.3 as int) == spec_drag_rect(
            ax as int,
            ay as int,
            cx as int,
            cy as int,
            iw as int,
            ih as int,
        ),
        r.0 + r.2 <= iw - 1,
        r.1 + r.3 <= ih - 1,
{
    let hx = drag_axis(ax, cx, iw);
    let hy = drag_axis(ay, cy, ih);
    (hx.0, hy.0, hx.1, hy.1)
}

/// The selection after a move gesture: translated to follow the cursor and
/// clamped inside the frame.
pub fn move_rect(
    x: u32,
    y: u32,
    w: u32,
    h: u32,
    ox: i32,
    oy: i32,
    cx: i32,
    cy: i32,
    iw: u32,
    ih: u32,
) -> (r: (u32, u32, u32, u32))
    requires
        1 <= iw <= i32::MAX,
        1 <= ih <= i32::MAX,
        w <= iw,
        h <= ih,
    ensures
        (r.0 as int, r.1 as int, r.2 as int, r.3 as int) == spec_move_rect(
            x as int,
            y as int,
            w as int,
            h as int,
            ox as int,
            oy as int,
            cx as int,
            cy as int,
            iw as int,
            ih as int,
        ),
        r.0 + r.2 <= iw,
        r.1 + r.3 <= ih,
{
    let nx = clamp_i64((cx as i64) - (ox as i64), 0, (iw as i64) - (w as i64));
    let ny = clamp_i64((cy as i64) - (oy as i64), 0, (ih as i64) - (h as i64));
    (nx as u32, ny as u32, w, h)
}

/// One low-edge resize step on one axis.
fn resize_low_axis(x: u32, w: u32, c: i32) -> (r: (i64, i64))
    requires
        x <= i32::MAX,
        w <= i32::MAX,
    ensures
        (r.0 as int, r.1 as int) == spec_resize_low(x as int, w as int, c as int),
{
    let hi = max_i64((x as i64) + (w as i64) - (MIN_SELECTION as i64), 0);
    let n = clamp_i64(c as i64, 0, hi);
    (n, (x as i64) + (w as i64) - n)
}

/// One high-edge resize step on one axis.
fn resize_high_axis(x: u32, w: u32, c: i32, limit: u32) -> (r: (i64, i64))
    requires
        x <= i32::MAX,
        w <= i32::MAX,
        1 <= limit <= i32::MAX,
    ensures
        (r.0 as int, r.1 as int) == spec_resize_high(x as int, w as int, c as int, limit as int),
{
    let hi = (limit as i64) - 1;
    let lo = min_i64((x as i64) + (MIN_SELECTION as i64), hi);
    let n = clamp_i64(c as i64, lo, hi);
    (x as i64, n - (x as i64) + 1)
}

/// Final normalization of one axis.
fn fit_axis(x: i64, w: i64, limit: u32) -> (r: (u32, u32))
    requires
        1 <= limit <= i32::MAX,
        -0x1_0000_0000 <= x <= 0x1_0000_0000,
        -0x1_0000_0000 <= w <= 0x1_0000_0001,
    ensures
        (r.0 as int, r.1 as int) == spec_fit_axis(x as int, w as int, limit as int),
        r.0 + r.1 <= limit,
{
    let lo = min_i64(MIN_SELECTION as i64, limit as i64);
    let w2 = clamp_i64(w, lo, limit as i64);
    let x2 = clamp_i64(x, 0, (limit as i64) - w2);
    (x2 as u32, w2 as u32)
}

/// The selection after a resize gesture by `handle` with the cursor at
/// `(cx, cy)`. On any frame of at least the minimum size in both
/// dimensions, the result keeps both sides at least the minimum and never
/// places an edge outside the frame.
pub fn resize_rect(
    x: u32,
    y: u32,
    w: u32,
    h: u32,
    handle: ResizeHandle,
    cx: i32,
    cy: i32,
    iw: u32,
    ih: u32,
) -> (r: (u32, u32, u32, u32))
    requires
        1 <= iw <= i32::MAX,
        1 <= ih <= i32::MAX,
        x + w <= iw,
        y + h <= ih,
    ensures
        (r.0 as int, r.1 as int, r.2 as int, r.3 as int) == spec_resize_rect(
            x as int,
            y as int,
            w as int,
            h as int,
            handle,
            cx as int,
            cy as int,
            iw as int,
            ih as int,
        ),
        r.0 + r.2 <= iw,
        r.1 + r.3 <= ih,
        r.2 >= 1,
        r.3 >= 1,
        iw >= MIN_SELECTION && ih >= MIN_SELECTION ==> r.2 >= MIN_SELECTION && r.3
            >= MIN_SELECTION,
{
    let hx: (i64, i64) = match handle {
        ResizeHandle::TopLeft | ResizeHandle::BottomLeft | ResizeHandle::Left => resize_low_axis(
            x,
            w,
            cx,
        ),
        ResizeHandle::TopRight | ResizeHandle::Right | ResizeHandle::BottomRight
            => resize_high_axis(x, w, cx, iw),
        ResizeHandle::Top | ResizeHandle::Bottom => (x as i64, w as i64),
    };
    let hy: (i64, i64) = match handle {
        ResizeHandle::TopLeft | ResizeHandle::Top | ResizeHandle::TopRight => resize_low_axis(
            y,
            h,
            cy,
        ),
        ResizeHandle::BottomLeft | ResizeHandle::Bottom | ResizeHandle::BottomRight
            => resize_high_axis(y, h, cy, ih),
        ResizeHandle::Left | ResizeHandle::Right => (y as i64, h as i64),
    };
    let fx = fit_axis(hx.0, hx.1, iw);
    let fy = fit_axis(hy.0, hy.1, ih);
    proof {
        if iw >= MIN_SELECTION && ih >= MIN_SELECTION {
            lemma_resize_in_bounds(
                x as int,
                y as int,
                w as int,
                h as int,
                handle,
                cx as int,
                cy as int,
                iw as int,
                ih as int,
            );
        }
    }
    (fx.0, fy.0, fx.1, fy.1)
}

/// Saturates an unbounded coordinate into the `i32` range.
pub open spec fn sat_i32(v: int) -> int {
    clamp_int(v, i32::MIN as int, i32::MAX as int)
}

/// The interactive overlay session: the captured frame, its dimmed
/// backdrop cache, the selection, and the interaction mode.
pub struct OverlayState {
    /// Whether the overlay is shown; a hidden overlay ignores events.
    pub visible: bool,
    /// The captured frame this session selects from.
    pub screenshot: Option<CapturedImage>,
    /// Dimmed backdrop, one packed BGRA word per capture pixel.
    pub dim_cache: Option<Vec<u32>>,
    /// Last cursor position on the integer pixel grid.
    pub last_cursor: (i32, i32),
    /// Current selection `(x, y, w, h)` in capture-local coordinates.
    pub selection: Option<(u32, u32, u32, u32)>,
    /// Current interaction mode.
    pub mode: OverlayMode,
    /// The action bar's rectangle as of the last composed frame.
    pub toolbar_rect: Option<(i32, i32, i32, i32)>,
    /// The hovered button index, if any.
    pub toolbar_hover: Option<usize>,
    /// The cursor shape the overlay wants shown.
    pub cursor: CursorKind,
    /// Encoded bytes waiting to be written to disk by the controller.
    pub pending_save: Option<Vec<u8>>,
}

impl OverlayState {
    /// Session invariant: a visible session has a well-formed frame and its
    /// dimmed cache; any selection lies inside the frame; every mode that
    /// presumes a selection has a non-empty one; a hidden session holds no
    /// frame, cache or selection and rests in `Idle`.
    pub open spec fn wf(&self) -> bool {
        &&& match self.screenshot {
            Some(img) => img.wf(),
            None => true,
        }
        &&& self.visible ==> self.screenshot is Some && self.dim_cache is Some
        &&& match self.dim_cache {
            Some(c) => self.screenshot matches Some(img) && c@ == spec_dim_cache(img.pixels@),
            None => true,
        }
        &&& match self.selection {
            Some((x, y, w, h)) => self.screenshot matches Some(img) && x + w <= img.width && y + h
                <= img.height,
            None => true,
        }
        &&& (self.mode is IdleWithSelection || self.mode is MovingSelection || self.mode
            is Resizing || self.mode is Annotating) ==> sel_nonempty(self.selection)
        &&& !self.visible ==> self.screenshot is None && self.selection is None && self.dim_cache
            is None && self.mode is Idle
    }

    /// Creates a hidden, empty session.
    pub fn new() -> (r: Self)
        ensures
            r.wf(),
            !r.visible,
            r.screenshot is None,
            r.selection is None,
            r.pending_save is None,
            r.mode is Idle,
    {
        OverlayState {
            visible: false,
            screenshot: None,
            dim_cache: None,
            last_cursor: (0, 0),
            selection: None,
            mode: OverlayMode::Idle,
            toolbar_rect: None,
            toolbar_hover: None,
            cursor: CursorKind::Arrow,
            pending_save: None,
        }
    }
}

/// How `post` relates to `pre` after the overlay hides: the frame, cache
/// and selection are released, the mode rests in `Idle`, and the toolbar
/// state is cleared; the cursor, its position, and any pending save bytes
/// are kept.
pub open spec fn spec_hidden_from(pre: OverlayState, post: OverlayState) -> bool {
    post == OverlayState {
        visible: false,
        screenshot: None,
        dim_cache: None,
        selection: None,
        mode: OverlayMode::Idle,
        toolbar_rect: None,
        toolbar_hover: None,
        ..pre
    }
}

/// The state after a left-button press: in `Idle` it anchors a new drag at
/// the cursor and clears the selection; in `IdleWithSelection` it starts a
/// resize on a handle hit, or a move on a press inside the selection body;
/// everywhere else it changes nothing.
pub open spec fn spec_after_left_press(pre: OverlayState) -> OverlayState {
    match pre.mode {
        OverlayMode::Idle => OverlayState {
            mode: OverlayMode::Dragging {
                anchor_x: pre.last_cursor.0,
                anchor_y: pre.last_cursor.1,
            },
            selection: None,
            ..pre
        },
        OverlayMode::IdleWithSelection => {
            match pre.selection {
                Some((x, y, w, h)) => {
                    let cx = pre.last_cursor.0;
                    let cy = pre.last_cursor.1;
                    match spec_hit_handle(
                        cx as int,
                        cy as int,
                        x as int,
                        y as int,
                        w as int,
                        h as int,
                    ) {
                        Some(hd) => OverlayState {
                            mode: OverlayMode::Resizing { handle: hd },
                            ..pre
                        },
                        None => {
                            if x <= cx && cx < x + w && y <= cy && cy < y + h {
                                OverlayState {
                                    mode: OverlayMode::MovingSelection {
                                        offset_x: (cx - x) as i32,
                                        offset_y: (cy - y) as i32,
                                    },
                                    ..pre
                                }
                            } else {
                                pre
                            }
                        },
                    }
                },
                None => pre,
            }
        },
        _ => pre,
    }
}

/// The cursor shape for a resize handle.
pub open spec fn spec_cursor_for_handle(hd: ResizeHandle) -> CursorKind {
    match hd {
        ResizeHandle::Top | ResizeHandle::Bottom => CursorKind::NsResize,
        ResizeHandle::Left | ResizeHandle::Right => CursorKind::EwResize,
        ResizeHandle::TopLeft | ResizeHandle::BottomRight => CursorKind::NwseResize,
        ResizeHandle::TopRight | ResizeHandle::BottomLeft => CursorKind::NeswResize,
    }
}

/// The state after the cursor moves to `(cx, cy)`: a drag re-derives the
/// selection from its anchor; a move translates it; a resize adjusts the
/// handle's edges; in `IdleWithSelection` the toolbar hover and the cursor
/// shape are re-derived (toolbar hover takes priority over handle and body
/// hits); other modes only record the position.
pub open spec fn spec_after_cursor(pre: OverlayState, cx: i32, cy: i32) -> OverlayState {
    let base = OverlayState { last_cursor: (cx, cy), ..pre };
    match pre.mode {
        OverlayMode::Dragging { anchor_x, anchor_y } => {
            match pre.screenshot {
                Some(img) => {
                    let d = spec_drag_rect(
                    anchor_x as int,
                    anchor_y as int,
                    cx as int,
                    cy as int,
                    img.width as int,
                    img.height as int,
                );
                    OverlayState {
                        selection: Some((d.0 as u32, d.1 as u32, d.2 as u32, d.3 as u32)),
                        ..base
                    }
                },
                None => base,
            }
        },
        OverlayMode::MovingSelection { offset_x, offset_y } => {
            match (pre.screenshot, pre.selection) {
                (Some(img), Some((x, y, w, h))) => {
                    let m = spec_move_rect(
                        x as int,
                        y as int,
                        w as int,
                        h as int,
                        offset_x as int,
                        offset_y as int,
                        cx as int,
                        cy as int,
                        img.width as int,
                        img.height as int,
                    );
                    OverlayState {
                        selection: Some((m.0 as u32, m.1 as u32, m.2 as u32, m.3 as u32)),
                        ..base
                    }
                },
                _ => base,
            }
        },
        OverlayMode::Resizing { handle } => {
            match (pre.screenshot, pre.selection) {
                (Some(img), Some((x, y, w, h))) => {
                    let z = spec_resize_rect(
                        x as int,
                        y as int,
                        w as int,
                        h as int,
                        handle,
                        cx as int,
                        cy as int,
                        img.width as int,
                        img.height as int,
                    );
                    OverlayState {
                        selection: Some((z.0 as u32, z.1 as u32, z.2 as u32, z.3 as u32)),
                        ..base
                    }
                },
                _ => base,
            }
        },
        OverlayMode::IdleWithSelection => {
            match pre.selection {
                Some((x, y, w, h)) => {
                    let hover = match pre.toolbar_rect {
                        Some((bx, by, bw, bh)) => crate::toolbar::spec_hit_toolbar(
                            cx as int,
                            cy as int,
                            bx as int,
                            by as int,
                            bw as int,
                            bh as int,
                        ),
                        None => None,
                    };
                    match hover {
                        Some(idx) => OverlayState {
                            toolbar_hover: Some(idx as usize),
                            cursor: CursorKind::Pointer,
                            ..base
                        },
                        None => {
                            let shape = match spec_hit_handle(
                                cx as int,
                                cy as int,
                                x as int,
                                y as int,
                                w as int,
                                h as int,
                            ) {
                                Some(hd) => spec_cursor_for_handle(hd),
                                None => {
                                    if x <= cx && cx < x + w && y <= cy && cy < y + h {
                                        CursorKind::Move
                                    } else {
                                        CursorKind::Arrow
                                    }
                                },
                            };
                            OverlayState { toolbar_hover: None, cursor: shape, ..base }
                        },
                    }
                },
                None => base,
            }
        },
        _ => base,
    }
}

/// How `post` and the action relate to `pre` after the pin command: the
/// selection is cropped and encoded; on success the overlay hides and the
/// action carries the bytes, the selection's pixel size, and its absolute
/// screen position (monitor origin plus capture-local origin, saturated to
/// the pixel grid); an encode failure is treated as a cancellation.
pub open spec fn pin_ok(pre: OverlayState, post: OverlayState, act: OverlayAction) -> bool {
    &&& pre.selection matches Some((x, y, w, h))
    &&& pre.screenshot matches Some(img)
    &&& {
        let sel = pre.selection->Some_0;
        let img = pre.screenshot->Some_0;
        let c = spec_crop(
            img.pixels@,
            img.width as int,
            sel.0 as int,
            sel.1 as int,
            sel.2 as int,
            sel.3 as int,
        );
        match png_of(c, sel.2 as nat, sel.3 as nat) {
            Some(b) => {
                &&& spec_hidden_from(pre, post)
                &&& act matches OverlayAction::PasteSelection {
                    png,
                    width,
                    height,
                    screen_x,
                    screen_y,
                }
                &&& act->PasteSelection_png@ == b
                &&& act->PasteSelection_width == sel.2
                &&& act->PasteSelection_height == sel.3
                &&& act->PasteSelection_screen_x == sat_i32(img.origin_x + sel.0)
                &&& act->PasteSelection_screen_y == sat_i32(img.origin_y + sel.1)
            },
            None => spec_hidden_from(pre, post) && act is Canceled,
        }
    }
}

/// All fields of `post` equal those of `pre` except the pending save bytes.
pub open spec fn same_except_pending(pre: OverlayState, post: OverlayState) -> bool {
    post == OverlayState { pending_save: post.pending_save, ..pre }
}

/// How `post` relates to `pre` after the save command: the selection is
/// cropped and encoded, and on success the bytes are left for the
/// controller to write out; an encode failure changes nothing. Either way
/// no action is emitted.
pub open spec fn save_ok(pre: OverlayState, post: OverlayState) -> bool {
    &&& pre.selection matches Some((x, y, w, h))
    &&& pre.screenshot matches Some(img)
    &&& {
        let sel = pre.selection->Some_0;
        let img = pre.screenshot->Some_0;
        let c = spec_crop(
            img.pixels@,
            img.width as int,
            sel.0 as int,
            sel.1 as int,
            sel.2 as int,
            sel.3 as int,
        );
        match png_of(c, sel.2 as nat, sel.3 as nat) {
            Some(b) => same_except_pending(pre, post) && (post.pending_save matches Some(v) && v@
                == b),
            None => post == pre,
        }
    }
}

/// How `post` and the action relate to `pre` after the button `btn` is
/// released: exit cancels and hides; pin crops, encodes and hides; save
/// leaves bytes for the controller; copy is dispatchable but currently does
/// nothing; annotate switches the mode flag.
pub open spec fn button_ok(
    pre: OverlayState,
    btn: int,
    post: OverlayState,
    act: OverlayAction,
) -> bool {
    if btn == 0 {
        spec_hidden_from(pre, post) && act is Canceled
    } else if btn == 1 {
        pin_ok(pre, post, act)
    } else if btn == 2 {
        save_ok(pre, post) && act is Nothing
    } else if btn == 4 {
        post == OverlayState { mode: OverlayMode::Annotating, ..pre } && act is Nothing
    } else {
        post == pre && act is Nothing
    }
}

/// How `post` and the action relate to `pre` after a left-button release.
/// A release over a toolbar button (only reachable in `IdleWithSelection`,
/// and taking priority over anything under the cursor) executes that
/// button. Otherwise a drag keeps a non-empty selection and settles into
/// `IdleWithSelection`, while an empty drag clears it, returns to `Idle`
/// and reports a cancellation; move and resize gestures settle into
/// `IdleWithSelection`.
pub open spec fn release_ok(pre: OverlayState, post: OverlayState, act: OverlayAction) -> bool {
    let toolbar_btn: Option<int> = if pre.mode is IdleWithSelection {
        match pre.toolbar_rect {
            Some((bx, by, bw, bh)) => crate::toolbar::spec_hit_toolbar(
                pre.last_cursor.0 as int,
                pre.last_cursor.1 as int,
                bx as int,
                by as int,
                bw as int,
                bh as int,
            ),
            None => None,
        }
    } else {
        None
    };
    if toolbar_btn is Some {
        button_ok(pre, toolbar_btn->Some_0, post, act)
    } else {
        match pre.mode {
            OverlayMode::Dragging { .. } => {
                if sel_nonempty(pre.selection) {
                    post == OverlayState { mode: OverlayMode::IdleWithSelection, ..pre } && act
                        is Nothing
                } else {
                    post == OverlayState { mode: OverlayMode::Idle, selection: None, ..pre } && act
                        is Canceled
                }
            },
            OverlayMode::MovingSelection { .. } => post == OverlayState {
                mode: OverlayMode::IdleWithSelection,
                ..pre
            } && act is Nothing,
            OverlayMode::Resizing { .. } => post == OverlayState {
                mode: OverlayMode::IdleWithSelection,
                ..pre
            } && act is Nothing,
            _ => post == pre && act is Nothing,
        }
    }
}

/// How `post` and the action relate to `pre` after a right-button press:
/// in `Idle` the overlay cancels and hides; in `IdleWithSelection` the
/// selection is cleared, the mode returns to `Idle` and the cursor becomes
/// a crosshair; gestures in progress ignore it.
pub open spec fn right_press_ok(pre: OverlayState, post: OverlayState, act: OverlayAction) -> bool {
    match pre.mode {
        OverlayMode::Idle => spec_hidden_from(pre, post) && act is Canceled,
        OverlayMode::IdleWithSelection => post == OverlayState {
            selection: None,
            mode: OverlayMode::Idle,
            cursor: CursorKind::Crosshair,
            ..pre
        } && act is Nothing,
        _ => post == pre && act is Nothing,
    }
}

/// The full transition relation of the overlay state machine: a hidden
/// overlay ignores every event; otherwise each event acts as its dedicated
/// relation describes, and the escape key always cancels and hides.
pub open spec fn step_ok(
    pre: OverlayState,
    e: OverlayEvent,
    post: OverlayState,
    act: OverlayAction,
) -> bool {
    if !pre.visible {
        post == pre && act is Nothing
    } else {
        match e {
            OverlayEvent::LeftPressed => post == spec_after_left_press(pre) && act is Nothing,
            OverlayEvent::LeftReleased => release_ok(pre, post, act),
            OverlayEvent::RightPressed => right_press_ok(pre, post, act),
            OverlayEvent::CursorMoved { x, y } => post == spec_after_cursor(pre, x, y) && act
                is Nothing,
            OverlayEvent::EscapePressed => spec_hidden_from(pre, post) && act is Canceled,
        }
    }
}

/// Resize transitions of the state machine never produce a selection with
/// a side below the minimum handle size or an edge outside the capture:
/// any cursor move handled in `Resizing` mode, on a capture at least the
/// minimum size in both dimensions, leaves a selection with both sides in
/// `[MIN_SELECTION, capture dimension]` and both edges inside the frame.
pub proof fn lemma_resize_step_in_bounds(
    pre: OverlayState,
    post: OverlayState,
    act: OverlayAction,
    cx: i32,
    cy: i32,
)
    requires
        pre.wf(),
        pre.visible,
        pre.mode is Resizing,
        step_ok(pre, OverlayEvent::CursorMoved { x: cx, y: cy }, post, act),
        pre.screenshot->Some_0.width >= MIN_SELECTION,
        pre.screenshot->Some_0.height >= MIN_SELECTION,
    ensures
        post.selection matches Some((x, y, w, h)) && MIN_SELECTION <= w
            && MIN_SELECTION <= h && x + w <= pre.screenshot->Some_0.width && y + h
            <= pre.screenshot->Some_0.height,
{
    let img = pre.screenshot->Some_0;
    let sel = pre.selection->Some_0;
    let handle = pre.mode->Resizing_handle;
    lemma_resize_in_bounds(
        sel.0 as int,
        sel.1 as int,
        sel.2 as int,
        sel.3 as int,
        handle,
        cx as int,
        cy as int,
        img.width as int,
        img.height as int,
    );
}

impl OverlayState {
    /// Shows the overlay over a freshly captured frame, rebuilding the
    /// dimmed cache and resetting the session; a frame with unusable
    /// dimensions or the wrong byte count is rejected and nothing changes.
    pub fn show_with_image(&mut self, w: u32, h: u32, pixels: Vec<u8>, origin: (i32, i32)) -> (ok:
        bool)
        requires
            old(self).wf(),
        ensures
            final(self).wf(),
            ok == (1 <= w <= i32::MAX && 1 <= h <= i32::MAX && pixels@.len() == 4 * w * h),
            ok ==> {
                &&& final(self).visible
                &&& final(self).screenshot matches Some(img) && img.width == w && img.height == h
                    && img.origin_x == origin.0 && img.origin_y == origin.1 && img.pixels@
                    == pixels@
                &&& final(self).dim_cache matches Some(c) && c@ == spec_dim_cache(pixels@)
                &&& final(self).selection is None
                &&& final(self).mode is Idle
                &&& final(self).toolbar_rect is None
                &&& final(self).toolbar_hover is None
                &&& final(self).cursor == CursorKind::Crosshair
                &&& final(self).last_cursor == old(self).last_cursor
                &&& final(self).pending_save == old(self).pending_save
            },
            !ok ==> *final(self) == *old(self),
    {
        if w == 0 || h == 0 || w > 0x7FFF_FFFF || h > 0x7FFF_FFFF {
            return false;
        }
        proof {
            assert(4 * (w as int) * (h as int) <= 0x10_0000_0000_0000_0000) by (nonlinear_arith)
                requires
                    w <= 0xFFFF_FFFF,
                    h <= 0xFFFF_FFFF,
            ;
        }
        let need: u128 = 4 * (w as u128) * (h as u128);
        if (pixels.len() as u128) != need {
            return false;
        }
        let cache = build_dim_cache(&pixels);
        self.screenshot = Some(
            CapturedImage {
                width: w,
                height: h,
                origin_x: origin.0,
                origin_y: origin.1,
                pixels,
            },
        );
        self.dim_cache = Some(cache);
        self.selection = None;
        self.visible = true;
        self.mode = OverlayMode::Idle;
        self.toolbar_rect = None;
        self.toolbar_hover = None;
        self.cursor = CursorKind::Crosshair;
        true
    }

    /// Hides the overlay and releases the frame, the cache and the
    /// selection; pending save bytes and the cursor state are kept.
    pub fn hide_overlay(&mut self)
        requires
            old(self).wf(),
        ensures
            final(self).wf(),
            spec_hidden_from(*old(self), *final(self)),
    {
        self.visible = false;
        self.screenshot = None;
        self.dim_cache = None;
        self.selection = None;
        self.mode = OverlayMode::Idle;
        self.toolbar_rect = None;
        self.toolbar_hover = None;
    }

    /// Crops the current selection out of the frame and encodes it as PNG.
    /// Yields `None` without a frame, with an empty selection, or when the
    /// codec rejects the crop; otherwise exactly the codec's bytes for this
    /// crop.
    pub fn take_selection_png(&self) -> (r: Option<Vec<u8>>)
        requires
            self.wf(),
        ensures
            (self.screenshot is None || !sel_nonempty(self.selection)) ==> r is None,
            (self.screenshot matches Some(img) && sel_nonempty(self.selection)) ==> ({
                let sel = self.selection->Some_0;
                let img = self.screenshot->Some_0;
                let c = spec_crop(
                    img.pixels@,
                    img.width as int,
                    sel.0 as int,
                    sel.1 as int,
                    sel.2 as int,
                    sel.3 as int,
                );
                &&& (r is Some) == (png_of(c, sel.2 as nat, sel.3 as nat) is Some)
                &&& r matches Some(b) ==> png_of(c, sel.2 as nat, sel.3 as nat) == Some(b@)
            }),
    {
        let img = match &self.screenshot {
            Some(img) => img,
            None => {
                return None;
            },
        };
        let (x, y, w, h) = match self.selection {
            Some(s) => s,
            None => {
                return None;
            },
        };
        if w == 0 || h == 0 {
            return None;
        }
        let cropped = crop_rgba(&img.pixels, img.width, img.height, x, y, w, h);
        match encode_png(&cropped, w, h) {
            Ok(b) => Some(b),
            Err(_) => None,
        }
    }
}

/// The cursor shape for a resize handle.
pub fn cursor_for_handle(hd: ResizeHandle) -> (r: CursorKind)
    ensures
        r == spec_cursor_for_handle(hd),
{
    match hd {
        ResizeHandle::Top | ResizeHandle::Bottom => CursorKind::NsResize,
        ResizeHandle::Left | ResizeHandle::Right => CursorKind::EwResize,
        ResizeHandle::TopLeft | ResizeHandle::BottomRight => CursorKind::NwseResize,
        ResizeHandle::TopRight | ResizeHandle::BottomLeft => CursorKind::NeswResize,
    }
}

impl OverlayState {
    /// Executes the released toolbar button and returns the resulting
    /// action; see [`button_ok`] for the exact effect of each button.
    fn execute_toolbar_button(&mut self, index: usize) -> (act: OverlayAction)
        requires
            old(self).wf(),
            old(self).visible,
            old(self).mode is IdleWithSelection,
        ensures
            final(self).wf(),
            button_ok(*old(self), index as int, *final(self), act),
    {
        if index == 0 {
            self.hide_overlay();
            return OverlayAction::Canceled;
        }
        if index == 1 {
            let png = self.take_selection_png();
            match png {
                Some(b) => {
                    let (x, y, w, h) = match self.selection {
                        Some(sel) => sel,
                        None => {
                            return OverlayAction::Nothing;
                        },
                    };
                    let (ox, oy) = match &self.screenshot {
                        Some(img) => (img.origin_x, img.origin_y),
                        None => {
                            return OverlayAction::Nothing;
                        },
                    };
                    let screen_x = clamp_i64(
                        (ox as i64) + (x as i64),
                        i32::MIN as i64,
                        i32::MAX as i64,
                    ) as i32;
                    let screen_y = clamp_i64(
                        (oy as i64) + (y as i64),
                        i32::MIN as i64,
                        i32::MAX as i64,
                    ) as i32;
                    self.hide_overlay();
                    return OverlayAction::PasteSelection {
                        png: b,
                        width: w,
                        height: h,
                        screen_x,
                        screen_y,
                    };
                },
                None => {
                    self.hide_overlay();
                    return OverlayAction::Canceled;
                },
            }
        }
        if index == 2 {
            match self.take_selection_png() {
                Some(b) => {
                    self.pending_save = Some(b);
                },
                None => {},
            }
            return OverlayAction::Nothing;
        }
        if index == 4 {
            self.mode = OverlayMode::Annotating;
            return OverlayAction::Nothing;
        }
        OverlayAction::Nothing
    }

    /// Feeds one input event to the state machine and returns the action it
    /// commits to; the exact transition relation is [`step_ok`]. A hidden
    /// overlay ignores every event.
    pub fn handle_event(&mut self, event: &OverlayEvent) -> (act: OverlayAction)
        requires
            old(self).wf(),
        ensures
            final(self).wf(),
            step_ok(*old(self), *event, *final(self), act),
    {
        if !self.visible {
            return OverlayAction::Nothing;
        }
        match *event {
            OverlayEvent::LeftPressed => {
                match self.mode {
                    OverlayMode::Idle => {
                        self.mode = OverlayMode::Dragging {
                            anchor_x: self.last_cursor.0,
                            anchor_y: self.last_cursor.1,
                        };
                        self.selection = None;
                    },
                    OverlayMode::IdleWithSelection => {
                        if let Some((x, y, w, h)) = self.selection {
                            let cx = self.last_cursor.0;
                            let cy = self.last_cursor.1;
                            match hit_test_handle(cx, cy, x, y, w, h) {
                                Some(hd) => {
                                    self.mode = OverlayMode::Resizing { handle: hd };
                                },
                                None => {
                                    let cxl = cx as i64;
                                    let cyl = cy as i64;
                                    if cxl >= x as i64 && cxl < x as i64 + w as i64 && cyl
                                        >= y as i64 && cyl < y as i64 + h as i64 {
                                        self.mode = OverlayMode::MovingSelection {
                                            offset_x: (cxl - x as i64) as i32,
                                            offset_y: (cyl - y as i64) as i32,
                                        };
                                    }
                                },
                            }
                        }
                    },
                    _ => {},
                }
                OverlayAction::Nothing
            },
            OverlayEvent::LeftReleased => {
                if let OverlayMode::IdleWithSelection = self.mode {
                    if let Some((bx, by, bw, bh)) = self.toolbar_rect {
                        let cx = self.last_cursor.0;
                        let cy = self.last_cursor.1;
                        if let Some(btn) = crate::toolbar::hit_test_toolbar_button(
                            cx,
                            cy,
                            bx,
                            by,
                            bw,
                            bh,
                        ) {
                            return self.execute_toolbar_button(btn);
                        }
                    }
                }
                match self.mode {
                    OverlayMode::Dragging { .. } => {
                        let keep = match self.selection {
                            Some((_, _, w, h)) => w > 0 && h > 0,
                            None => false,
                        };
                        if keep {
                            self.mode = OverlayMode::IdleWithSelection;
                            OverlayAction::Nothing
                        } else {
                            self.selection = None;
                            self.mode = OverlayMode::Idle;
                            OverlayAction::Canceled
                        }
                    },
                    OverlayMode::MovingSelection { .. } => {
                        self.mode = OverlayMode::IdleWithSelection;
                        OverlayAction::Nothing
                    },
                    OverlayMode::Resizing { .. } => {
                        self.mode = OverlayMode::IdleWithSelection;
                        OverlayAction::Nothing
                    },
                    _ => OverlayAction::Nothing,
                }
            },
            OverlayEvent::RightPressed => {
                match self.mode {
                    OverlayMode::Idle => {
                        self.hide_overlay();
                        OverlayAction::Canceled
                    },
                    OverlayMode::IdleWithSelection => {
                        self.selection = None;
                        self.mode = OverlayMode::Idle;
                        self.cursor = CursorKind::Crosshair;
                        OverlayAction::Nothing
                    },
                    _ => OverlayAction::Nothing,
                }
            },
            OverlayEvent::CursorMoved { x, y } => {
                self.last_cursor = (x, y);
                let dims = match &self.screenshot {
                    Some(img) => Some((img.width, img.height)),
                    None => None,
                };
                match self.mode {
                    OverlayMode::Dragging { anchor_x, anchor_y } => {
                        if let Some((iw, ih)) = dims {
                            self.selection = Some(drag_rect(anchor_x, anchor_y, x, y, iw, ih));
                        }
                    },
                    OverlayMode::MovingSelection { offset_x, offset_y } => {
                        if let (Some((iw, ih)), Some((sx, sy, sw, sh))) = (dims, self.selection) {
                            self.selection = Some(
                                move_rect(sx, sy, sw, sh, offset_x, offset_y, x, y, iw, ih),
                            );
                        }
                    },
                    OverlayMode::Resizing { handle } => {
                        if let (Some((iw, ih)), Some((sx, sy, sw, sh))) = (dims, self.selection) {
                            self.selection = Some(
                                resize_rect(sx, sy, sw, sh, handle, x, y, iw, ih),
                            );
                        }
                    },
                    OverlayMode::IdleWithSelection => {
                        if let Some((sx, sy, sw, sh)) = self.selection {
                            let hover = match self.toolbar_rect {
                                Some((bx, by, bw, bh)) => crate::toolbar::hit_test_toolbar_button(
                                    x,
                                    y,
                                    bx,
                                    by,
                                    bw,
                                    bh,
                                ),
                                None => None,
                            };
                            match hover {
                                Some(i) => {
                                    self.toolbar_hover = Some(i);
                                    self.cursor = CursorKind::Pointer;
                                },
                                None => {
                                    self.toolbar_hover = None;
                                    match hit_test_handle(x, y, sx, sy, sw, sh) {
                                        Some(hd) => {
                                            self.cursor = cursor_for_handle(hd);
                                        },
                                        None => {
                                            let xl = x as i64;
                                            let yl = y as i64;
                                            if xl >= sx as i64 && xl < sx as i64 + sw as i64 && yl
                                                >= sy as i64 && yl < sy as i64 + sh as i64 {
                                                self.cursor = CursorKind::Move;
                                            } else {
                                                self.cursor = CursorKind::Arrow;
                                            }
                                        },
                                    }
                                },
                            }
                        }
                    },
                    _ => {},
                }
                OverlayAction::Nothing
            },
            OverlayEvent::EscapePressed => {
                self.hide_overlay();
                OverlayAction::Canceled
            },
        }
    }
}

/// The packed BGRA word of the source pixel at `(px, py)` of a `iw`-wide
/// RGBA byte buffer.
pub open spec fn bright_pixel(p: Seq<u8>, iw: int, px: int, py: int) -> u32 {
    spec_pack_bgra(
        p[4 * (py * iw + px)],
        p[4 * (py * iw + px) + 1],
        p[4 * (py * iw + px) + 2],
        p[4 * (py * iw + px) + 3],
    )
}

/// Whether `(px, py)` lies in the square marker of handle `hd` on the
/// selection `(x, y, w, h)`; markers are 7x7 squares centered on the handle
/// anchors.
pub open spec fn in_handle_square(
    hd: ResizeHandle,
    px: int,
    py: int,
    x: int,
    y: int,
    w: int,
    h: int,
) -> bool {
    let a = handle_anchor(hd, x, y, w, h);
    in_rect(px, py, a.0 - 3, a.1 - 3, 7, 7)
}

/// Whether `(px, py)` lies in any of the eight handle markers.
pub open spec fn in_some_handle(px: int, py: int, x: int, y: int, w: int, h: int) -> bool {
    exists|hd: ResizeHandle| #[trigger] in_handle_square(hd, px, py, x, y, w, h)
}

/// Whether this mode shows the selection's source pixels undimmed.
pub open spec fn bright_mode(m: OverlayMode) -> bool {
    m is Dragging || m is IdleWithSelection || m is MovingSelection || m is Resizing
}

/// The composited overlay pixel at `(px, py)`, outside the toolbar: white
/// on the selection border and handle markers, the undimmed source inside
/// the selection while it is being shown bright, and the dimmed source
/// everywhere else.
pub open spec fn spec_overlay_pixel(pre: OverlayState, px: int, py: int) -> u32 {
    let img = pre.screenshot->Some_0;
    let iw = img.width as int;
    let dimmed = spec_dim_pixel(bright_pixel(img.pixels@, iw, px, py));
    if sel_nonempty(pre.selection) {
        let sel = pre.selection->Some_0;
        let x = sel.0 as int;
        let y = sel.1 as int;
        let w = sel.2 as int;
        let h = sel.3 as int;
        if on_outline(px, py, x, y, w, h) || in_some_handle(px, py, x, y, w, h) {
            0xFFFFFFFFu32
        } else if bright_mode(pre.mode) && in_rect(px, py, x, y, w, h) {
            bright_pixel(img.pixels@, iw, px, py)
        } else {
            dimmed
        }
    } else {
        dimmed
    }
}

/// Copies a vector of packed pixels.
fn clone_words(src: &Vec<u32>) -> (out: Vec<u32>)
    ensures
        out@ == src@,
{
    let mut out: Vec<u32> = Vec::new();
    let mut i: usize = 0;
    while i < src.len()
        invariant
            i <= src@.len(),
            out@ == src@.subrange(0, i as int),
        decreases src@.len() - i,
    {
        out.push(src[i]);
        proof {
            assert(out@ =~= src@.subrange(0, i + 1));
        }
        i = i + 1;
    }
    proof {
        assert(out@ =~= src@);
    }
    out
}

/// Overwrites the rectangle at `(x, y)` of size `w * h` with the undimmed
/// source pixels; everything else keeps its old value.
fn copy_bright(
    frame: &mut Vec<u32>,
    pixels: &Vec<u8>,
    iw: u32,
    ih: u32,
    x: u32,
    y: u32,
    w: u32,
    h: u32,
)
    requires
        old(frame)@.len() == iw * ih,
        pixels@.len() == 4 * iw * ih,
        x + w <= iw,
        y + h <= ih,
    ensures
        final(frame)@.len() == old(frame)@.len(),
        forall|px: int, py: int|
            0 <= px < iw && 0 <= py < ih ==> #[trigger] pixel(final(frame)@, iw, px, py) == (
            if in_rect(px, py, x as int, y as int, w as int, h as int) {
                bright_pixel(pixels@, iw as int, px, py)
            } else {
                pixel(old(frame)@, iw, px, py)
            }),
{
    let _frame_len = frame.len();
    let _pixels_len = pixels.len();
    proof {
        assert(4 * (iw * ih) == 4 * iw * ih) by (nonlinear_arith);
    }
    let mut py: usize = y as usize;
    while py < (y as usize) + (h as usize)
        invariant
            frame@.len() == iw * ih,
            iw * ih <= usize::MAX,
            pixels@.len() == 4 * iw * ih,
            pixels@.len() <= usize::MAX,
            4 * (iw * ih) == 4 * iw * ih,
            x + w <= iw,
            y + h <= ih,
            y <= py <= y + h,
            forall|qx: int, qy: int|
                0 <= qx < iw && 0 <= qy < ih ==> #[trigger] pixel(frame@, iw, qx, qy) == (
                if in_rect(qx, qy, x as int, y as int, w as int, h as int) && qy < py {
                    bright_pixel(pixels@, iw as int, qx, qy)
                } else {
                    pixel(old(frame)@, iw, qx, qy)
                }),
        decreases y + h - py,
    {
        let mut px: usize = x as usize;
        while px < (x as usize) + (w as usize)
            invariant
                frame@.len() == iw * ih,
                iw * ih <= usize::MAX,
                pixels@.len() == 4 * iw * ih,
                pixels@.len() <= usize::MAX,
                4 * (iw * ih) == 4 * iw * ih,
                x + w <= iw,
                y + h <= ih,
                y <= py < y + h,
                x <= px <= x + w,
                forall|qx: int, qy: int|
                    0 <= qx < iw && 0 <= qy < ih ==> #[trigger] pixel(frame@, iw, qx, qy) == (
                    if in_rect(qx, qy, x as int, y as int, w as int, h as int) && (qy < py || (qy
                        == py && qx < px)) {
                        bright_pixel(pixels@, iw as int, qx, qy)
                    } else {
                        pixel(old(frame)@, iw, qx, qy)
                    }),
            decreases x + w - px,
        {
            proof {
                assert(0 <= py * iw + px < iw * ih) by (nonlinear_arith)
                    requires
                        0 <= px < iw,
                        0 <= py < ih,
                ;
            }
            let idx = py * (iw as usize) + px;
            let sr = pixels[4 * idx];
            let sg = pixels[4 * idx + 1];
            let sb = pixels[4 * idx + 2];
            let sa = pixels[4 * idx + 3];
            let packed = crate::pixel::pack_bgra(sr, sg, sb, sa);
            let ghost pre = frame@;
            frame[idx] = packed;
            proof {
                assert forall|qx: int, qy: int|
                    0 <= qx < iw && 0 <= qy < ih implies #[trigger] pixel(frame@, iw, qx, qy) == (
                if in_rect(qx, qy, x as int, y as int, w as int, h as int) && (qy < py || (qy == py
                    && qx < px + 1)) {
                    bright_pixel(pixels@, iw as int, qx, qy)
                } else {
                    pixel(old(frame)@, iw, qx, qy)
                }) by {
                    assert(0 <= qy * iw + qx < iw * ih) by (nonlinear_arith)
                        requires
                            0 <= qx < iw,
                            0 <= qy < ih,
                    ;
                    assert(pixel(pre, iw, qx, qy) == pre[qy * iw + qx]);
                    if !(qx == px && qy == py) {
                        assert(qy * iw + qx != py * iw + px) by (nonlinear_arith)
                            requires
                                0 <= qx < iw,
                                0 <= px < iw,
                                (qx, qy) != (px as int, py as int),
                        ;
                    }
                }
            }
            px = px + 1;
        }
        py = py + 1;
    }
}

/// Draws the selection chrome: a one-pixel white border along all four
/// edges and the eight 7x7 white handle markers; everything else keeps its
/// old value.
fn draw_selection_chrome(frame: &mut Vec<u32>, iw: u32, ih: u32, x: u32, y: u32, w: u32, h: u32)
    requires
        old(frame)@.len() == iw * ih,
        iw <= i32::MAX,
        ih <= i32::MAX,
        x + w <= iw,
        y + h <= ih,
        1 <= w,
        1 <= h,
    ensures
        final(frame)@.len() == old(frame)@.len(),
        forall|px: int, py: int|
            0 <= px < iw && 0 <= py < ih ==> #[trigger] pixel(final(frame)@, iw, px, py) == (
            if on_outline(px, py, x as int, y as int, w as int, h as int) || in_some_handle(
                px,
                py,
                x as int,
                y as int,
                w as int,
                h as int,
            ) {
                0xFFFFFFFFu32
            } else {
                pixel(old(frame)@, iw, px, py)
            }),
{
    let white = 0xFFFFFFFFu32;
    let xi = x as i32;
    let yi = y as i32;
    let wi = w as i32;
    let hi = h as i32;
    fill_rect(frame, iw, ih, xi, yi, wi, 1, white);
    fill_rect(frame, iw, ih, xi, yi + hi - 1, wi, 1, white);
    let ghost t_top = frame@;
    fill_rect(frame, iw, ih, xi, yi, 1, hi, white);
    fill_rect(frame, iw, ih, xi + wi - 1, yi, 1, hi, white);
    let ghost t_outline = frame@;
    let half: i32 = 3;
    let cx_mid = (x + w / 2) as i32;
    let cx_right = (x + w - 1) as i32;
    let cy_mid = (y + h / 2) as i32;
    let cy_bot = (y + h - 1) as i32;
    crate::drawing::draw_handle(frame, iw, ih, xi, yi, half);
    let ghost t1 = frame@;
    crate::drawing::draw_handle(frame, iw, ih, cx_mid, yi, half);
    let ghost t2 = frame@;
    crate::drawing::draw_handle(frame, iw, ih, cx_right, yi, half);
    let ghost t3 = frame@;
    crate::drawing::draw_handle(frame, iw, ih, cx_right, cy_mid, half);
    let ghost t4 = frame@;
    crate::drawing::draw_handle(frame, iw, ih, cx_right, cy_bot, half);
    let ghost t5 = frame@;
    crate::drawing::draw_handle(frame, iw, ih, cx_mid, cy_bot, half);
    let ghost t6 = frame@;
    crate::drawing::draw_handle(frame, iw, ih, xi, cy_bot, half);
    let ghost t7 = frame@;
    crate::drawing::draw_handle(frame, iw, ih, xi, cy_mid, half);
    proof {
        let xt = x as int;
        let yt = y as int;
        let wt = w as int;
        let ht = h as int;
        assert forall|px: int, py: int|
            0 <= px < iw && 0 <= py < ih implies #[trigger] pixel(frame@, iw, px, py) == (
        if on_outline(px, py, xt, yt, wt, ht) || in_some_handle(px, py, xt, yt, wt, ht) {
            0xFFFFFFFFu32
        } else {
            pixel(old(frame)@, iw, px, py)
        }) by {
            // Naming each intermediate frame's pixel lets the chained
            // drawing contracts instantiate at this point.
            let v_top = pixel(t_top, iw, px, py);
            let v_out = pixel(t_outline, iw, px, py);
            let v1 = pixel(t1, iw, px, py);
            let v2 = pixel(t2, iw, px, py);
            let v3 = pixel(t3, iw, px, py);
            let v4 = pixel(t4, iw, px, py);
            let v5 = pixel(t5, iw, px, py);
            let v6 = pixel(t6, iw, px, py);
            let v7 = pixel(t7, iw, px, py);
            assert(in_handle_square(ResizeHandle::TopLeft, px, py, xt, yt, wt, ht)
                == in_rect(px, py, xt - 3, yt - 3, 7, 7));
            assert(in_handle_square(ResizeHandle::Top, px, py, xt, yt, wt, ht)
                == in_rect(px, py, xt + wt / 2 - 3, yt - 3, 7, 7));
            assert(in_handle_square(ResizeHandle::TopRight, px, py, xt, yt, wt, ht)
                == in_rect(px, py, xt + wt - 1 - 3, yt - 3, 7, 7));
            assert(in_handle_square(ResizeHandle::Right, px, py, xt, yt, wt, ht)
                == in_rect(px, py, xt + wt - 1 - 3, yt + ht / 2 - 3, 7, 7));
            assert(in_handle_square(ResizeHandle::BottomRight, px, py, xt, yt, wt, ht)
                == in_rect(px, py, xt + wt - 1 - 3, yt + ht - 1 - 3, 7, 7));
            assert(in_handle_square(ResizeHandle::Bottom, px, py, xt, yt, wt, ht)
                == in_rect(px, py, xt + wt / 2 - 3, yt + ht - 1 - 3, 7, 7));
            assert(in_handle_square(ResizeHandle::BottomLeft, px, py, xt, yt, wt, ht)
                == in_rect(px, py, xt - 3, yt + ht - 1 - 3, 7, 7));
            assert(in_handle_square(ResizeHandle::Left, px, py, xt, yt, wt, ht)
                == in_rect(px, py, xt - 3, yt + ht / 2 - 3, 7, 7));
            if in_some_handle(px, py, xt, yt, wt, ht) {
                let hd = choose|hd: ResizeHandle| in_handle_square(hd, px, py, xt, yt, wt, ht);
                assert(pixel(frame@, iw, px, py) == 0xFFFFFFFFu32);
            } else if on_outline(px, py, xt, yt, wt, ht) {
                assert(v_out == 0xFFFFFFFFu32);
                assert(pixel(frame@, iw, px, py) == 0xFFFFFFFFu32);
            } else {
            }
        }
    }
}

impl OverlayState {
    /// Composes the next overlay frame from the dimmed backdrop, the
    /// selection's bright pixels, its border and handle markers, and the
    /// action bar, and re-derives the cached toolbar rectangle. A hidden
    /// overlay composes nothing and changes nothing. Every pixel outside
    /// the bar matches [`spec_overlay_pixel`]; the bar's own pixels are the
    /// toolbar drawing's.
    pub fn redraw(&mut self) -> (r: Option<Vec<u32>>)
        requires
            old(self).wf(),
        ensures
            final(self).wf(),
            (r is Some) == old(self).visible,
            !old(self).visible ==> *final(self) == *old(self),
            old(self).visible ==> *final(self) == (OverlayState {
                toolbar_rect: final(self).toolbar_rect,
                ..*old(self)
            }),
            old(self).visible ==> ({
                let img = old(self).screenshot->Some_0;
                let sel = old(self).selection->Some_0;
                if sel_nonempty(old(self).selection) {
                    if old(self).mode is IdleWithSelection {
                        match final(self).toolbar_rect {
                            Some((bx, by, bw, bh)) => spec_toolbar_rect(
                                sel.0 as int,
                                sel.1 as int,
                                sel.2 as int,
                                sel.3 as int,
                                img.width as int,
                                img.height as int,
                            ) == Some((bx as int, by as int, bw as int, bh as int)),
                            None => spec_toolbar_rect(
                                sel.0 as int,
                                sel.1 as int,
                                sel.2 as int,
                                sel.3 as int,
                                img.width as int,
                                img.height as int,
                            ) is None,
                        }
                    } else {
                        final(self).toolbar_rect is None
                    }
                } else {
                    final(self).toolbar_rect == old(self).toolbar_rect
                }
            }),
            old(self).visible ==> (r matches Some(f) && ({
                let img = old(self).screenshot->Some_0;
                &&& f@.len() == img.width * img.height
                &&& forall|px: int, py: int|
                    0 <= px < img.width && 0 <= py < img.height && !(
                    final(self).toolbar_rect matches Some(b) && in_rect(
                        px,
                        py,
                        b.0 as int,
                        b.1 as int,
                        b.2 as int,
                        b.3 as int,
                    )) ==> #[trigger] pixel(f@, img.width, px, py) == spec_overlay_pixel(
                        *old(self),
                        px,
                        py,
                    )
            })),
    {
        if !self.visible {
            return None;
        }
        let (iw, ih) = match &self.screenshot {
            Some(img) => (img.width, img.height),
            None => {
                proof {
                    assert(false);
                }
                return None;
            },
        };
        let mut frame = match &self.dim_cache {
            Some(c) => clone_words(c),
            None => {
                proof {
                    assert(false);
                }
                return None;
            },
        };
        let ghost img0 = self.screenshot->Some_0;
        proof {
            assert(4 * (iw * ih) == 4 * iw * ih) by (nonlinear_arith);
            assert((4 * (iw as int) * (ih as int)) / 4 == iw * ih);
            assert(frame@.len() == iw * ih);
            assert forall|px: int, py: int| 0 <= px < iw && 0 <= py < ih implies #[trigger] pixel(
                frame@,
                iw,
                px,
                py,
            ) == spec_dim_pixel(bright_pixel(img0.pixels@, iw as int, px, py)) by {
                assert(0 <= py * iw + px < iw * ih) by (nonlinear_arith)
                    requires
                        0 <= px < iw,
                        0 <= py < ih,
                ;
                assert(frame@[py * iw + px] == spec_dim_cache(img0.pixels@)[py * iw + px]);
            }
        }
        let sel = self.selection;
        let mode = self.mode;
        let hover = self.toolbar_hover;
        let mut result_bar: Option<(i32, i32, i32, i32)> = self.toolbar_rect;
        if let Some((sx, sy, sw, sh)) = sel {
            if sw > 0 && sh > 0 {
                let ghost g_dim = frame@;
                let is_bright = match mode {
                    OverlayMode::Dragging { .. } => true,
                    OverlayMode::IdleWithSelection => true,
                    OverlayMode::MovingSelection { .. } => true,
                    OverlayMode::Resizing { .. } => true,
                    _ => false,
                };
                if is_bright {
                    match &self.screenshot {
                        Some(img) => {
                            copy_bright(&mut frame, &img.pixels, iw, ih, sx, sy, sw, sh);
                        },
                        None => {},
                    }
                }
                let ghost g_bright = frame@;
                draw_selection_chrome(&mut frame, iw, ih, sx, sy, sw, sh);
                let ghost g_chrome = frame@;
                if let OverlayMode::IdleWithSelection = mode {
                    let tb = crate::toolbar::compute_toolbar_rect(sx, sy, sw, sh, iw, ih);
                    result_bar = tb;
                    if let Some((bx, by, bw, bh)) = tb {
                        crate::toolbar::draw_toolbar(&mut frame, iw, ih, bx, by, bw, bh, hover);
                    }
                } else {
                    result_bar = None;
                }
                proof {
                    assert forall|px: int, py: int|
                        0 <= px < iw && 0 <= py < ih && !(result_bar matches Some(b) && in_rect(
                            px,
                            py,
                            b.0 as int,
                            b.1 as int,
                            b.2 as int,
                            b.3 as int,
                        )) implies #[trigger] pixel(frame@, iw, px, py) == spec_overlay_pixel(
                        *old(self),
                        px,
                        py,
                    ) by {
                        // Naming each stage's pixel lets the staged
                        // contracts instantiate at this point.
                        let vd = pixel(g_dim, iw, px, py);
                        let vb = pixel(g_bright, iw, px, py);
                        let vc = pixel(g_chrome, iw, px, py);
                    }
                }
            }
        }
        self.toolbar_rect = result_bar;
        Some(frame)
    }
}

impl OverlayState {
    /// Hands out the bytes a save command left behind, clearing them so the
    /// controller writes each save exactly once.
    pub fn take_pending_save(&mut self) -> (r: Option<Vec<u8>>)
        requires
            old(self).wf(),
        ensures
            final(self).wf(),
            *final(self) == (OverlayState { pending_save: None, ..*old(self) }),
            r == old(self).pending_save,
    {
        self.pending_save.take()
    }
}

} // verus!
