//! Resize-handle hit testing: eight fixed hit zones on a selection's
//! corners and edge midpoints, matched within a fixed pixel tolerance in a
//! fixed order (corners before edge midpoints, first match wins).

use vstd::prelude::*;

verus! {

/// Identity of one of the eight resize handles of a selection.
#[derive(Clone, Copy, Debug, PartialEq, Eq)]
pub enum ResizeHandle {
    TopLeft,
    Top,
    TopRight,
    Right,
    BottomRight,
    Bottom,
    BottomLeft,
    Left,
}

/// Chebyshev tolerance in pixels around each handle anchor point.
pub const HANDLE_TOLERANCE: i32 = 5;

/// The anchor point of a handle on the selection `(x, y, w, h)`: corners sit
/// on the outermost selection pixels, edge handles on the midpoint of their
/// edge (rounded down).
pub open spec fn handle_anchor(hd: ResizeHandle, x: int, y: int, w: int, h: int) -> (int, int) {
    match hd {
        ResizeHandle::TopLeft => (x, y),
        ResizeHandle::Top => (x + w / 2, y),
        ResizeHandle::TopRight => (x + w - 1, y),
        ResizeHandle::Right => (x + w - 1, y + h / 2),
        ResizeHandle::BottomRight => (x + w - 1, y + h - 1),
        ResizeHandle::Bottom => (x + w / 2, y + h - 1),
        ResizeHandle::BottomLeft => (x, y + h - 1),
        ResizeHandle::Left => (x, y + h / 2),
    }
}

/// Whether the cursor `(cx, cy)` lies within the hit tolerance of `(px, py)`.
pub open spec fn near_anchor(cx: int, cy: int, px: int, py: int) -> bool {
    -(HANDLE_TOLERANCE as int) <= cx - px <= HANDLE_TOLERANCE as int && -(HANDLE_TOLERANCE as int)
        <= cy - py <= HANDLE_TOLERANCE as int
}

/// The handle hit by the cursor on selection `(x, y, w, h)`: corners are
/// checked before edge midpoints, the first hit wins, and an empty selection
/// has no handles.
pub open spec fn spec_hit_handle(cx: int, cy: int, x: int, y: int, w: int, h: int) -> Option<
    ResizeHandle,
> {
    if w == 0 || h == 0 {
        None
    } else if near_anchor(cx, cy, x, y) {
        Some(ResizeHandle::TopLeft)
    } else if near_anchor(cx, cy, x + w - 1, y) {
        Some(ResizeHandle::TopRight)
    } else if near_anchor(cx, cy, x + w - 1, y + h - 1) {
        Some(ResizeHandle::BottomRight)
    } else if near_anchor(cx, cy, x, y + h - 1) {
        Some(ResizeHandle::BottomLeft)
    } else if near_anchor(cx, cy, x + w / 2, y) {
        Some(ResizeHandle::Top)
    } else if near_anchor(cx, cy, x + w - 1, y + h / 2) {
        Some(ResizeHandle::Right)
    } else if near_anchor(cx, cy, x + w / 2, y + h - 1) {
        Some(ResizeHandle::Bottom)
    } else if near_anchor(cx, cy, x, y + h / 2) {
        Some(ResizeHandle::Left)
    } else {
        None
    }
}

/// Returns whether `(cx, cy)` is within tolerance of `(px, py)`.
fn near_point(cx: i64, cy: i64, px: i64, py: i64) -> (r: bool)
    requires
        -0x1_0000_0000 <= cx <= 0x1_0000_0000,
        -0x1_0000_0000 <= cy <= 0x1_0000_0000,
        -0x4_0000_0000 <= px <= 0x4_0000_0000,
        -0x4_0000_0000 <= py <= 0x4_0000_0000,
    ensures
        r == near_anchor(cx as int, cy as int, px as int, py as int),
{
    let t = HANDLE_TOLERANCE as i64;
    -t <= cx - px && cx - px <= t && -t <= cy - py && cy - py <= t
}

/// Hit-tests the cursor against the eight resize handles of the selection
/// `(x, y, w, h)`, returning at most one handle identity.
pub fn hit_test_handle(cx: i32, cy: i32, x: u32, y: u32, w: u32, h: u32) -> (r: Option<
    ResizeHandle,
>)
    ensures
        r == spec_hit_handle(cx as int, cy as int, x as int, y as int, w as int, h as int),
{
    if w == 0 || h == 0 {
        return None;
    }
    let cxl = cx as i64;
    let cyl = cy as i64;
    let xl = x as i64;
    let yl = y as i64;
    let wl = w as i64;
    let hl = h as i64;
    if near_point(cxl, cyl, xl, yl) {
        Some(ResizeHandle::TopLeft)
    } else if near_point(cxl, cyl, xl + wl - 1, yl) {
        Some(ResizeHandle::TopRight)
    } else if near_point(cxl, cyl, xl + wl - 1, yl + hl - 1) {
        Some(ResizeHandle::BottomRight)
    } else if near_point(cxl, cyl, xl, yl + hl - 1) {
        Some(ResizeHandle::BottomLeft)
    } else if near_point(cxl, cyl, xl + wl / 2, yl) {
        Some(ResizeHandle::Top)
    } else if near_point(cxl, cyl, xl + wl - 1, yl + hl / 2) {
        Some(ResizeHandle::Right)
    } else if near_point(cxl, cyl, xl + wl / 2, yl + hl - 1) {
        Some(ResizeHandle::Bottom)
    } else if near_point(cxl, cyl, xl, yl + hl / 2) {
        Some(ResizeHandle::Left)
    } else {
        None
    }
}

/// The point-reflection partner of a handle: reflecting the cursor through
/// the selection's center maps each handle onto this one.
pub open spec fn mirror_handle(hd: ResizeHandle) -> ResizeHandle {
    match hd {
        ResizeHandle::TopLeft => ResizeHandle::BottomRight,
        ResizeHandle::Top => ResizeHandle::Bottom,
        ResizeHandle::TopRight => ResizeHandle::BottomLeft,
        ResizeHandle::Right => ResizeHandle::Left,
        ResizeHandle::BottomRight => ResizeHandle::TopLeft,
        ResizeHandle::Bottom => ResizeHandle::Top,
        ResizeHandle::BottomLeft => ResizeHandle::TopRight,
        ResizeHandle::Left => ResizeHandle::Right,
    }
}

/// On a selection whose sides exceed four tolerances the eight hit zones are
/// pairwise disjoint: a cursor is within tolerance of at most one anchor, so
/// a query hits at most one handle and the fixed check order cannot matter.
pub proof fn lemma_handle_zones_disjoint(
    cx: int,
    cy: int,
    x: int,
    y: int,
    w: int,
    h: int,
    h1: ResizeHandle,
    h2: ResizeHandle,
)
    requires
        w > 4 * HANDLE_TOLERANCE + 2,
        h > 4 * HANDLE_TOLERANCE + 2,
        h1 != h2,
        near_anchor(cx, cy, handle_anchor(h1, x, y, w, h).0, handle_anchor(h1, x, y, w, h).1),
    ensures
        !near_anchor(cx, cy, handle_anchor(h2, x, y, w, h).0, handle_anchor(h2, x, y, w, h).1),
{
}

/// Hit testing is consistent under point reflection: reflecting the cursor
/// through the selection's pixel center maps each handle to its mirror
/// partner (`TopLeft` to `BottomRight`, `Top` to `Bottom`, and so on). This
/// holds whenever both sides are odd, so that the pixel center is exact, and
/// exceed four tolerances, so that the hit zones are disjoint.
pub proof fn lemma_hit_handle_reflection(cx: int, cy: int, x: int, y: int, w: int, h: int)
    requires
        w % 2 == 1,
        h % 2 == 1,
        w > 4 * HANDLE_TOLERANCE + 2,
        h > 4 * HANDLE_TOLERANCE + 2,
    ensures
        spec_hit_handle(2 * x + w - 1 - cx, 2 * y + h - 1 - cy, x, y, w, h) == (
        match spec_hit_handle(cx, cy, x, y, w, h) {
            Some(hd) => Some(mirror_handle(hd)),
            None => None,
        }),
{
    let rcx = 2 * x + w - 1 - cx;
    let rcy = 2 * y + h - 1 - cy;
    assert(w / 2 + w / 2 + 1 == w);
    assert(h / 2 + h / 2 + 1 == h);
    assert(rcx - (x + w / 2) == -(cx - (x + w / 2)));
    assert(rcy - (y + h / 2) == -(cy - (y + h / 2)));
    assert(rcx - x == -(cx - (x + w - 1)));
    assert(rcy - y == -(cy - (y + h - 1)));
    let res = spec_hit_handle(cx, cy, x, y, w, h);
    if res is Some {
        let hd = res->Some_0;
        let a = handle_anchor(hd, x, y, w, h);
        assert(near_anchor(cx, cy, a.0, a.1));
        assert forall|other: ResizeHandle| other != hd implies !near_anchor(
            cx,
            cy,
            handle_anchor(other, x, y, w, h).0,
            handle_anchor(other, x, y, w, h).1,
        ) by {
            lemma_handle_zones_disjoint(cx, cy, x, y, w, h, hd, other);
        }
        let m = mirror_handle(hd);
        let ma = handle_anchor(m, x, y, w, h);
        assert(near_anchor(rcx, rcy, ma.0, ma.1));
        assert forall|other: ResizeHandle| other != m implies !near_anchor(
            rcx,
            rcy,
            handle_anchor(other, x, y, w, h).0,
            handle_anchor(other, x, y, w, h).1,
        ) by {
            lemma_handle_zones_disjoint(rcx, rcy, x, y, w, h, m, other);
        }
        assert(spec_hit_handle(rcx, rcy, x, y, w, h) == Some(m));
    } else {
        assert forall|other: ResizeHandle|
            !near_anchor(
                rcx,
                rcy,
                handle_anchor(other, x, y, w, h).0,
                handle_anchor(other, x, y, w, h).1,
            ) by {
            let back = mirror_handle(other);
            let ba = handle_anchor(back, x, y, w, h);
            assert(!near_anchor(cx, cy, ba.0, ba.1));
        }
        assert(spec_hit_handle(rcx, rcy, x, y, w, h) is None);
    }
}

/// What a hit means: a returned handle's anchor is within tolerance of the
/// cursor, and a miss means no anchor is. Together with
/// [`lemma_handle_zones_disjoint`] this pins the query to at most one
/// handle identity.
pub proof fn lemma_hit_handle_characterizes(cx: int, cy: int, x: int, y: int, w: int, h: int)
    requires
        w >= 1,
        h >= 1,
    ensures
        spec_hit_handle(cx, cy, x, y, w, h) matches Some(hd) ==> near_anchor(
            cx,
            cy,
            handle_anchor(hd, x, y, w, h).0,
            handle_anchor(hd, x, y, w, h).1,
        ),
        spec_hit_handle(cx, cy, x, y, w, h) is None ==> forall|hd: ResizeHandle|
            !near_anchor(
                cx,
                cy,
                #[trigger] handle_anchor(hd, x, y, w, h).0,
                handle_anchor(hd, x, y, w, h).1,
            ),
{
}

} // verus!
