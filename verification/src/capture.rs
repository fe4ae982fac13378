//! Screen capture: acquires a raw RGBA frame for the monitor containing a
//! point, normalizes it into a [`CapturedImage`], and crops or encodes it.
//!
//! The capture collaborator is assumed to hand back canonical RGBA channel
//! order; [`bgra_to_rgba`] is available for sources known to deliver BGRA.
//! The platform call itself goes through one trusted wrapper; everything
//! around it (validation, cropping, encoding policy) is verified.

use vstd::prelude::*;

use crate::codec::{encode_png, png_of, png_signature};
use crate::geom::clamp_int;
use crate::pixel::{crop_rgba, spec_crop};

pub use crate::pixel::bgra_to_rgba;

verus! {

/// A rectangle in global screen coordinates.
#[derive(Debug, Clone, Copy)]
pub struct Rect {
    pub x: i32,
    pub y: i32,
    pub width: u32,
    pub height: u32,
}

/// Why a capture attempt failed. A failed attempt is fatal to that attempt
/// only; the overlay is simply not shown.
#[derive(Clone, Copy, Debug, PartialEq, Eq)]
pub enum CaptureError {
    /// No display contains the requested point.
    NoDisplay,
    /// The platform capture call failed.
    CaptureFailed,
    /// The platform handed back a frame with unusable dimensions.
    BadFrame,
    /// The requested area does not overlap the captured monitor.
    EmptyArea,
    /// The captured frame could not be encoded.
    EncodeFailed,
}

/// A captured monitor frame: dimensions, the monitor's global origin, and
/// the RGBA pixel bytes in row-major top-down order.
pub struct CapturedImage {
    pub width: u32,
    pub height: u32,
    pub origin_x: i32,
    pub origin_y: i32,
    pub pixels: Vec<u8>,
}

impl CapturedImage {
    /// Well-formedness: positive dimensions that fit the signed pixel grid,
    /// and exactly four bytes per pixel.
    pub open spec fn wf(&self) -> bool {
        &&& 1 <= self.width <= i32::MAX
        &&& 1 <= self.height <= i32::MAX
        &&& self.pixels@.len() == 4 * self.width * self.height
    }
}

/// Relies on `screenshots::Screen::from_point` and `Screen::capture`: the
/// wrapper returns the monitor's global origin, the captured frame's pixel
/// dimensions, and its RGBA bytes, of which `image`'s `ImageBuffer`
/// guarantees at least `4 * w * h`. What the frame holds depends on the
/// machine, so nothing more is stated of it.
#[verifier::external_body]
fn raw_capture_at(x: i32, y: i32) -> (r: Result<(i32, i32, u32, u32, Vec<u8>), CaptureError>)
    ensures
        r matches Ok((ox, oy, w, h, p)) ==> p@.len() >= 4 * w * h,
{
    let screen = match screenshots::Screen::from_point(x, y) {
        Ok(s) => s,
        Err(_) => {
            return Err(CaptureError::NoDisplay);
        },
    };
    let img = match screen.capture() {
        Ok(i) => i,
        Err(_) => {
            return Err(CaptureError::CaptureFailed);
        },
    };
    let (w, h) = (img.width(), img.height());
    Ok((screen.display_info.x, screen.display_info.y, w, h, img.into_raw()))
}

/// Validates a raw frame and normalizes it into a well-formed
/// [`CapturedImage`], truncating any slack bytes the platform delivered.
fn normalize_frame(ox: i32, oy: i32, w: u32, h: u32, pixels: Vec<u8>) -> (r: Result<
    CapturedImage,
    CaptureError,
>)
    requires
        pixels@.len() >= 4 * w * h,
    ensures
        r matches Ok(img) ==> img.wf() && img.width == w && img.height == h && img.origin_x == ox
            && img.origin_y == oy && img.pixels@ == pixels@.subrange(0, 4 * w * h),
        (r is Ok) == (1 <= w <= i32::MAX && 1 <= h <= i32::MAX),
{
    if w == 0 || h == 0 || w > 0x7FFF_FFFF || h > 0x7FFF_FFFF {
        return Err(CaptureError::BadFrame);
    }
    let mut buf = pixels;
    let ghost orig = buf@;
    let _buf_len = buf.len();
    let need_wide: u128 = 4 * (w as u128) * (h as u128);
    let need: usize = need_wide as usize;
    buf.truncate(need);
    proof {
        assert(buf@ == orig.subrange(0, 4 * w * h));
    }
    Ok(CapturedImage { width: w, height: h, origin_x: ox, origin_y: oy, pixels: buf })
}

/// Captures the monitor containing the global origin `(0, 0)` and returns
/// the raw frame together with that monitor's global origin.
pub fn capture_fullscreen_raw_with_origin() -> (r: Result<CapturedImage, CaptureError>)
    ensures
        r matches Ok(img) ==> img.wf(),
{
    match raw_capture_at(0, 0) {
        Ok((ox, oy, w, h, p)) => normalize_frame(ox, oy, w, h, p),
        Err(e) => Err(e),
    }
}

/// Captures the monitor at the global origin and encodes the full frame as
/// a PNG stream.
pub fn capture_fullscreen() -> (r: Result<Vec<u8>, CaptureError>)
    ensures
        r matches Ok(b) ==> b@.len() >= 8 && b@.subrange(0, 8) == png_signature(),
{
    let img = match capture_fullscreen_raw_with_origin() {
        Ok(img) => img,
        Err(e) => {
            return Err(e);
        },
    };
    match encode_png(&img.pixels, img.width, img.height) {
        Ok(b) => Ok(b),
        Err(_) => Err(CaptureError::EncodeFailed),
    }
}

/// The intersection of a requested rectangle with a captured frame, as
/// frame-local coordinates: the request's corner relative to the monitor
/// origin, clamped into the frame, and each crop dimension as the smaller
/// of the request and the remaining frame.
pub open spec fn spec_area_crop(img: CapturedImage, rect: Rect) -> (int, int, int, int) {
    let rel_x = clamp_int(rect.x - img.origin_x, 0, img.width as int);
    let rel_y = clamp_int(rect.y - img.origin_y, 0, img.height as int);
    let crop_w = if rect.width < img.width - rel_x {
        rect.width as int
    } else {
        img.width - rel_x
    };
    let crop_h = if rect.height < img.height - rel_y {
        rect.height as int
    } else {
        img.height - rel_y
    };
    (rel_x, rel_y, crop_w, crop_h)
}

/// Crops a captured frame to the intersection of `rect` (in global
/// coordinates) with the frame's pixel bounds and encodes the crop as PNG.
/// Partial overlap is clamped silently, never an error; an area with no
/// overlap at all is rejected as empty; otherwise the result is exactly the
/// codec's outcome for the intersection crop.
pub fn crop_area_frame(img: &CapturedImage, rect: Rect) -> (r: Result<Vec<u8>, CaptureError>)
    requires
        img.wf(),
    ensures
        ({
            let c = spec_area_crop(*img, rect);
            &&& (r matches Err(e) && e == CaptureError::EmptyArea) == (c.2 == 0 || c.3 == 0)
            &&& c.2 > 0 && c.3 > 0 ==> {
                let data = spec_crop(img.pixels@, img.width as int, c.0, c.1, c.2, c.3);
                &&& (r is Ok) == (png_of(data, c.2 as nat, c.3 as nat) is Some)
                &&& (r matches Ok(b) ==> png_of(data, c.2 as nat, c.3 as nat) == Some(b@))
                &&& (r matches Err(e) ==> e == CaptureError::EncodeFailed)
            }
        }),
        r matches Ok(b) ==> b@.len() >= 8 && b@.subrange(0, 8) == png_signature(),
{
    let rel_x_wide = (rect.x as i64) - (img.origin_x as i64);
    let rel_y_wide = (rect.y as i64) - (img.origin_y as i64);
    let rel_x: u32 = if rel_x_wide < 0 {
        0
    } else if rel_x_wide > img.width as i64 {
        img.width
    } else {
        rel_x_wide as u32
    };
    let rel_y: u32 = if rel_y_wide < 0 {
        0
    } else if rel_y_wide > img.height as i64 {
        img.height
    } else {
        rel_y_wide as u32
    };
    let max_w = img.width - rel_x;
    let max_h = img.height - rel_y;
    let crop_w = if rect.width < max_w {
        rect.width
    } else {
        max_w
    };
    let crop_h = if rect.height < max_h {
        rect.height
    } else {
        max_h
    };
    if crop_w == 0 || crop_h == 0 {
        return Err(CaptureError::EmptyArea);
    }
    let cropped = crop_rgba(&img.pixels, img.width, img.height, rel_x, rel_y, crop_w, crop_h);
    match encode_png(&cropped, crop_w, crop_h) {
        Ok(b) => Ok(b),
        Err(_) => Err(CaptureError::EncodeFailed),
    }
}

/// Captures the monitor containing `rect`'s top-left corner and hands the
/// frame to [`crop_area_frame`], which clamps the request to the monitor's
/// pixel bounds and encodes the intersection; see its contract for the
/// clamping and error policy. The platform call's own outcome depends on
/// the machine, so only the shape of a success is stated here.
pub fn capture_area(rect: Rect) -> (r: Result<Vec<u8>, CaptureError>)
    ensures
        r matches Ok(b) ==> b@.len() >= 8 && b@.subrange(0, 8) == png_signature(),
{
    let img = match raw_capture_at(rect.x, rect.y) {
        Ok((ox, oy, w, h, p)) => match normalize_frame(ox, oy, w, h, p) {
            Ok(img) => img,
            Err(e) => {
                return Err(e);
            },
        },
        Err(e) => {
            return Err(e);
        },
    };
    crop_area_frame(&img, rect)
}

/// For any well-formed capture and any selection inside it, the crop taken
/// for that selection has exactly `4 * w * h` bytes: its pixel dimensions
/// are exactly `(w, h)`.
pub proof fn lemma_crop_dimensions(img: CapturedImage, x: int, y: int, w: int, h: int)
    requires
        img.wf(),
        0 <= x,
        0 <= y,
        0 < w,
        0 < h,
        x + w <= img.width,
        y + h <= img.height,
    ensures
        spec_crop(img.pixels@, img.width as int, x, y, w, h).len() == 4 * w * h,
{
}

} // verus!
