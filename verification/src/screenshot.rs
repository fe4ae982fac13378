//! Manager-style wrapper over the capture layer, kept for callers that
//! prefer an object interface over the free capture functions.

use vstd::prelude::*;

pub use crate::capture::{bgra_to_rgba, capture_area, capture_fullscreen, CaptureError, Rect};

use crate::codec::png_signature;

verus! {

/// Object-style handle over the capture layer.
pub struct ScreenshotManager;

impl ScreenshotManager {
    /// Creates a manager; it carries no state of its own.
    pub fn new() -> (r: Self) {
        ScreenshotManager
    }

    /// Captures the monitor at the global origin and returns PNG bytes.
    pub fn capture_screen(&self) -> (r: Result<Vec<u8>, CaptureError>)
        ensures
            r matches Ok(b) ==> b@.len() >= 8 && b@.subrange(0, 8) == png_signature(),
    {
        capture_fullscreen()
    }

    /// Captures the intersection of the given global rectangle with the
    /// monitor containing its top-left corner and returns PNG bytes. The
    /// clamping and error policy is the contract of
    /// [`crate::capture::crop_area_frame`], which does the post-capture
    /// work.
    pub fn capture_area(&self, x: i32, y: i32, width: u32, height: u32) -> (r: Result<
        Vec<u8>,
        CaptureError,
    >)
        ensures
            r matches Ok(b) ==> b@.len() >= 8 && b@.subrange(0, 8) == png_signature(),
    {
        capture_area(Rect { x, y, width, height })
    }
}

} // verus!
