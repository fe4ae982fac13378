//! Interactive screen-snip core: screen capture normalization, an overlay
//! selection state machine with resize-handle hit testing and action-bar
//! layout, frame compositing over a dimmed backdrop, and pinned floating
//! snapshot windows.
//!
//! - [`capture`] / [`screenshot`]: acquiring and normalizing monitor frames.
//! - [`pixel`]: channel packing, dimming, cropping.
//! - [`codec`]: PNG encode/decode behind trusted wrappers.
//! - [`drawing`] / [`toolbar`] / [`handles`]: raster primitives, the action
//!   bar, and resize-handle hit testing.
//! - [`overlay`]: the selection session itself.
//! - [`paste_window`]: pinned snapshot windows.

pub mod capture;
pub mod codec;
pub mod drawing;
pub mod geom;
pub mod handles;
pub mod overlay;
pub mod paste_window;
pub mod pixel;
pub mod screenshot;
pub mod toolbar;

pub use pixel::bgra_to_rgba;
