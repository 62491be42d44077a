//! Window backdrop effects (blur, acrylic, Mica) on Windows, decided per system version.
//!
//! The library decides, for a reported system version, which compositor calls
//! apply an effect to a window and with which arguments; the caller performs them.

pub mod accent;
pub mod backdrop;
pub mod version;
