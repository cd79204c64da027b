//! What the picker does with the screen: locating the display under the
//! cursor, choosing the area to capture and reducing the captured image.

pub mod average;
pub mod cursor_color;
pub mod screenshot;
pub mod tip;
