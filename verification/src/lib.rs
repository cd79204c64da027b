//! Colorose: the logic of a screen colour picker.
//!
//! The crate holds what the picker decides and computes; a program around it
//! asks the system for the cursor and the pixels and draws the panel.
//!
//! - `model` has the values: positions, colours and their forms as hue,
//!   saturation and lightness or value, the two sizes a user can set, and the
//!   mode of the colour wheel.
//! - `service` has one look at the screen: which display the cursor is on,
//!   which square of it to capture, how a capture becomes the picked colour
//!   and the preview, and where the floating tip goes next.
//! - `state` has the state that the sampling loop writes and the panel reads,
//!   with the rule that a sample that changes nothing is not written.

pub mod model;
pub mod service;
pub mod state;
