//! Decision logic of an animated spirograph.
//!
//! The shape coefficients and the curve parameter are held as exact integers
//! (hundredths), so that the generator's progress and the controller's reactions
//! to events can be stated and proved exactly. Evaluating the trigonometric
//! curve formula at a sample, and drawing, are left to the host.
pub mod curve;
pub mod controller;
