//! Cross-platform computer control primitives: the verified core.
//!
//! The library decides, for every request, what a platform backend has to do
//! (which input events, in which order) and computes the pixel data that a
//! screenshot is made of. The backends that talk to the operating system live
//! outside this crate and carry out the plans computed here.

mod error;
pub mod input;
pub mod computer;
pub mod pixels;
pub mod compose;
pub mod desktop;
pub mod encode;

pub use computer::{ClipboardRequest, Computer, InputPlan, InputStep, Platform, PointRole};
pub use error::Error;
pub use input::{Key, MouseButton};
