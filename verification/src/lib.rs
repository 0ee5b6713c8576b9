//! Minami shows a text as a QR code and reads a QR code off the screen.
//!
//! This crate is the part that decides things; the window, the capture
//! device, the scheduler and the symbol recognizer belong to the host. A scan
//! runs through the modules in this order:
//!
//! - [`screenshot`]: the capture session on the primary display and the task
//!   that polls it, one attempt per scheduler tick, until a frame is there or
//!   the device has failed;
//! - [`frame`]: the captured image, which is always complete;
//! - [`decoder`]: the luminance image of a frame, in which the host locates
//!   symbol candidates, and from those candidates to the text;
//! - [`application`]: the application's state, the messages that change it,
//!   and what a finished scan is turned into;
//! - [`style`]: the look of the buttons.

pub mod application;
pub mod decoder;
pub mod frame;
pub mod screenshot;
pub mod style;
