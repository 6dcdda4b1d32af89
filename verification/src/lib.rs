//! A camera capture pipeline, decided here and driven from outside.
//!
//! The library holds what is decided when a camera is opened and its frames
//! are pulled, written and shown; the multimedia toolkit, the files and the
//! threads belong to the program that drives it.
//!
//! - [`open`] and [`options`]: opening a camera step by step.
//! - [`camera`]: the pull protocol of an open stream; [`trace`]: what holds
//!   of every run of it.
//! - [`frame`] and [`pixel`]: decoded pictures and their formats.
//! - [`ppm`] and [`decimal`]: portable pixmaps, written and read back.
//! - [`batch`]: numbering and writing every frame of a stream.
//! - [`bridge`]: a capture worker and a window that shows the newest frame.
//! - [`listing`] and [`text`]: lines for people to read.

pub mod batch;
pub mod bridge;
pub mod camera;
pub mod decimal;
pub mod frame;
pub mod listing;
pub mod open;
pub mod options;
pub mod pixel;
pub mod ppm;
pub mod text;
pub mod trace;
