//! Types that describe cameras, their formats and controls, and the conversion of camera
//! frames to RGB888.

pub mod backend;
pub mod control;
pub mod convert;
pub mod error;
pub mod format;
pub mod info;
pub mod mjpeg;
pub mod order;
pub mod text;
