//! Output devices.

pub mod drm;
pub mod formats;
pub mod laws;
pub mod modes;
pub mod setup;
pub mod sorting;
pub mod udev;
