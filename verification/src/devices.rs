//! Bus addresses and fixed metadata of the CoreS3 on-board devices.

pub mod i2c;
pub mod display;
pub mod camera;
pub mod audio;
