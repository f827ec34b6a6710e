//! Verified board-support logic for the M5Stack CoreS3.

pub mod bus;
pub mod devices;
pub mod geometry;
pub mod spinel;
pub mod transport;
pub mod sprite;
pub mod power;
pub mod pins;
pub mod sd;
pub mod aw9523b;
pub mod board;
pub mod rtc;
pub mod motion;
pub mod audio;
pub mod display;
pub mod touch;
pub mod ui;
pub mod gateway_h2;
pub mod bsp;
