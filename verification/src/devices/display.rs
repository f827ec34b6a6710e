//! Display geometry and controller metadata.

use vstd::prelude::*;

verus! {

pub const WIDTH: u16 = 320;
pub const HEIGHT: u16 = 240;
pub const CONTROLLER: &'static str = "ILI9342C-compatible SPI TFT";

} // verus!
