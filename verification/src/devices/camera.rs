//! Camera sensor metadata.

use vstd::prelude::*;

verus! {

pub const SENSOR: &'static str = "GC0308";
pub const WIDTH: u16 = 640;
pub const HEIGHT: u16 = 480;

} // verus!
