//! Audio codec metadata.

use vstd::prelude::*;

verus! {

pub const ADC: &'static str = "ES7210";
pub const AMPLIFIER: &'static str = "AW88298";

} // verus!
