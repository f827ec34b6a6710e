//! Addresses on the shared internal I2C bus.

use vstd::prelude::*;

verus! {

pub const AXP2101_PMU: u8 = 0x34;
pub const BM8563_RTC: u8 = 0x51;
pub const BMI270_IMU: u8 = 0x68;
pub const BMM150_MAGNETOMETER: u8 = 0x10;
pub const LTR553_ALS_PROX: u8 = 0x23;
pub const AW9523B_GPIO_EXPANDER: u8 = 0x58;
pub const ES7210_ADC: u8 = 0x40;
pub const AW88298_AMPLIFIER: u8 = 0x36;
pub const FT6336U_TOUCH: u8 = 0x38;

} // verus!
