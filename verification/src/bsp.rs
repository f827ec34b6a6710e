//! Board bring-up logic of the CoreS3: the register sequence that powers and
//! resets the LCD, and the settings of the display and UART links.
//!
//! The peripherals themselves are configured by the HAL layer, which runs
//! these sequences on the internal I2C bus.

use vstd::prelude::*;

use crate::bus::RegisterStep;
use crate::devices;
use crate::display::{BusConfig, DisplayGeometry, PanelConfig};

verus! {

/// Display SPI write frequency used for the CoreS3 panel.
pub const DISPLAY_SPI_WRITE_HZ: u32 = 40_000_000;
/// CoreS3 internal I2C frequency.
pub const INTERNAL_I2C_HZ: u32 = 400_000;
/// Default CoreS3-to-Gateway-H2 UART baud rate.
pub const GATEWAY_H2_UART_BAUD: u32 = 115_200;

pub const AXP_LDOS_ON_OFF: u8 = 0x90;
pub const AXP_ALDO3_VOLTAGE: u8 = 0x94;
pub const AXP_ALDO4_VOLTAGE: u8 = 0x95;
pub const AXP_DLDO1_VOLTAGE: u8 = 0x99;
pub const AXP_LDO_3V3_CODE: u8 = 28;
pub const AW_OUTPUT_P0: u8 = 0x02;
pub const AW_OUTPUT_P1: u8 = 0x03;
pub const AW_CONFIG_P0: u8 = 0x04;
pub const AW_CONFIG_P1: u8 = 0x05;
pub const AW_GLOBAL_CONTROL: u8 = 0x11;
pub const AW_LED_MODE_P0: u8 = 0x12;
pub const AW_LED_MODE_P1: u8 = 0x13;
/// Bit of AW9523B port 1 that drives the LCD reset line.
pub const AW_LCD_RESET_BIT: u8 = 1;

#[derive(Clone, Copy, Debug, PartialEq, Eq, Structural)]
pub enum BoardInitError {
    I2c,
    Spi,
    Power,
    Display,
    Uart,
    Sd,
}

/// Chip-select guard for a display whose TF-card chip select is owned
/// elsewhere: driving it does nothing.
#[derive(Clone, Copy, Debug, PartialEq, Eq, Structural)]
pub struct NoSdCsGuard;

/// A register step for the device at `address` on the internal bus.
#[derive(Clone, Copy, Debug, PartialEq, Eq, Structural)]
pub struct DeviceStep {
    pub address: u8,
    pub step: RegisterStep,
}

pub open spec fn aw(step: RegisterStep) -> DeviceStep {
    DeviceStep { address: devices::i2c::AW9523B_GPIO_EXPANDER, step }
}

pub open spec fn axp(step: RegisterStep) -> DeviceStep {
    DeviceStep { address: devices::i2c::AXP2101_PMU, step }
}

/// The backlight steps: brightness 0 switches DLDO1 off; any other
/// brightness switches it on at voltage code `(brightness + 641) / 32`.
pub open spec fn spec_backlight_steps(brightness: u8) -> Seq<DeviceStep> {
    if brightness == 0 {
        seq![axp(RegisterStep::WriteBit { register: AXP_LDOS_ON_OFF, bit: 7, value: false })]
    } else {
        seq![
            axp(RegisterStep::WriteBit { register: AXP_LDOS_ON_OFF, bit: 7, value: true }),
            axp(RegisterStep::Write { register: AXP_DLDO1_VOLTAGE, value: ((brightness as int + 641) / 32) as u8 }),
        ]
    }
}

/// The display power-up sequence: AW9523B output levels and pin modes, the
/// AXP2101 LDO rails at 3.3 V, full backlight, then a low pulse on the LCD
/// reset line (10 ms low, 20 ms settle).
pub open spec fn spec_display_power_steps() -> Seq<DeviceStep> {
    seq![
        aw(RegisterStep::WriteBit { register: AW_OUTPUT_P0, bit: 0, value: true }),
        aw(RegisterStep::WriteBit { register: AW_OUTPUT_P0, bit: 2, value: true }),
        aw(RegisterStep::WriteBit { register: AW_OUTPUT_P1, bit: 0, value: true }),
        aw(RegisterStep::WriteBit { register: AW_OUTPUT_P1, bit: 1, value: true }),
        aw(RegisterStep::Write { register: AW_CONFIG_P0, value: 0b0001_1000 }),
        aw(RegisterStep::Write { register: AW_CONFIG_P1, value: 0b0000_1100 }),
        aw(RegisterStep::Write { register: AW_GLOBAL_CONTROL, value: 0b0001_0000 }),
        aw(RegisterStep::Write { register: AW_LED_MODE_P0, value: 0xFF }),
        aw(RegisterStep::Write { register: AW_LED_MODE_P1, value: 0xFF }),
        axp(RegisterStep::Write { register: AXP_LDOS_ON_OFF, value: 0xBF }),
        axp(RegisterStep::Write { register: AXP_ALDO3_VOLTAGE, value: AXP_LDO_3V3_CODE }),
        axp(RegisterStep::Write { register: AXP_ALDO4_VOLTAGE, value: AXP_LDO_3V3_CODE }),
    ] + spec_backlight_steps(255) + seq![
        aw(
            RegisterStep::PulseBitLow {
                register: AW_OUTPUT_P1,
                bit: AW_LCD_RESET_BIT,
                low_ms: 10,
                high_ms: 20,
            },
        ),
    ]
}

fn aw_step(step: RegisterStep) -> (r: DeviceStep)
    ensures
        r == aw(step),
{
    DeviceStep { address: devices::i2c::AW9523B_GPIO_EXPANDER, step }
}

fn axp_step(step: RegisterStep) -> (r: DeviceStep)
    ensures
        r == axp(step),
{
    DeviceStep { address: devices::i2c::AXP2101_PMU, step }
}

/// The steps that set the display backlight.
pub fn set_backlight(brightness: u8) -> (r: Vec<DeviceStep>)
    ensures
        r@ == spec_backlight_steps(brightness),
{
    let mut v: Vec<DeviceStep> = Vec::new();
    if brightness == 0 {
        v.push(axp_step(RegisterStep::WriteBit { register: AXP_LDOS_ON_OFF, bit: 7, value: false }));
    } else {
        let sum: u16 = brightness as u16 + 641;
        let voltage: u16 = sum / 32;
        v.push(axp_step(RegisterStep::WriteBit { register: AXP_LDOS_ON_OFF, bit: 7, value: true }));
        v.push(axp_step(RegisterStep::Write { register: AXP_DLDO1_VOLTAGE, value: voltage as u8 }));
    }
    v
}

/// The steps that power the display rails and reset the panel.
pub fn init_display_power() -> (r: Vec<DeviceStep>)
    ensures
        r@ == spec_display_power_steps(),
{
    let mut v: Vec<DeviceStep> = Vec::new();
    v.push(aw_step(RegisterStep::WriteBit { register: AW_OUTPUT_P0, bit: 0, value: true }));
    v.push(aw_step(RegisterStep::WriteBit { register: AW_OUTPUT_P0, bit: 2, value: true }));
    v.push(aw_step(RegisterStep::WriteBit { register: AW_OUTPUT_P1, bit: 0, value: true }));
    v.push(aw_step(RegisterStep::WriteBit { register: AW_OUTPUT_P1, bit: 1, value: true }));
    v.push(aw_step(RegisterStep::Write { register: AW_CONFIG_P0, value: 0b0001_1000 }));
    v.push(aw_step(RegisterStep::Write { register: AW_CONFIG_P1, value: 0b0000_1100 }));
    v.push(aw_step(RegisterStep::Write { register: AW_GLOBAL_CONTROL, value: 0b0001_0000 }));
    v.push(aw_step(RegisterStep::Write { register: AW_LED_MODE_P0, value: 0xFF }));
    v.push(aw_step(RegisterStep::Write { register: AW_LED_MODE_P1, value: 0xFF }));
    v.push(axp_step(RegisterStep::Write { register: AXP_LDOS_ON_OFF, value: 0xBF }));
    v.push(axp_step(RegisterStep::Write { register: AXP_ALDO3_VOLTAGE, value: AXP_LDO_3V3_CODE }));
    v.push(axp_step(RegisterStep::Write { register: AXP_ALDO4_VOLTAGE, value: AXP_LDO_3V3_CODE }));
    let mut backlight = set_backlight(255);
    v.append(&mut backlight);
    v.push(
        aw_step(
            RegisterStep::PulseBitLow {
                register: AW_OUTPUT_P1,
                bit: AW_LCD_RESET_BIT,
                low_ms: 10,
                high_ms: 20,
            },
        ),
    );
    assert(v@ =~= spec_display_power_steps());
    v
}

/// The bus and panel settings of the CoreS3 display: 40 MHz writes, a
/// 320x240 panel without offsets, colours inverted.
pub fn display_config() -> (r: (BusConfig, PanelConfig))
    ensures
        r.0 == (BusConfig { write_hz: DISPLAY_SPI_WRITE_HZ }),
        r.1 == (PanelConfig {
            invert_colors: true,
            geometry: DisplayGeometry {
                width: devices::display::WIDTH,
                height: devices::display::HEIGHT,
                offset_x: 0,
                offset_y: 0,
            },
        }),
{
    (
        BusConfig { write_hz: DISPLAY_SPI_WRITE_HZ },
        PanelConfig {
            invert_colors: true,
            geometry: DisplayGeometry {
                width: devices::display::WIDTH,
                height: devices::display::HEIGHT,
                offset_x: 0,
                offset_y: 0,
            },
        },
    )
}

} // verus!
