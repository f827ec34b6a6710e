//! Static description of the M5Stack CoreS3 board.

use vstd::prelude::*;

use crate::devices;
use crate::pins::{CameraPins, Gpio, I2cBusPins, I2sAudioPins, SpiDisplayPins, SpiSdPins};
use crate::sd::{SdCardDetect, SdCardSlot, CARD_DETECT_P0_BIT, DEFAULT_SPI_HZ};

verus! {

/// Static description of the board variant supported by this crate.
#[derive(Clone, Copy, Debug, PartialEq, Eq)]
pub struct Board {
    pub name: &'static str,
    pub chip: &'static str,
    pub psram: MemorySize,
    pub flash: MemorySize,
    pub display: DisplaySpec,
    pub i2c: I2cBusPins,
    pub spi_display: SpiDisplayPins,
    pub sd: SdCardSlot,
    pub camera: CameraPins,
    pub i2s: I2sAudioPins,
}

#[derive(Clone, Copy, Debug, PartialEq, Eq, Structural)]
pub struct MemorySize {
    pub bytes: usize,
}

/// Bytes in one mebibyte.
pub const MIB: usize = 1024 * 1024;

impl MemorySize {
    /// A size of `mib` mebibytes.
    pub fn mib(mib: usize) -> (r: Self)
        requires
            mib * MIB <= usize::MAX,
        ensures
            r.bytes == mib * MIB,
    {
        MemorySize { bytes: mib * MIB }
    }
}

#[derive(Clone, Copy, Debug, PartialEq, Eq)]
pub struct DisplaySpec {
    pub width: u16,
    pub height: u16,
    pub controller: &'static str,
    pub color_order: ColorOrder,
}

#[derive(Clone, Copy, Debug, PartialEq, Eq, Structural)]
pub enum ColorOrder {
    Rgb,
    Bgr,
}

/// The M5Stack CoreS3 K128 board.
pub struct CoreS3;

impl CoreS3 {
    /// The CoreS3 K128: ESP32-S3R8 with 8 MiB PSRAM and 16 MiB flash, a
    /// 320x240 BGR panel, and the pin assignments of [`crate::pins`].
    pub fn board() -> (r: Board)
        ensures
            r.name@ == "M5Stack CoreS3 K128"@,
            r.chip@ == "ESP32-S3R8"@,
            r.psram.bytes == 8 * MIB,
            r.flash.bytes == 16 * MIB,
            r.display.width == devices::display::WIDTH,
            r.display.height == devices::display::HEIGHT,
            r.display.controller@ == devices::display::CONTROLLER@,
            r.display.color_order == ColorOrder::Bgr,
            r.i2c == (I2cBusPins { sda: Gpio(12), scl: Gpio(11) }),
            r.spi_display == (SpiDisplayPins {
                sclk: Gpio(36),
                mosi: Gpio(37),
                dc: Gpio(35),
                cs: Gpio(3),
                reset: None,
                backlight: None,
            }),
            r.sd == (SdCardSlot {
                spi: SpiSdPins { sclk: Gpio(36), mosi: Gpio(37), miso: Gpio(35), cs: Gpio(4) },
                spi_hz: DEFAULT_SPI_HZ,
                detect: SdCardDetect { port: 0, bit: CARD_DETECT_P0_BIT, active_low: true },
            }),
            r.camera.xclk == Gpio(15),
            r.camera.pclk == Gpio(39),
            r.camera.vsync == Gpio(38),
            r.camera.href == Gpio(47),
            r.camera.reset is None,
            r.camera.data@ == seq![
                Gpio(48),
                Gpio(17),
                Gpio(18),
                Gpio(16),
                Gpio(8),
                Gpio(9),
                Gpio(10),
                Gpio(46),
            ],
            r.i2s == (I2sAudioPins {
                mclk: Gpio(0),
                bclk: Gpio(34),
                lrclk: Gpio(33),
                dout: Gpio(13),
                din: Gpio(14),
            }),
    {
        Board {
            name: "M5Stack CoreS3 K128",
            chip: "ESP32-S3R8",
            psram: MemorySize::mib(8),
            flash: MemorySize::mib(16),
            display: DisplaySpec {
                width: devices::display::WIDTH,
                height: devices::display::HEIGHT,
                controller: devices::display::CONTROLLER,
                color_order: ColorOrder::Bgr,
            },
            i2c: I2cBusPins::internal(),
            spi_display: SpiDisplayPins::lcd(),
            sd: SdCardSlot::core_s3(),
            camera: CameraPins::gc0308(),
            i2s: I2sAudioPins::codecs(),
        }
    }
}

} // verus!
