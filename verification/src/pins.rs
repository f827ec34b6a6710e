//! ESP32-S3 GPIO assignments of the CoreS3 board.

use vstd::prelude::*;

verus! {

/// ESP32-S3 GPIO number.
#[derive(Clone, Copy, Debug, PartialEq, Eq, Structural, PartialOrd, Ord, Hash)]
pub struct Gpio(pub u8);

#[derive(Clone, Copy, Debug, PartialEq, Eq, Structural)]
pub struct I2cBusPins {
    pub sda: Gpio,
    pub scl: Gpio,
}

impl I2cBusPins {
    /// Internal CoreS3 peripheral bus: PMU, RTC, IMU, magnetometer, ALS/prox
    /// and the AW9523B GPIO expander.
    pub fn internal() -> (r: Self)
        ensures
            r == (I2cBusPins { sda: Gpio(12), scl: Gpio(11) }),
    {
        I2cBusPins { sda: Gpio(12), scl: Gpio(11) }
    }
}

#[derive(Clone, Copy, Debug, PartialEq, Eq, Structural)]
pub struct SpiDisplayPins {
    pub sclk: Gpio,
    pub mosi: Gpio,
    pub dc: Gpio,
    pub cs: Gpio,
    pub reset: Option<Gpio>,
    pub backlight: Option<Gpio>,
}

impl SpiDisplayPins {
    /// LCD SPI bus and control lines. Backlight and reset go through the
    /// board's power and GPIO-expander path, so no direct GPIO drives them.
    pub fn lcd() -> (r: Self)
        ensures
            r == (SpiDisplayPins {
                sclk: Gpio(36),
                mosi: Gpio(37),
                dc: Gpio(35),
                cs: Gpio(3),
                reset: None,
                backlight: None,
            }),
    {
        SpiDisplayPins {
            sclk: Gpio(36),
            mosi: Gpio(37),
            dc: Gpio(35),
            cs: Gpio(3),
            reset: None,
            backlight: None,
        }
    }
}

#[derive(Clone, Copy, Debug, PartialEq, Eq, Structural)]
pub struct SpiSdPins {
    pub sclk: Gpio,
    pub mosi: Gpio,
    pub miso: Gpio,
    pub cs: Gpio,
}

impl SpiSdPins {
    /// TF/microSD socket on the SPI signal group shared with the LCD.
    pub fn tf_card() -> (r: Self)
        ensures
            r == (SpiSdPins { sclk: Gpio(36), mosi: Gpio(37), miso: Gpio(35), cs: Gpio(4) }),
    {
        SpiSdPins { sclk: Gpio(36), mosi: Gpio(37), miso: Gpio(35), cs: Gpio(4) }
    }
}

#[derive(Clone, Copy, Debug, PartialEq, Eq, Structural)]
pub struct I2sAudioPins {
    pub mclk: Gpio,
    pub bclk: Gpio,
    pub lrclk: Gpio,
    pub dout: Gpio,
    pub din: Gpio,
}

impl I2sAudioPins {
    /// I2S wiring shared by the ES7210 microphone ADC and the AW88298 amplifier.
    pub fn codecs() -> (r: Self)
        ensures
            r == (I2sAudioPins {
                mclk: Gpio(0),
                bclk: Gpio(34),
                lrclk: Gpio(33),
                dout: Gpio(13),
                din: Gpio(14),
            }),
    {
        I2sAudioPins { mclk: Gpio(0), bclk: Gpio(34), lrclk: Gpio(33), dout: Gpio(13), din: Gpio(14) }
    }
}

#[derive(Clone, Copy, Debug, PartialEq, Eq)]
pub struct CameraPins {
    pub xclk: Gpio,
    pub pclk: Gpio,
    pub vsync: Gpio,
    pub href: Gpio,
    pub reset: Option<Gpio>,
    pub data: [Gpio; 8],
}

impl CameraPins {
    /// GC0308 DVP camera signal pins.
    pub fn gc0308() -> (r: Self)
        ensures
            r.xclk == Gpio(15),
            r.pclk == Gpio(39),
            r.vsync == Gpio(38),
            r.href == Gpio(47),
            r.reset is None,
            r.data@ == seq![
                Gpio(48),
                Gpio(17),
                Gpio(18),
                Gpio(16),
                Gpio(8),
                Gpio(9),
                Gpio(10),
                Gpio(46),
            ],
    {
        CameraPins {
            xclk: Gpio(15),
            pclk: Gpio(39),
            vsync: Gpio(38),
            href: Gpio(47),
            reset: None,
            data: [Gpio(48), Gpio(17), Gpio(18), Gpio(16), Gpio(8), Gpio(9), Gpio(10), Gpio(46)],
        }
    }
}

#[derive(Clone, Copy, Debug, PartialEq, Eq, Structural)]
pub struct GrovePortPins {
    pub pin1: Gpio,
    pub pin2: Gpio,
}

impl GrovePortPins {
    /// HY2.0-4P Grove port A.
    pub fn port_a() -> (r: Self)
        ensures
            r == (GrovePortPins { pin1: Gpio(1), pin2: Gpio(2) }),
    {
        GrovePortPins { pin1: Gpio(1), pin2: Gpio(2) }
    }
}

} // verus!
