//! TF/microSD card wiring and card-detect logic for the CoreS3.
//!
//! The TF card shares the LCD's SPI signal group: SCLK GPIO36, MOSI GPIO37,
//! MISO GPIO35 and CS GPIO4. The card-detect switch is wired to AW9523B
//! port 0 bit 4 and is active-low.

use vstd::prelude::*;

use crate::bus::bit_is_set;
use crate::pins::{Gpio, SpiSdPins};

verus! {

/// Default SPI clock used for the TF card.
pub const DEFAULT_SPI_HZ: u32 = 25_000_000;
/// AW9523B port-0 bit used for TF card detect.
pub const CARD_DETECT_P0_BIT: u8 = 4;

/// Static TF-card wiring and bus settings.
#[derive(Clone, Copy, Debug, PartialEq, Eq, Structural)]
pub struct SdCardSlot {
    /// SPI pins of the TF card socket.
    pub spi: SpiSdPins,
    /// Recommended maximum SPI clock.
    pub spi_hz: u32,
    /// Card-detect signal on AW9523B input port 0.
    pub detect: SdCardDetect,
}

/// Card-detect wiring.
#[derive(Clone, Copy, Debug, PartialEq, Eq, Structural)]
pub struct SdCardDetect {
    /// AW9523B input port number.
    pub port: u8,
    /// Bit in the input port.
    pub bit: u8,
    /// Whether a low level means that a card is present.
    pub active_low: bool,
}

impl SdCardSlot {
    /// The CoreS3 on-board TF-card slot.
    pub fn core_s3() -> (r: Self)
        ensures
            r == (SdCardSlot {
                spi: SpiSdPins { sclk: Gpio(36), mosi: Gpio(37), miso: Gpio(35), cs: Gpio(4) },
                spi_hz: DEFAULT_SPI_HZ,
                detect: SdCardDetect { port: 0, bit: CARD_DETECT_P0_BIT, active_low: true },
            }),
    {
        SdCardSlot {
            spi: SpiSdPins::tf_card(),
            spi_hz: DEFAULT_SPI_HZ,
            detect: SdCardDetect::aw9523b_p0_4_active_low(),
        }
    }
}

impl SdCardDetect {
    /// CoreS3 TF card detect: AW9523B port 0 bit 4, active-low.
    pub fn aw9523b_p0_4_active_low() -> (r: Self)
        ensures
            r == (SdCardDetect { port: 0, bit: CARD_DETECT_P0_BIT, active_low: true }),
    {
        SdCardDetect { port: 0, bit: CARD_DETECT_P0_BIT, active_low: true }
    }

    /// Whether a raw AW9523B input-port value says that a card is present:
    /// the detect bit's level, inverted for an active-low switch.
    pub fn present_from_port_value(self, value: u8) -> (r: bool)
        requires
            self.bit < 8,
        ensures
            r == (bit_is_set(value, self.bit) != self.active_low),
    {
        let bit = self.bit;
        let high = (value & (1u8 << bit)) != 0;
        assert(((value & (1u8 << bit)) != 0) == ((value >> bit) & 1u8 == 1u8)) by (bit_vector)
            requires
                bit < 8,
        ;
        if self.active_low {
            !high
        } else {
            high
        }
    }
}

/// Runtime SD-slot metadata handed to storage stacks.
#[derive(Clone, Copy, Debug, PartialEq, Eq, Structural)]
pub struct CoreS3SdSlot {
    /// SPI SCLK GPIO number.
    pub sclk_gpio: u8,
    /// SPI MOSI GPIO number.
    pub mosi_gpio: u8,
    /// SPI MISO GPIO number; on CoreS3 this is also the LCD D/C pad.
    pub miso_gpio: u8,
    /// TF-card chip-select GPIO number.
    pub cs_gpio: u8,
    /// Maximum SPI frequency.
    pub max_frequency_hz: u32,
    /// Direct card-detect GPIO; CoreS3 uses the AW9523B instead, so `None`.
    pub card_detect_gpio: Option<u8>,
    /// Direct power-enable GPIO; CoreS3 SD power is board-managed, so `None`.
    pub power_enable_gpio: Option<u8>,
}

/// The runtime metadata of a slot: its SPI GPIO numbers and clock, with no
/// direct card-detect or power-enable GPIO.
pub open spec fn spec_slot_metadata(slot: SdCardSlot) -> CoreS3SdSlot {
    CoreS3SdSlot {
        sclk_gpio: slot.spi.sclk.0,
        mosi_gpio: slot.spi.mosi.0,
        miso_gpio: slot.spi.miso.0,
        cs_gpio: slot.spi.cs.0,
        max_frequency_hz: slot.spi_hz,
        card_detect_gpio: None,
        power_enable_gpio: None,
    }
}

impl CoreS3SdSlot {
    /// Metadata of the on-board CoreS3 TF-card slot.
    pub fn core_s3() -> (r: Self)
        ensures
            r == (CoreS3SdSlot {
                sclk_gpio: 36,
                mosi_gpio: 37,
                miso_gpio: 35,
                cs_gpio: 4,
                max_frequency_hz: DEFAULT_SPI_HZ,
                card_detect_gpio: None,
                power_enable_gpio: None,
            }),
    {
        CoreS3SdSlot {
            sclk_gpio: 36,
            mosi_gpio: 37,
            miso_gpio: 35,
            cs_gpio: 4,
            max_frequency_hz: DEFAULT_SPI_HZ,
            card_detect_gpio: None,
            power_enable_gpio: None,
        }
    }
}

impl From<SdCardSlot> for CoreS3SdSlot {
    fn from(slot: SdCardSlot) -> (r: Self) {
        CoreS3SdSlot {
            sclk_gpio: slot.spi.sclk.0,
            mosi_gpio: slot.spi.mosi.0,
            miso_gpio: slot.spi.miso.0,
            cs_gpio: slot.spi.cs.0,
            max_frequency_hz: slot.spi_hz,
            card_detect_gpio: None,
            power_enable_gpio: None,
        }
    }
}

impl vstd::std_specs::convert::FromSpecImpl<SdCardSlot> for CoreS3SdSlot {
    open spec fn obeys_from_spec() -> bool {
        true
    }

    open spec fn from_spec(slot: SdCardSlot) -> Self {
        spec_slot_metadata(slot)
    }
}

/// The converted metadata of the on-board slot is the on-board slot metadata.
pub proof fn lemma_core_s3_slot_metadata()
    ensures
        spec_slot_metadata(
            SdCardSlot {
                spi: SpiSdPins { sclk: Gpio(36), mosi: Gpio(37), miso: Gpio(35), cs: Gpio(4) },
                spi_hz: DEFAULT_SPI_HZ,
                detect: SdCardDetect { port: 0, bit: CARD_DETECT_P0_BIT, active_low: true },
            },
        ) == (CoreS3SdSlot {
            sclk_gpio: 36,
            mosi_gpio: 37,
            miso_gpio: 35,
            cs_gpio: 4,
            max_frequency_hz: DEFAULT_SPI_HZ,
            card_detect_gpio: None,
            power_enable_gpio: None,
        }),
{
}

/// Low-level SD resources handed out by the board setup: a chip-select
/// scoped SPI device for the TF socket, a delay provider for card
/// initialization, and the slot metadata.
pub struct CoreS3SdParts<SPI, DELAY> {
    pub spi_device: SPI,
    pub delay: DELAY,
    pub slot: CoreS3SdSlot,
}

/// Whether CoreS3's raw AW9523B P0 input byte says that a TF card is present
/// (bit 4 low).
pub fn core_s3_card_present_from_aw9523_p0(value: u8) -> (r: bool)
    ensures
        r == !bit_is_set(value, CARD_DETECT_P0_BIT),
{
    SdCardDetect::aw9523b_p0_4_active_low().present_from_port_value(value)
}

} // verus!
