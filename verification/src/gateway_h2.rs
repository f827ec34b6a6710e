//! Board metadata of the M5Stack Gateway H2 (ESP32-H2 co-processor) stack.
//!
//! The module is presented to CoreS3 firmware as an external co-processor on
//! a UART; protocol drivers build on this pin description.

pub mod matter;

use vstd::prelude::*;

use crate::pins::Gpio;

verus! {

#[derive(Clone, Copy, Debug, PartialEq, Eq, Structural)]
pub struct GatewayH2 {
    pub host_uart: UartPins,
    pub reset: Option<Gpio>,
    pub boot: Option<Gpio>,
}

#[derive(Clone, Copy, Debug, PartialEq, Eq, Structural)]
pub struct UartPins {
    pub tx: Gpio,
    pub rx: Gpio,
}

impl GatewayH2 {
    /// UART on Grove port A (TX on pin 1, RX on pin 2), without reset or
    /// boot-mode lines. Validate against the exact base revision before
    /// automating bootloader resets.
    pub fn grove_uart() -> (r: Self)
        ensures
            r == (GatewayH2 { host_uart: UartPins { tx: Gpio(1), rx: Gpio(2) }, reset: None, boot: None }),
    {
        let port = crate::pins::GrovePortPins::port_a();
        GatewayH2 { host_uart: UartPins { tx: port.pin1, rx: port.pin2 }, reset: None, boot: None }
    }
}

} // verus!
