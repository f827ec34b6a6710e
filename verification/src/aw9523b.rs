//! AW9523B I/O expander logic used by the CoreS3 power and reset paths.

use vstd::prelude::*;

use crate::bus::RegisterStep;
use crate::devices;

verus! {

pub const REG_INPUT_P0: u8 = 0x00;
pub const REG_INPUT_P1: u8 = 0x01;
pub const REG_OUTPUT_P0: u8 = 0x02;
pub const REG_OUTPUT_P1: u8 = 0x03;
pub const REG_CONFIG_P0: u8 = 0x04;
pub const REG_CONFIG_P1: u8 = 0x05;
pub const REG_GLOBAL_CONTROL: u8 = 0x11;
pub const REG_LED_MODE_P0: u8 = 0x12;
pub const REG_LED_MODE_P1: u8 = 0x13;

#[derive(Clone, Copy, Debug, PartialEq, Eq, Structural)]
pub enum Port {
    P0,
    P1,
}

#[derive(Clone, Copy, Debug, PartialEq, Eq, Structural)]
pub struct ExpanderPin {
    pub port: Port,
    pub index: u8,
}

impl ExpanderPin {
    /// The LCD reset line: port 1, pin 1.
    pub fn lcd_reset() -> (r: Self)
        ensures
            r == (ExpanderPin { port: Port::P1, index: 1 }),
    {
        ExpanderPin { port: Port::P1, index: 1 }
    }
}

/// The output register of a port.
pub open spec fn spec_output_register(port: Port) -> u8 {
    match port {
        Port::P0 => REG_OUTPUT_P0,
        Port::P1 => REG_OUTPUT_P1,
    }
}

/// The input register of a port.
pub open spec fn spec_input_register(port: Port) -> u8 {
    match port {
        Port::P0 => REG_INPUT_P0,
        Port::P1 => REG_INPUT_P1,
    }
}

fn output_register(port: Port) -> (r: u8)
    ensures
        r == spec_output_register(port),
{
    match port {
        Port::P0 => REG_OUTPUT_P0,
        Port::P1 => REG_OUTPUT_P1,
    }
}

/// AW9523B driver state: the I2C bus it owns and the device address.
///
/// The driver decides which registers to write; the caller performs the
/// transfers on the bus.
pub struct Aw9523b<I2C> {
    i2c: I2C,
    address: u8,
}

impl<I2C> Aw9523b<I2C> {
    pub closed spec fn spec_bus(&self) -> I2C {
        self.i2c
    }

    pub closed spec fn spec_address(&self) -> u8 {
        self.address
    }

    pub fn new(i2c: I2C) -> (r: Self)
        ensures
            r.spec_bus() == i2c,
            r.spec_address() == devices::i2c::AW9523B_GPIO_EXPANDER,
    {
        Aw9523b { i2c, address: devices::i2c::AW9523B_GPIO_EXPANDER }
    }

    pub fn release(self) -> (r: I2C)
        ensures
            r == self.spec_bus(),
    {
        self.i2c
    }

    /// The bus, for performing the transfers this driver plans.
    pub fn bus_mut(&mut self) -> (r: &mut I2C)
        ensures
            *r == old(self).spec_bus(),
            final(self).spec_bus() == *final(r),
            final(self).spec_address() == old(self).spec_address(),
    {
        &mut self.i2c
    }

    pub fn address(&self) -> (r: u8)
        ensures
            r == self.spec_address(),
    {
        self.address
    }

    /// The step that writes `value` to `register`.
    pub fn write_register(&self, register: u8, value: u8) -> (r: Vec<RegisterStep>)
        ensures
            r@ == seq![RegisterStep::Write { register, value }],
    {
        let mut v: Vec<RegisterStep> = Vec::new();
        v.push(RegisterStep::Write { register, value });
        v
    }

    /// The step that sets (`value`) or clears bit `bit` of `register`,
    /// keeping its other bits.
    pub fn write_bit(&self, register: u8, bit: u8, value: bool) -> (r: Vec<RegisterStep>)
        requires
            bit < 8,
        ensures
            r@ == seq![RegisterStep::WriteBit { register, bit, value }],
    {
        let mut v: Vec<RegisterStep> = Vec::new();
        v.push(RegisterStep::WriteBit { register, bit, value });
        v
    }

    /// The CoreS3 start-up sequence: drive P0.0, P0.2, P1.0 and P1.1 high,
    /// set the port directions, push-pull mode for port 0, and GPIO (not LED)
    /// mode on every pin.
    pub fn init_core_s3_defaults(&self) -> (r: Vec<RegisterStep>)
        ensures
            r@ == seq![
                RegisterStep::WriteBit { register: REG_OUTPUT_P0, bit: 0, value: true },
                RegisterStep::WriteBit { register: REG_OUTPUT_P0, bit: 2, value: true },
                RegisterStep::WriteBit { register: REG_OUTPUT_P1, bit: 0, value: true },
                RegisterStep::WriteBit { register: REG_OUTPUT_P1, bit: 1, value: true },
                RegisterStep::Write { register: REG_CONFIG_P0, value: 0b0001_1000 },
                RegisterStep::Write { register: REG_CONFIG_P1, value: 0b0000_1100 },
                RegisterStep::Write { register: REG_GLOBAL_CONTROL, value: 0b0001_0000 },
                RegisterStep::Write { register: REG_LED_MODE_P0, value: 0xFF },
                RegisterStep::Write { register: REG_LED_MODE_P1, value: 0xFF },
            ],
    {
        let mut v: Vec<RegisterStep> = Vec::new();
        v.push(RegisterStep::WriteBit { register: REG_OUTPUT_P0, bit: 0, value: true });
        v.push(RegisterStep::WriteBit { register: REG_OUTPUT_P0, bit: 2, value: true });
        v.push(RegisterStep::WriteBit { register: REG_OUTPUT_P1, bit: 0, value: true });
        v.push(RegisterStep::WriteBit { register: REG_OUTPUT_P1, bit: 1, value: true });
        v.push(RegisterStep::Write { register: REG_CONFIG_P0, value: 0b0001_1000 });
        v.push(RegisterStep::Write { register: REG_CONFIG_P1, value: 0b0000_1100 });
        v.push(RegisterStep::Write { register: REG_GLOBAL_CONTROL, value: 0b0001_0000 });
        v.push(RegisterStep::Write { register: REG_LED_MODE_P0, value: 0xFF });
        v.push(RegisterStep::Write { register: REG_LED_MODE_P1, value: 0xFF });
        v
    }

    /// The step that drives one expander pin high or low.
    pub fn set_output(&self, pin: ExpanderPin, high: bool) -> (r: Vec<RegisterStep>)
        requires
            pin.index < 8,
        ensures
            r@ == seq![
                RegisterStep::WriteBit {
                    register: spec_output_register(pin.port),
                    bit: pin.index,
                    value: high,
                },
            ],
    {
        let mut v: Vec<RegisterStep> = Vec::new();
        v.push(RegisterStep::WriteBit { register: output_register(pin.port), bit: pin.index, value: high });
        v
    }

    /// The register that holds the input levels of a port.
    pub fn input_port_register(&self, port: Port) -> (r: u8)
        ensures
            r == spec_input_register(port),
    {
        match port {
            Port::P0 => REG_INPUT_P0,
            Port::P1 => REG_INPUT_P1,
        }
    }
}

} // verus!
