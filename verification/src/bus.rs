//! Register-level exchanges with the board's I2C devices.
//!
//! Drivers in this crate decide *what* to write to a device as a list of
//! [`RegisterStep`]s and decode the raw bytes that a read returned; the bus
//! transfers themselves are performed by the caller.

use vstd::prelude::*;

verus! {

/// One step of a register exchange with an I2C device.
#[derive(Clone, Copy, Debug, PartialEq, Eq, Structural)]
pub enum RegisterStep {
    /// Write `value` to the 8-bit register `register` (bytes `[register, value]`).
    Write { register: u8, value: u8 },
    /// Read `register`, set (`value == true`) or clear bit `bit` of it, and
    /// write the result back; see [`updated_bit`].
    WriteBit { register: u8, bit: u8, value: bool },
    /// Write the 16-bit `value` to `register`, high byte first
    /// (bytes `[register, value >> 8, value & 0xFF]`).
    Write16 { register: u8, value: u16 },
    /// Wait for the given number of milliseconds before the next step.
    DelayMs { ms: u32 },
    /// Read `register` once, write it back with bit `bit` cleared, wait
    /// `low_ms`, write it back with the bit set, and wait `high_ms`; see
    /// [`pulse_values`].
    PulseBitLow { register: u8, bit: u8, low_ms: u32, high_ms: u32 },
}

/// Whether bit `i` of `x` is set.
pub open spec fn bit_is_set(x: u8, i: u8) -> bool {
    (x >> i) & 1u8 == 1u8
}

/// The register value that a read-modify-write of one bit produces:
/// bit `bit` becomes `value`, every other bit keeps its value in `current`.
pub open spec fn spec_updated_bit(current: u8, bit: u8, value: bool) -> u8 {
    if value {
        current | (1u8 << bit)
    } else {
        current & !(1u8 << bit)
    }
}

/// Computes the value written back by a [`RegisterStep::WriteBit`] step.
pub fn updated_bit(current: u8, bit: u8, value: bool) -> (r: u8)
    requires
        bit < 8,
    ensures
        r == spec_updated_bit(current, bit, value),
        bit_is_set(r, bit) == value,
        forall|i: u8| i < 8 && i != bit ==> bit_is_set(r, i) == bit_is_set(current, i),
{
    proof {
        lemma_updated_bit(current, bit, value);
    }
    let mask: u8 = 1u8 << bit;
    if value {
        current | mask
    } else {
        current & !mask
    }
}

/// The two values written by a [`RegisterStep::PulseBitLow`] step, from the
/// value read once before it: first with the bit cleared, then with it set.
pub fn pulse_values(current: u8, bit: u8) -> (r: (u8, u8))
    requires
        bit < 8,
    ensures
        r.0 == spec_updated_bit(current, bit, false),
        r.1 == spec_updated_bit(current, bit, true),
{
    (updated_bit(current, bit, false), updated_bit(current, bit, true))
}

/// A one-bit read-modify-write sets exactly the chosen bit to the requested
/// level and leaves the other seven bits as they were.
pub proof fn lemma_updated_bit(current: u8, bit: u8, value: bool)
    requires
        bit < 8,
    ensures
        bit_is_set(spec_updated_bit(current, bit, value), bit) == value,
        forall|i: u8|
            i < 8 && i != bit ==> bit_is_set(spec_updated_bit(current, bit, value), i)
                == bit_is_set(current, i),
{
    let r = spec_updated_bit(current, bit, value);
    if value {
        assert(((current | (1u8 << bit)) >> bit) & 1u8 == 1u8) by (bit_vector)
            requires
                bit < 8,
        ;
        assert forall|i: u8| i < 8 && i != bit implies bit_is_set(r, i) == bit_is_set(current, i) by {
            assert(((current | (1u8 << bit)) >> i) & 1u8 == (current >> i) & 1u8) by (bit_vector)
                requires
                    bit < 8,
                    i < 8,
                    i != bit,
            ;
        }
    } else {
        assert(((current & !(1u8 << bit)) >> bit) & 1u8 == 0u8) by (bit_vector)
            requires
                bit < 8,
        ;
        assert forall|i: u8| i < 8 && i != bit implies bit_is_set(r, i) == bit_is_set(current, i) by {
            assert(((current & !(1u8 << bit)) >> i) & 1u8 == (current >> i) & 1u8) by (bit_vector)
                requires
                    bit < 8,
                    i < 8,
                    i != bit,
            ;
        }
    }
}

} // verus!
