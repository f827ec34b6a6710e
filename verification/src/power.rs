//! Battery and power logic for the CoreS3 AXP2101 PMIC.
//!
//! The state of charge comes from the AXP2101 battery-level register when it
//! holds a valid percentage; a voltage-derived percentage is only a coarse
//! fallback, because LiPo voltage depends on load, age, temperature and the
//! charge history.

use vstd::prelude::*;

use crate::bus::RegisterStep;
use crate::devices;

verus! {

pub const REG_STATUS1: u8 = 0x00;
pub const REG_STATUS2: u8 = 0x01;
pub const REG_DATA_BUFFER0: u8 = 0x04;
pub const REG_POWER_OFF: u8 = 0x10;
pub const REG_LDOS_ON_OFF: u8 = 0x90;
pub const REG_ALDO3_VOLTAGE: u8 = 0x94;
pub const REG_ALDO4_VOLTAGE: u8 = 0x95;
pub const REG_DLDO1_VOLTAGE: u8 = 0x99;
pub const REG_BATTERY_VOLTAGE_H: u8 = 0x34;
pub const REG_BATTERY_VOLTAGE_L: u8 = 0x35;
pub const REG_BATTERY_LEVEL: u8 = 0xA4;
pub const STATUS1_BATTERY_PRESENT: u8 = 0x08;
pub const STATUS1_VBUS_GOOD: u8 = 0x20;
/// LDO voltage code for 3.3 V (steps of 100 mV from 0.5 V).
pub const LDO_3V3_CODE: u8 = 28;
/// Default low-battery threshold in millivolts.
pub const DEFAULT_LOW_BATTERY_MV: u16 = 3_500;

/// Battery charging state reported or inferred from the PMIC.
#[derive(Clone, Copy, Debug, PartialEq, Eq, Structural)]
pub enum ChargeState {
    Unknown,
    Discharging,
    Charging,
    Full,
}

/// External input power state.
#[derive(Clone, Copy, Debug, PartialEq, Eq, Structural)]
pub enum ExternalPower {
    Unknown,
    Disconnected,
    Connected,
}

/// Low-battery threshold in millivolts.
#[derive(Clone, Copy, Debug, PartialEq, Eq, Structural)]
pub struct LowBatteryThreshold {
    pub millivolts: u16,
}

impl Default for LowBatteryThreshold {
    /// The 3.5 V threshold used unless the application picks another.
    fn default() -> (r: Self)
        ensures
            r.millivolts == DEFAULT_LOW_BATTERY_MV,
    {
        LowBatteryThreshold { millivolts: DEFAULT_LOW_BATTERY_MV }
    }
}

/// High-level battery/power status for UI and application policy.
#[derive(Clone, Copy, Debug, PartialEq, Eq, Structural)]
pub struct BatteryStatus {
    pub millivolts: u16,
    /// Battery percentage: the AXP2101 gauge value when `state_of_charge` is
    /// `Some(_)`, a coarse voltage estimate otherwise.
    pub percentage: u8,
    pub charge_state: ChargeState,
    pub external_power: ExternalPower,
    pub low_battery: bool,
    /// True when `percentage` is derived from voltage instead of the gauge.
    pub percentage_estimated: bool,
    /// Preferred battery state of charge from AXP2101 register `0xA4`.
    pub state_of_charge: Option<u8>,
    /// Battery presence decoded from AXP2101 status register `0x00` bit `0x08`.
    pub battery_present: Option<bool>,
}

/// Voltage-only LiPo percentage estimate, as a step table over millivolts.
pub open spec fn lipo_percentage(mv: int) -> int {
    if mv >= 4200 {
        100
    } else if mv >= 4100 {
        90
    } else if mv >= 4000 {
        80
    } else if mv >= 3920 {
        70
    } else if mv >= 3850 {
        60
    } else if mv >= 3790 {
        50
    } else if mv >= 3740 {
        40
    } else if mv >= 3700 {
        30
    } else if mv >= 3610 {
        20
    } else if mv >= 3500 {
        10
    } else if mv >= 3300 {
        5
    } else {
        0
    }
}

/// The status assembled from one set of PMIC readings.
pub open spec fn spec_battery_status(
    millivolts: u16,
    charge_state: ChargeState,
    external_power: ExternalPower,
    threshold: LowBatteryThreshold,
    state_of_charge: Option<u8>,
    battery_present: Option<bool>,
) -> BatteryStatus {
    BatteryStatus {
        millivolts,
        percentage: match state_of_charge {
            Some(v) => v,
            None => lipo_percentage(millivolts as int) as u8,
        },
        charge_state,
        external_power,
        low_battery: millivolts <= threshold.millivolts,
        percentage_estimated: state_of_charge is None,
        state_of_charge,
        battery_present,
    }
}

impl BatteryStatus {
    /// Status from a voltage and a charge state alone, with the default
    /// low-battery threshold and a voltage-estimated percentage.
    pub fn new(millivolts: u16, charge_state: ChargeState) -> (r: Self)
        ensures
            r == spec_battery_status(
                millivolts,
                charge_state,
                ExternalPower::Unknown,
                LowBatteryThreshold { millivolts: DEFAULT_LOW_BATTERY_MV },
                None,
                None,
            ),
    {
        BatteryStatus {
            millivolts,
            percentage: estimate_lipo_percentage(millivolts),
            charge_state,
            external_power: ExternalPower::Unknown,
            low_battery: millivolts <= DEFAULT_LOW_BATTERY_MV,
            percentage_estimated: true,
            state_of_charge: None,
            battery_present: None,
        }
    }

    /// Status with the external power state and a chosen threshold, with a
    /// voltage-estimated percentage.
    pub fn with_power(
        millivolts: u16,
        charge_state: ChargeState,
        external_power: ExternalPower,
        threshold: LowBatteryThreshold,
    ) -> (r: Self)
        ensures
            r == spec_battery_status(
                millivolts,
                charge_state,
                external_power,
                threshold,
                None,
                None,
            ),
    {
        Self::with_power_and_soc(millivolts, charge_state, external_power, threshold, None, None)
    }

    /// Status that prefers the gauge state of charge over the voltage estimate.
    pub fn with_power_and_soc(
        millivolts: u16,
        charge_state: ChargeState,
        external_power: ExternalPower,
        threshold: LowBatteryThreshold,
        state_of_charge: Option<u8>,
        battery_present: Option<bool>,
    ) -> (r: Self)
        ensures
            r == spec_battery_status(
                millivolts,
                charge_state,
                external_power,
                threshold,
                state_of_charge,
                battery_present,
            ),
    {
        let voltage_estimate = estimate_lipo_percentage(millivolts);
        let percentage = match state_of_charge {
            Some(value) => value,
            None => voltage_estimate,
        };
        BatteryStatus {
            millivolts,
            percentage,
            charge_state,
            external_power,
            low_battery: millivolts <= threshold.millivolts,
            percentage_estimated: state_of_charge.is_none(),
            state_of_charge,
            battery_present,
        }
    }
}

/// The weight that a smoother with configured weight `w` gives a new sample,
/// in percent: `w` limited to `1..=100`.
pub open spec fn effective_weight(w: u8) -> int {
    if w < 1 {
        1
    } else if w > 100 {
        100
    } else {
        w as int
    }
}

/// The next smoothed value after `sample` arrives when the smoother held `previous`.
pub open spec fn smoothed(previous: Option<u16>, sample: u16, weight_new: u8) -> u16 {
    match previous {
        None => sample,
        Some(current) => ((current * (100 - effective_weight(weight_new)) + sample
            * effective_weight(weight_new)) / 100) as u16,
    }
}

/// Integer exponential moving average for battery voltage readings.
#[derive(Clone, Copy, Debug, PartialEq, Eq, Structural)]
pub struct VoltageSmoother {
    value_mv: Option<u16>,
    weight_new: u8,
}

impl VoltageSmoother {
    /// The current smoothed value, if any sample has arrived.
    pub closed spec fn spec_value(&self) -> Option<u16> {
        self.value_mv
    }

    /// The configured weight of a new sample, in percent.
    pub closed spec fn spec_weight(&self) -> u8 {
        self.weight_new
    }

    pub fn new(weight_new: u8) -> (r: Self)
        ensures
            r.spec_value() is None,
            r.spec_weight() == weight_new,
    {
        VoltageSmoother { value_mv: None, weight_new }
    }

    /// Feeds one voltage sample and returns the new smoothed value.
    pub fn update(&mut self, sample_mv: u16) -> (r: u16)
        ensures
            r == smoothed(old(self).spec_value(), sample_mv, old(self).spec_weight()),
            final(self).spec_value() == Some(r),
            final(self).spec_weight() == old(self).spec_weight(),
            old(self).spec_value() is Some ==> {
                let c = old(self).spec_value()->0;
                (c <= sample_mv ==> c <= r <= sample_mv) && (sample_mv <= c ==> sample_mv <= r
                    <= c)
            },
    {
        let weight: u32 = if self.weight_new < 1 {
            1
        } else if self.weight_new > 100 {
            100
        } else {
            self.weight_new as u32
        };
        let next: u16 = match self.value_mv {
            None => sample_mv,
            Some(current) => {
                let c: u32 = current as u32;
                let s: u32 = sample_mv as u32;
                proof {
                    lemma_weighted_average(c as int, s as int, weight as int);
                }
                (((c * (100 - weight)) + (s * weight)) / 100) as u16
            },
        };
        self.value_mv = Some(next);
        next
    }

    pub fn value(&self) -> (r: Option<u16>)
        ensures
            r == self.spec_value(),
    {
        self.value_mv
    }
}

/// A weighted average of two values lies between them.
proof fn lemma_weighted_average(c: int, s: int, w: int)
    requires
        0 <= c <= 0xFFFF,
        0 <= s <= 0xFFFF,
        1 <= w <= 100,
    ensures
        0 <= c * (100 - w) + s * w <= 100 * 0xFFFF,
        c <= s ==> c <= (c * (100 - w) + s * w) / 100 <= s,
        s <= c ==> s <= (c * (100 - w) + s * w) / 100 <= c,
{
    assert(0 <= c * (100 - w)) by (nonlinear_arith)
        requires
            0 <= c,
            w <= 100,
    ;
    assert(0 <= s * w) by (nonlinear_arith)
        requires
            0 <= s,
            0 <= w,
    ;
    assert(c * (100 - w) + s * w <= 100 * 0xFFFF) by (nonlinear_arith)
        requires
            0 <= c <= 0xFFFF,
            0 <= s <= 0xFFFF,
            1 <= w <= 100,
    ;
    if c <= s {
        assert(100 * c <= c * (100 - w) + s * w <= 100 * s) by (nonlinear_arith)
            requires
                c <= s,
                1 <= w <= 100,
        ;
    }
    if s <= c {
        assert(100 * s <= c * (100 - w) + s * w <= 100 * c) by (nonlinear_arith)
            requires
                s <= c,
                1 <= w <= 100,
        ;
    }
}

/// Decodes AXP2101 register `0xA4` as a battery state-of-charge percentage;
/// values above 100 mean that no gauge reading is available.
pub fn decode_axp2101_soc(raw: u8) -> (r: Option<u8>)
    ensures
        r == (if raw <= 100 { Some(raw) } else { None::<u8> }),
{
    if raw <= 100 {
        Some(raw)
    } else {
        None
    }
}

/// Decodes AXP2101 register `0x00` bit `0x20` as the external VBUS state.
pub fn decode_axp2101_external_power(status0: u8) -> (r: ExternalPower)
    ensures
        r == (if status0 & STATUS1_VBUS_GOOD != 0 {
            ExternalPower::Connected
        } else {
            ExternalPower::Disconnected
        }),
{
    if status0 & STATUS1_VBUS_GOOD != 0 {
        ExternalPower::Connected
    } else {
        ExternalPower::Disconnected
    }
}

/// Decodes AXP2101 register `0x00` bit `0x08` as battery presence.
pub fn decode_axp2101_battery_present(status0: u8) -> (r: Option<bool>)
    ensures
        r == Some(status0 & STATUS1_BATTERY_PRESENT != 0),
{
    Some(status0 & STATUS1_BATTERY_PRESENT != 0)
}

/// The charge state that AXP2101 status registers `0x00` and `0x01` report:
/// bits 5..6 of `status1` give charging (`01`) or discharging (`10`); with
/// `00`, a battery on external power is full.
pub open spec fn spec_charge_state(status0: u8, status1: u8) -> ChargeState {
    let code = (status1 >> 5u8) & 3u8;
    if code == 1 {
        ChargeState::Charging
    } else if code == 2 {
        ChargeState::Discharging
    } else if code == 0 && status0 & STATUS1_VBUS_GOOD != 0 {
        ChargeState::Full
    } else {
        ChargeState::Unknown
    }
}

/// Decodes AXP2101 registers `0x00` and `0x01` as the charging state.
pub fn decode_axp2101_charge_state(status0: u8, status1: u8) -> (r: ChargeState)
    ensures
        r == spec_charge_state(status0, status1),
{
    let code: u8 = (status1 >> 5u8) & 3u8;
    if code == 1 {
        ChargeState::Charging
    } else if code == 2 {
        ChargeState::Discharging
    } else if code == 0 {
        match decode_axp2101_external_power(status0) {
            ExternalPower::Connected => ChargeState::Full,
            _ => ChargeState::Unknown,
        }
    } else {
        ChargeState::Unknown
    }
}

/// Voltage-only LiPo percentage estimate.
///
/// This is a coarse fallback for UI hints, not a precise state of charge.
pub fn estimate_lipo_percentage(millivolts: u16) -> (r: u8)
    ensures
        r == lipo_percentage(millivolts as int),
{
    if millivolts >= 4200 {
        100
    } else if millivolts >= 4100 {
        90
    } else if millivolts >= 4000 {
        80
    } else if millivolts >= 3920 {
        70
    } else if millivolts >= 3850 {
        60
    } else if millivolts >= 3790 {
        50
    } else if millivolts >= 3740 {
        40
    } else if millivolts >= 3700 {
        30
    } else if millivolts >= 3610 {
        20
    } else if millivolts >= 3500 {
        10
    } else if millivolts >= 3300 {
        5
    } else {
        0
    }
}

/// A higher voltage never gives a lower percentage estimate.
pub proof fn lemma_lipo_percentage_monotonic(a: int, b: int)
    requires
        a <= b,
    ensures
        lipo_percentage(a) <= lipo_percentage(b),
        0 <= lipo_percentage(a) <= 100,
{
}

/// The battery voltage in millivolts held in AXP2101 registers `0x34` (high
/// six bits) and `0x35` (low byte).
pub open spec fn spec_battery_voltage_mv(high: u8, low: u8) -> int {
    (high as int % 64) * 256 + low as int
}

/// AXP2101 driver state: the I2C bus it owns, the device address and the
/// low-battery threshold used by [`Axp2101::status`].
///
/// The driver decides which registers to write and decodes what reads
/// return; the caller performs the transfers on the bus.
pub struct Axp2101<I2C> {
    i2c: I2C,
    address: u8,
    low_threshold: LowBatteryThreshold,
}

impl<I2C> Axp2101<I2C> {
    pub closed spec fn spec_bus(&self) -> I2C {
        self.i2c
    }

    pub closed spec fn spec_address(&self) -> u8 {
        self.address
    }

    pub closed spec fn spec_low_threshold(&self) -> LowBatteryThreshold {
        self.low_threshold
    }

    pub fn new(i2c: I2C) -> (r: Self)
        ensures
            r.spec_bus() == i2c,
            r.spec_address() == devices::i2c::AXP2101_PMU,
            r.spec_low_threshold().millivolts == DEFAULT_LOW_BATTERY_MV,
    {
        Axp2101 {
            i2c,
            address: devices::i2c::AXP2101_PMU,
            low_threshold: LowBatteryThreshold { millivolts: DEFAULT_LOW_BATTERY_MV },
        }
    }

    pub fn release(self) -> (r: I2C)
        ensures
            r == self.spec_bus(),
    {
        self.i2c
    }

    /// The bus, for performing the transfers this driver plans.
    pub fn bus_mut(&mut self) -> (r: &mut I2C)
        ensures
            *r == old(self).spec_bus(),
            final(self).spec_bus() == *final(r),
            final(self).spec_address() == old(self).spec_address(),
            final(self).spec_low_threshold() == old(self).spec_low_threshold(),
    {
        &mut self.i2c
    }

    pub fn address(&self) -> (r: u8)
        ensures
            r == self.spec_address(),
    {
        self.address
    }

    /// The step that writes `value` to `register`.
    pub fn write_register(&self, register: u8, value: u8) -> (r: Vec<RegisterStep>)
        ensures
            r@ == seq![RegisterStep::Write { register, value }],
    {
        let mut v: Vec<RegisterStep> = Vec::new();
        v.push(RegisterStep::Write { register, value });
        v
    }

    /// The step that sets (`value`) or clears bit `bit` of `register`,
    /// keeping its other bits.
    pub fn write_bit(&self, register: u8, bit: u8, value: bool) -> (r: Vec<RegisterStep>)
        requires
            bit < 8,
        ensures
            r@ == seq![RegisterStep::WriteBit { register, bit, value }],
    {
        let mut v: Vec<RegisterStep> = Vec::new();
        v.push(RegisterStep::WriteBit { register, bit, value });
        v
    }

    pub fn set_low_battery_threshold(&mut self, threshold: LowBatteryThreshold)
        ensures
            final(self).spec_low_threshold() == threshold,
            final(self).spec_bus() == old(self).spec_bus(),
            final(self).spec_address() == old(self).spec_address(),
    {
        self.low_threshold = threshold;
    }

    /// Register writes that power the CoreS3 rails: all LDOs but DLDO1 on,
    /// ALDO3 and ALDO4 at 3.3 V.
    pub fn init_core_s3_defaults(&self) -> (r: Vec<RegisterStep>)
        ensures
            r@ == seq![
                RegisterStep::Write { register: REG_LDOS_ON_OFF, value: 0xBF },
                RegisterStep::Write { register: REG_ALDO3_VOLTAGE, value: LDO_3V3_CODE },
                RegisterStep::Write { register: REG_ALDO4_VOLTAGE, value: LDO_3V3_CODE },
            ],
    {
        let mut v: Vec<RegisterStep> = Vec::new();
        v.push(RegisterStep::Write { register: REG_LDOS_ON_OFF, value: 0xBF });
        v.push(RegisterStep::Write { register: REG_ALDO3_VOLTAGE, value: LDO_3V3_CODE });
        v.push(RegisterStep::Write { register: REG_ALDO4_VOLTAGE, value: LDO_3V3_CODE });
        v
    }

    /// Steps that set the display backlight: brightness 0 switches DLDO1 off;
    /// any other brightness switches it on at voltage code `(brightness + 641) >> 5`.
    pub fn set_display_backlight(&self, brightness: u8) -> (r: Vec<RegisterStep>)
        ensures
            brightness == 0 ==> r@ == seq![
                RegisterStep::WriteBit { register: REG_LDOS_ON_OFF, bit: 7, value: false },
            ],
            brightness != 0 ==> r@ == seq![
                RegisterStep::WriteBit { register: REG_LDOS_ON_OFF, bit: 7, value: true },
                RegisterStep::Write {
                    register: REG_DLDO1_VOLTAGE,
                    value: ((brightness as int + 641) / 32) as u8,
                },
            ],
    {
        let mut v: Vec<RegisterStep> = Vec::new();
        if brightness == 0 {
            v.push(RegisterStep::WriteBit { register: REG_LDOS_ON_OFF, bit: 7, value: false });
        } else {
            let sum: u16 = brightness as u16 + 641;
            let voltage: u16 = sum >> 5u16;
            assert(sum >> 5u16 == sum / 32) by (bit_vector);
            v.push(RegisterStep::WriteBit { register: REG_LDOS_ON_OFF, bit: 7, value: true });
            v.push(RegisterStep::Write { register: REG_DLDO1_VOLTAGE, value: voltage as u8 });
        }
        v
    }

    /// The battery voltage decoded from registers `0x34` (`high`) and `0x35` (`low`).
    pub fn battery_voltage_mv(&self, high: u8, low: u8) -> (r: u16)
        ensures
            r == spec_battery_voltage_mv(high, low),
    {
        let h: u16 = high as u16;
        let l: u16 = low as u16;
        let r: u16 = ((h & 0x3F) << 8u16) | l;
        assert(((h & 0x3F) << 8u16) | l == (h % 64) * 256 + l) by (bit_vector)
            requires
                h < 256,
                l < 256,
        ;
        r
    }

    /// The state of charge decoded from register `0xA4`.
    pub fn battery_level_percent(&self, level: u8) -> (r: Option<u8>)
        ensures
            r == (if level <= 100 { Some(level) } else { None::<u8> }),
    {
        decode_axp2101_soc(level)
    }

    /// The external power state decoded from register `0x00`.
    pub fn external_power(&self, status0: u8) -> (r: ExternalPower)
        ensures
            r == (if status0 & STATUS1_VBUS_GOOD != 0 {
                ExternalPower::Connected
            } else {
                ExternalPower::Disconnected
            }),
    {
        decode_axp2101_external_power(status0)
    }

    /// Battery presence decoded from register `0x00`.
    pub fn battery_present(&self, status0: u8) -> (r: Option<bool>)
        ensures
            r == Some(status0 & STATUS1_BATTERY_PRESENT != 0),
    {
        decode_axp2101_battery_present(status0)
    }

    /// The charge state decoded from registers `0x00` and `0x01`.
    pub fn charge_state(&self, status0: u8, status1: u8) -> (r: ChargeState)
        ensures
            r == spec_charge_state(status0, status1),
    {
        decode_axp2101_charge_state(status0, status1)
    }

    /// The full battery status from the two status registers, the voltage
    /// registers (`None` when reading them failed, which counts as 0 mV) and
    /// the level register (`None` when reading it failed).
    pub fn status(
        &self,
        status0: u8,
        status1: u8,
        voltage_registers: Option<(u8, u8)>,
        level: Option<u8>,
    ) -> (r: BatteryStatus)
        ensures
            r == spec_battery_status(
                match voltage_registers {
                    Some(regs) => spec_battery_voltage_mv(regs.0, regs.1) as u16,
                    None => 0u16,
                },
                spec_charge_state(status0, status1),
                if status0 & STATUS1_VBUS_GOOD != 0 {
                    ExternalPower::Connected
                } else {
                    ExternalPower::Disconnected
                },
                self.spec_low_threshold(),
                match level {
                    Some(l) => if l <= 100 { Some(l) } else { None::<u8> },
                    None => None::<u8>,
                },
                Some(status0 & STATUS1_BATTERY_PRESENT != 0),
            ),
    {
        let voltage: u16 = match voltage_registers {
            Some(regs) => self.battery_voltage_mv(regs.0, regs.1),
            None => 0,
        };
        let state_of_charge: Option<u8> = match level {
            Some(l) => decode_axp2101_soc(l),
            None => None,
        };
        let external = decode_axp2101_external_power(status0);
        let battery_present = decode_axp2101_battery_present(status0);
        let charge_state = decode_axp2101_charge_state(status0, status1);
        BatteryStatus::with_power_and_soc(
            voltage,
            charge_state,
            external,
            self.low_threshold,
            state_of_charge,
            battery_present,
        )
    }

    /// The write that stores a wake marker in data buffer register `0x04`
    /// before sleeping.
    pub fn prepare_sleep(&self, wake_marker: u8) -> (r: Vec<RegisterStep>)
        ensures
            r@ == seq![RegisterStep::Write { register: REG_DATA_BUFFER0, value: wake_marker }],
    {
        let mut v: Vec<RegisterStep> = Vec::new();
        v.push(RegisterStep::Write { register: REG_DATA_BUFFER0, value: wake_marker });
        v
    }

    /// The write that powers the board off.
    pub fn shutdown(&self) -> (r: Vec<RegisterStep>)
        ensures
            r@ == seq![RegisterStep::Write { register: REG_POWER_OFF, value: 0x01 }],
    {
        let mut v: Vec<RegisterStep> = Vec::new();
        v.push(RegisterStep::Write { register: REG_POWER_OFF, value: 0x01 });
        v
    }
}

} // verus!
