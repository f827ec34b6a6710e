//! BM8563 real-time clock logic and date/time types.

use vstd::prelude::*;

use crate::bus::RegisterStep;
use crate::devices;

verus! {

pub const REG_CONTROL_STATUS1: u8 = 0x00;
pub const REG_SECONDS: u8 = 0x02;
pub const REG_MINUTE_ALARM: u8 = 0x09;
pub const REG_TIMER_CONTROL: u8 = 0x0E;
pub const REG_TIMER: u8 = 0x0F;
/// Alarm field value that disables the field.
pub const ALARM_DISABLED: u8 = 0x80;

#[derive(Clone, Copy, Debug, PartialEq, Eq, Structural)]
pub struct Date {
    pub year: u16,
    pub month: u8,
    pub day: u8,
    pub weekday: u8,
}

#[derive(Clone, Copy, Debug, PartialEq, Eq, Structural)]
pub struct Time {
    pub hour: u8,
    pub minute: u8,
    pub second: u8,
}

#[derive(Clone, Copy, Debug, PartialEq, Eq, Structural)]
pub struct DateTime {
    pub date: Date,
    pub time: Time,
}

#[derive(Clone, Copy, Debug, PartialEq, Eq, Structural)]
pub struct Alarm {
    pub minute: Option<u8>,
    pub hour: Option<u8>,
    pub day: Option<u8>,
    pub weekday: Option<u8>,
}

#[derive(Clone, Copy, Debug, PartialEq, Eq, Structural)]
pub enum TimerClock {
    Hz4096,
    Hz64,
    Hz1,
    OneOver60Hz,
}

#[derive(Clone, Copy, Debug, PartialEq, Eq, Structural)]
pub struct TimerConfig {
    pub clock: TimerClock,
    pub count: u8,
}

#[derive(Clone, Copy, Debug, PartialEq, Eq, Structural)]
pub struct TimedWakeMetadata {
    pub alarm: Option<Alarm>,
    pub timer: Option<TimerConfig>,
}

/// The number that a packed-BCD byte stands for: ten times the high nibble
/// plus the low nibble.
pub open spec fn spec_bcd_to_bin(value: u8) -> int {
    (value as int / 16) * 10 + value as int % 16
}

/// The packed-BCD byte of a number: tens in the high nibble (whatever does
/// not fit in the byte is dropped), units in the low nibble.
pub open spec fn spec_bin_to_bcd(value: u8) -> int {
    ((value as int / 10) * 16) % 256 + value as int % 10
}

/// Whether both nibbles of `value` are decimal digits.
pub open spec fn is_bcd(value: u8) -> bool {
    value as int / 16 < 10 && value as int % 16 < 10
}

/// Decodes a packed-BCD byte.
pub fn bcd_to_bin(value: u8) -> (r: u8)
    ensures
        r == spec_bcd_to_bin(value),
{
    assert((value >> 4u8) * 10 + (value & 0x0Fu8) == (value / 16) * 10 + value % 16) by (bit_vector);
    ((value >> 4u8) * 10) + (value & 0x0F)
}

/// Encodes a number as a packed-BCD byte.
pub fn bin_to_bcd(value: u8) -> (r: u8)
    ensures
        r == spec_bin_to_bcd(value),
{
    let tens: u8 = value / 10;
    let units: u8 = value % 10;
    assert(((tens << 4u8) | units) == ((tens as int * 16) % 256 + units as int)) by (bit_vector)
        requires
            units < 10,
    ;
    (tens << 4u8) | units
}

/// Encoding a number below 100 as BCD and decoding it gives it back, and the
/// encoding is a valid BCD byte.
pub proof fn lemma_bcd_round_trip(value: u8)
    requires
        value < 100,
    ensures
        0 <= spec_bin_to_bcd(value) < 256,
        is_bcd(spec_bin_to_bcd(value) as u8),
        spec_bcd_to_bin(spec_bin_to_bcd(value) as u8) == value,
{
}

/// Decoding a valid BCD byte and encoding the number again gives the byte back.
pub proof fn lemma_bin_round_trip(value: u8)
    requires
        is_bcd(value),
    ensures
        spec_bcd_to_bin(value) < 100,
        spec_bin_to_bcd(spec_bcd_to_bin(value) as u8) == value,
{
}

/// The timer source-clock code of the timer control register.
pub open spec fn spec_timer_clock_code(clock: TimerClock) -> u8 {
    match clock {
        TimerClock::Hz4096 => 0,
        TimerClock::Hz64 => 1,
        TimerClock::Hz1 => 2,
        TimerClock::OneOver60Hz => 3,
    }
}

fn timer_clock_code(clock: TimerClock) -> (r: u8)
    ensures
        r == spec_timer_clock_code(clock),
{
    match clock {
        TimerClock::Hz4096 => 0,
        TimerClock::Hz64 => 1,
        TimerClock::Hz1 => 2,
        TimerClock::OneOver60Hz => 3,
    }
}

/// The date and time held in the seven registers from `0x02` (seconds) on:
/// seconds, minutes, hours, day, weekday, month, year of the century.
pub open spec fn spec_datetime(data: Seq<u8>) -> DateTime {
    DateTime {
        time: Time {
            second: spec_bcd_to_bin(data[0] & 0x7F) as u8,
            minute: spec_bcd_to_bin(data[1] & 0x7F) as u8,
            hour: spec_bcd_to_bin(data[2] & 0x3F) as u8,
        },
        date: Date {
            day: spec_bcd_to_bin(data[3] & 0x3F) as u8,
            weekday: data[4] & 0x07,
            month: spec_bcd_to_bin(data[5] & 0x1F) as u8,
            year: (2000 + spec_bcd_to_bin(data[6])) as u16,
        },
    }
}

/// The bytes written to set the clock: the seconds register address, then
/// the seven time registers in BCD.
pub open spec fn spec_datetime_frame(dt: DateTime) -> Seq<u8> {
    seq![
        REG_SECONDS,
        spec_bin_to_bcd(dt.time.second) as u8,
        spec_bin_to_bcd(dt.time.minute) as u8,
        spec_bin_to_bcd(dt.time.hour) as u8,
        spec_bin_to_bcd(dt.date.day) as u8,
        dt.date.weekday & 0x07,
        spec_bin_to_bcd(dt.date.month) as u8,
        spec_bin_to_bcd((dt.date.year % 100) as u8) as u8,
    ]
}

/// The value of one alarm field: its BCD value when enabled, else the
/// disable flag.
pub open spec fn spec_alarm_field(field: Option<u8>) -> u8 {
    match field {
        Some(v) => spec_bin_to_bcd(v) as u8,
        None => ALARM_DISABLED,
    }
}

/// A calendar date and time that the clock can hold.
pub open spec fn valid_datetime(dt: DateTime) -> bool {
    &&& dt.time.second < 60
    &&& dt.time.minute < 60
    &&& dt.time.hour < 24
    &&& 1 <= dt.date.day <= 31
    &&& dt.date.weekday < 7
    &&& 1 <= dt.date.month <= 12
    &&& 2000 <= dt.date.year <= 2099
}

/// BM8563 driver state: the I2C bus it owns and the device address.
///
/// The driver decides what to write and decodes what reads return; the
/// caller performs the transfers on the bus.
pub struct Bm8563<I2C> {
    i2c: I2C,
    address: u8,
}

impl<I2C> Bm8563<I2C> {
    pub closed spec fn spec_bus(&self) -> I2C {
        self.i2c
    }

    pub closed spec fn spec_address(&self) -> u8 {
        self.address
    }

    pub fn new(i2c: I2C) -> (r: Self)
        ensures
            r.spec_bus() == i2c,
            r.spec_address() == devices::i2c::BM8563_RTC,
    {
        Bm8563 { i2c, address: devices::i2c::BM8563_RTC }
    }

    pub fn release(self) -> (r: I2C)
        ensures
            r == self.spec_bus(),
    {
        self.i2c
    }

    /// The bus, for performing the transfers this driver plans.
    pub fn bus_mut(&mut self) -> (r: &mut I2C)
        ensures
            *r == old(self).spec_bus(),
            final(self).spec_bus() == *final(r),
            final(self).spec_address() == old(self).spec_address(),
    {
        &mut self.i2c
    }

    pub fn address(&self) -> (r: u8)
        ensures
            r == self.spec_address(),
    {
        self.address
    }

    /// Start-up: clear control/status register 1 (clock running, normal mode).
    pub fn init(&self) -> (r: Vec<RegisterStep>)
        ensures
            r@ == seq![RegisterStep::Write { register: REG_CONTROL_STATUS1, value: 0x00 }],
    {
        let mut v: Vec<RegisterStep> = Vec::new();
        v.push(RegisterStep::Write { register: REG_CONTROL_STATUS1, value: 0x00 });
        v
    }

    /// The date and time decoded from the seven registers read from `0x02` on.
    pub fn datetime(&self, data: [u8; 7]) -> (r: DateTime)
        ensures
            r == spec_datetime(data@),
    {
        DateTime {
            time: Time {
                second: bcd_to_bin(data[0] & 0x7F),
                minute: bcd_to_bin(data[1] & 0x7F),
                hour: bcd_to_bin(data[2] & 0x3F),
            },
            date: Date {
                day: bcd_to_bin(data[3] & 0x3F),
                weekday: data[4] & 0x07,
                month: bcd_to_bin(data[5] & 0x1F),
                year: 2000 + bcd_to_bin(data[6]) as u16,
            },
        }
    }

    /// Whether the clock reports a voltage drop that may have corrupted the
    /// time: bit 7 of the seconds register, the first of the seven registers
    /// read from `0x02` on.
    pub fn clock_integrity_lost(&self, data: [u8; 7]) -> (r: bool)
        ensures
            r == (data@[0] & 0x80 != 0),
    {
        data[0] & 0x80 != 0
    }

    /// The bytes to write, in one transfer, to set the date and time.
    pub fn set_datetime(&self, datetime: DateTime) -> (r: [u8; 8])
        ensures
            r@ == spec_datetime_frame(datetime),
    {
        [
            REG_SECONDS,
            bin_to_bcd(datetime.time.second),
            bin_to_bcd(datetime.time.minute),
            bin_to_bcd(datetime.time.hour),
            bin_to_bcd(datetime.date.day),
            datetime.date.weekday & 0x07,
            bin_to_bcd(datetime.date.month),
            bin_to_bcd((datetime.date.year % 100) as u8),
        ]
    }

    /// The bytes to write, in one transfer, to program the alarm; a field
    /// that is `None` is disabled.
    pub fn set_alarm(&self, alarm: Alarm) -> (r: [u8; 5])
        ensures
            r@ == seq![
                REG_MINUTE_ALARM,
                spec_alarm_field(alarm.minute),
                spec_alarm_field(alarm.hour),
                spec_alarm_field(alarm.day),
                spec_alarm_field(alarm.weekday),
            ],
    {
        [
            REG_MINUTE_ALARM,
            alarm_field(alarm.minute),
            alarm_field(alarm.hour),
            alarm_field(alarm.day),
            alarm_field(alarm.weekday),
        ]
    }

    /// Steps that load the countdown timer and enable it with its source clock.
    pub fn set_timer(&self, timer: TimerConfig) -> (r: Vec<RegisterStep>)
        ensures
            r@ == seq![
                RegisterStep::Write { register: REG_TIMER, value: timer.count },
                RegisterStep::Write {
                    register: REG_TIMER_CONTROL,
                    value: 0x80u8 | spec_timer_clock_code(timer.clock),
                },
            ],
    {
        let mut v: Vec<RegisterStep> = Vec::new();
        v.push(RegisterStep::Write { register: REG_TIMER, value: timer.count });
        v.push(RegisterStep::Write { register: REG_TIMER_CONTROL, value: 0x80u8 | timer_clock_code(timer.clock) });
        v
    }
}

fn alarm_field(field: Option<u8>) -> (r: u8)
    ensures
        r == spec_alarm_field(field),
{
    match field {
        Some(v) => bin_to_bcd(v),
        None => ALARM_DISABLED,
    }
}

/// Setting a valid date and time and reading the registers back gives the
/// same date and time.
pub proof fn lemma_datetime_round_trip(dt: DateTime)
    requires
        valid_datetime(dt),
    ensures
        spec_datetime(spec_datetime_frame(dt).subrange(1, 8)) == dt,
{
    let f = spec_datetime_frame(dt).subrange(1, 8);
    lemma_masked_round_trip(dt.time.second, 0x7F);
    lemma_masked_round_trip(dt.time.minute, 0x7F);
    lemma_masked_round_trip(dt.time.hour, 0x3F);
    lemma_masked_round_trip(dt.date.day, 0x3F);
    lemma_masked_round_trip(dt.date.month, 0x1F);
    lemma_bcd_round_trip((dt.date.year % 100) as u8);
    let w = dt.date.weekday;
    assert((w & 0x07u8) & 0x07u8 == w) by (bit_vector)
        requires
            w < 7,
    ;
}

/// Masking the BCD encoding of `v` keeps it whole when `v` fits under the mask.
proof fn lemma_masked_round_trip(v: u8, mask: u8)
    requires
        v < 100,
        mask == 0x7F || mask == 0x3F || mask == 0x1F,
        mask == 0x7F ==> v < 80,
        mask == 0x3F ==> v < 40,
        mask == 0x1F ==> v < 20,
    ensures
        spec_bcd_to_bin((spec_bin_to_bcd(v) as u8) & mask) == v,
{
    lemma_bcd_round_trip(v);
    let b = spec_bin_to_bcd(v) as u8;
    assert(b & mask == b) by (bit_vector)
        requires
            (mask == 0x7F && b < 0x80) || (mask == 0x3F && b < 0x40) || (mask == 0x1F && b < 0x20),
    ;
}

} // verus!
