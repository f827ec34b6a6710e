//! BMI270 accelerometer/gyroscope and BMM150 magnetometer logic.
//!
//! Magnetometer readings are easily distorted by nearby magnets, speakers,
//! batteries, metal and board current: calibrate in the final enclosure and
//! do not treat the heading as absolute without validating the environment.

use vstd::prelude::*;

use crate::bus::RegisterStep;
use crate::devices;

verus! {

pub const BMI270_CHIP_ID: u8 = 0x00;
pub const BMI270_ACC_DATA: u8 = 0x0C;
pub const BMI270_GYR_DATA: u8 = 0x12;
pub const BMI270_ACC_CONF: u8 = 0x40;
pub const BMI270_ACC_RANGE: u8 = 0x41;
pub const BMI270_GYR_CONF: u8 = 0x42;
pub const BMI270_GYR_RANGE: u8 = 0x43;
pub const BMI270_INT_STATUS_1: u8 = 0x1D;
pub const BMI270_INTERNAL_STATUS: u8 = 0x21;
pub const BMI270_INIT_CTRL: u8 = 0x59;
pub const BMI270_INIT_ADDR_0: u8 = 0x5B;
pub const BMI270_INIT_DATA: u8 = 0x5E;
pub const BMI270_PWR_CONF: u8 = 0x7C;
pub const BMI270_PWR_CTRL: u8 = 0x7D;
pub const BMI270_CMD: u8 = 0x7E;
pub const BMI270_EXPECTED_CHIP_ID: u8 = 0x24;
/// Bytes of the configuration file sent per burst write.
pub const BMI270_UPLOAD_CHUNK: usize = 16;

pub const BMM150_CHIP_ID: u8 = 0x40;
pub const BMM150_DATA_X_LSB: u8 = 0x42;
pub const BMM150_POWER_CONTROL: u8 = 0x4B;
pub const BMM150_OP_MODE: u8 = 0x4C;
pub const BMM150_EXPECTED_CHIP_ID: u8 = 0x32;

#[derive(Clone, Copy, Debug, PartialEq, Eq, Structural)]
pub struct Vector3 {
    pub x: i32,
    pub y: i32,
    pub z: i32,
}

impl Default for Vector3 {
    fn default() -> (r: Self)
        ensures
            r == (Vector3 { x: 0, y: 0, z: 0 }),
    {
        Vector3 { x: 0, y: 0, z: 0 }
    }
}

/// Whether `a - b` fits in an `i32`.
pub open spec fn sub_fits(a: i32, b: i32) -> bool {
    i32::MIN <= a - b <= i32::MAX
}

/// Whether every component of `v - offsets` fits in an `i32`.
pub open spec fn offset_fits(v: Vector3, offsets: Vector3) -> bool {
    sub_fits(v.x, offsets.x) && sub_fits(v.y, offsets.y) && sub_fits(v.z, offsets.z)
}

/// `v - offsets`, component by component.
pub open spec fn spec_offset(v: Vector3, offsets: Vector3) -> Vector3 {
    Vector3 {
        x: (v.x - offsets.x) as i32,
        y: (v.y - offsets.y) as i32,
        z: (v.z - offsets.z) as i32,
    }
}

impl Vector3 {
    pub fn new(x: i32, y: i32, z: i32) -> (r: Self)
        ensures
            r == (Vector3 { x, y, z }),
    {
        Vector3 { x, y, z }
    }

    /// The vector with `offsets` subtracted from each component.
    pub fn offset(self, offsets: Self) -> (r: Self)
        requires
            offset_fits(self, offsets),
        ensures
            r == spec_offset(self, offsets),
    {
        Vector3 { x: self.x - offsets.x, y: self.y - offsets.y, z: self.z - offsets.z }
    }
}

#[derive(Clone, Copy, Debug, PartialEq, Eq, Structural)]
pub enum AccelRange {
    G2,
    G4,
    G8,
    G16,
}

#[derive(Clone, Copy, Debug, PartialEq, Eq, Structural)]
pub enum GyroRange {
    Dps125,
    Dps250,
    Dps500,
    Dps1000,
    Dps2000,
}

#[derive(Clone, Copy, Debug, PartialEq, Eq, Structural)]
pub enum SampleRate {
    Hz25,
    Hz50,
    Hz100,
    Hz200,
    Hz400,
}

#[derive(Clone, Copy, Debug, PartialEq, Eq, Structural)]
pub struct Bmi270Config {
    pub accel_range: AccelRange,
    pub gyro_range: GyroRange,
    pub sample_rate: SampleRate,
}

impl Default for Bmi270Config {
    /// ±4 g, ±500 °/s, 100 Hz.
    fn default() -> (r: Self)
        ensures
            r == (Bmi270Config {
                accel_range: AccelRange::G4,
                gyro_range: GyroRange::Dps500,
                sample_rate: SampleRate::Hz100,
            }),
    {
        Bmi270Config {
            accel_range: AccelRange::G4,
            gyro_range: GyroRange::Dps500,
            sample_rate: SampleRate::Hz100,
        }
    }
}

#[derive(Clone, Copy, Debug, PartialEq, Eq, Structural)]
pub struct MotionThreshold {
    pub accel_delta_mg: i32,
}

/// The output data rate code of the BMI270 configuration registers.
pub open spec fn spec_sample_rate_code(rate: SampleRate) -> u8 {
    match rate {
        SampleRate::Hz25 => 0x06,
        SampleRate::Hz50 => 0x07,
        SampleRate::Hz100 => 0x08,
        SampleRate::Hz200 => 0x09,
        SampleRate::Hz400 => 0x0A,
    }
}

pub open spec fn spec_accel_range_code(range: AccelRange) -> u8 {
    match range {
        AccelRange::G2 => 0x00,
        AccelRange::G4 => 0x01,
        AccelRange::G8 => 0x02,
        AccelRange::G16 => 0x03,
    }
}

pub open spec fn spec_gyro_range_code(range: GyroRange) -> u8 {
    match range {
        GyroRange::Dps2000 => 0x00,
        GyroRange::Dps1000 => 0x01,
        GyroRange::Dps500 => 0x02,
        GyroRange::Dps250 => 0x03,
        GyroRange::Dps125 => 0x04,
    }
}

fn sample_rate_code(rate: SampleRate) -> (r: u8)
    ensures
        r == spec_sample_rate_code(rate),
{
    match rate {
        SampleRate::Hz25 => 0x06,
        SampleRate::Hz50 => 0x07,
        SampleRate::Hz100 => 0x08,
        SampleRate::Hz200 => 0x09,
        SampleRate::Hz400 => 0x0A,
    }
}

fn accel_range_code(range: AccelRange) -> (r: u8)
    ensures
        r == spec_accel_range_code(range),
{
    match range {
        AccelRange::G2 => 0x00,
        AccelRange::G4 => 0x01,
        AccelRange::G8 => 0x02,
        AccelRange::G16 => 0x03,
    }
}

fn gyro_range_code(range: GyroRange) -> (r: u8)
    ensures
        r == spec_gyro_range_code(range),
{
    match range {
        GyroRange::Dps2000 => 0x00,
        GyroRange::Dps1000 => 0x01,
        GyroRange::Dps500 => 0x02,
        GyroRange::Dps250 => 0x03,
        GyroRange::Dps125 => 0x04,
    }
}

/// The register writes that apply a BMI270 configuration: accelerometer and
/// gyroscope data rate (performance mode, normal filter), then their ranges.
pub open spec fn spec_configure_steps(config: Bmi270Config) -> Seq<RegisterStep> {
    seq![
        RegisterStep::Write {
            register: BMI270_ACC_CONF,
            value: 0xA0u8 | spec_sample_rate_code(config.sample_rate),
        },
        RegisterStep::Write {
            register: BMI270_GYR_CONF,
            value: 0xA0u8 | spec_sample_rate_code(config.sample_rate),
        },
        RegisterStep::Write {
            register: BMI270_ACC_RANGE,
            value: spec_accel_range_code(config.accel_range),
        },
        RegisterStep::Write {
            register: BMI270_GYR_RANGE,
            value: spec_gyro_range_code(config.gyro_range),
        },
    ]
}

/// The signed 16-bit number stored little-endian in `lo`, `hi`.
pub open spec fn spec_le_i16(lo: u8, hi: u8) -> int {
    if hi < 128 {
        hi * 256 + lo
    } else {
        hi * 256 + lo - 65536
    }
}

fn le_i16(lo: u8, hi: u8) -> (r: i32)
    ensures
        r == spec_le_i16(lo, hi),
        -32768 <= r <= 32767,
{
    let v: i32 = hi as i32 * 256 + lo as i32;
    if v >= 32768 {
        v - 65536
    } else {
        v
    }
}

/// The three little-endian signed 16-bit axes of a BMI270 data block.
pub open spec fn spec_raw_vector(data: Seq<u8>) -> Vector3 {
    Vector3 {
        x: spec_le_i16(data[0], data[1]) as i32,
        y: spec_le_i16(data[2], data[3]) as i32,
        z: spec_le_i16(data[4], data[5]) as i32,
    }
}

/// The three BMM150 axes: X and Y hold 13-bit values in bits 3..15, Z a
/// 15-bit value in bits 1..15, each read as a signed 16-bit word.
pub open spec fn spec_raw_magnetic(data: Seq<u8>) -> Vector3 {
    Vector3 {
        x: (spec_le_i16(data[0] & 0xF8, data[1]) / 8) as i32,
        y: (spec_le_i16(data[2] & 0xF8, data[3]) / 8) as i32,
        z: (spec_le_i16(data[4] & 0xFE, data[5]) / 2) as i32,
    }
}

fn raw_vector(data: [u8; 6]) -> (r: Vector3)
    ensures
        r == spec_raw_vector(data@),
        -32768 <= r.x <= 32767,
        -32768 <= r.y <= 32767,
        -32768 <= r.z <= 32767,
{
    Vector3 {
        x: le_i16(data[0], data[1]),
        y: le_i16(data[2], data[3]),
        z: le_i16(data[4], data[5]),
    }
}

/// Size of the BMI270 configuration file in bytes.
pub const BMI270_CONFIG_LEN: usize = 8192;

/// A byte array wrapper, used to hold the BMI270 configuration file.
pub struct AlignedBytes<const N: usize>(pub [u8; N]);

/// Number of upload chunks for a configuration file of `len` bytes.
pub open spec fn upload_chunks(len: int) -> int {
    (len + 15) / 16
}

/// The address frame of upload chunk `k`: its word address `8 k`, as a
/// 16-bit value, low byte first.
pub open spec fn spec_upload_address_frame(k: int) -> Seq<u8> {
    let word = (8 * k) % 65536;
    seq![BMI270_INIT_ADDR_0, (word % 256) as u8, (word / 256) as u8]
}

/// The data frame of upload chunk `k`: bytes `16 k .. 16 k + 16` of the file
/// (fewer for the last chunk).
pub open spec fn spec_upload_data_frame(config: Seq<u8>, k: int) -> Seq<u8> {
    let start = 16 * k;
    let end = if start + 16 <= config.len() { start + 16 } else { config.len() as int };
    seq![BMI270_INIT_DATA] + config.subrange(start, end)
}

/// Frames `2 k` and `2 k + 1` of `frames` are the address and data frames of
/// upload chunk `k`.
pub open spec fn upload_pair_ok(frames: Seq<Vec<u8>>, config: Seq<u8>, k: int) -> bool {
    &&& frames[2 * k]@ == spec_upload_address_frame(k)
    &&& frames[2 * k + 1]@ == spec_upload_data_frame(config, k)
}

/// The configuration bytes carried by the first `n` upload chunks: the data
/// frames without their register byte, one after another.
pub open spec fn uploaded_bytes(frames: Seq<Vec<u8>>, n: nat) -> Seq<u8>
    decreases n,
{
    if n == 0 {
        Seq::empty()
    } else {
        uploaded_bytes(frames, (n - 1) as nat) + frames[2 * (n - 1) + 1]@.drop_first()
    }
}

/// The data frames of an upload carry the whole configuration file, in
/// order, each byte once.
pub proof fn lemma_upload_reassembles(frames: Seq<Vec<u8>>, config: Seq<u8>)
    requires
        frames.len() == 2 * upload_chunks(config.len() as int),
        forall|k: int| 0 <= k < upload_chunks(config.len() as int) ==> #[trigger] upload_pair_ok(frames, config, k),
    ensures
        uploaded_bytes(frames, upload_chunks(config.len() as int) as nat) == config,
{
    let chunks = upload_chunks(config.len() as int);
    lemma_upload_prefix(frames, config, chunks as nat);
    assert(16 * chunks >= config.len()) by (nonlinear_arith)
        requires
            chunks == (config.len() + 15) / 16,
    ;
    assert(config.subrange(0, config.len() as int) =~= config);
}

proof fn lemma_upload_prefix(frames: Seq<Vec<u8>>, config: Seq<u8>, n: nat)
    requires
        n <= upload_chunks(config.len() as int),
        forall|k: int| 0 <= k < upload_chunks(config.len() as int) ==> #[trigger] upload_pair_ok(frames, config, k),
    ensures
        uploaded_bytes(frames, n) == config.subrange(
            0,
            if 16 * n <= config.len() { (16 * n) as int } else { config.len() as int },
        ),
    decreases n,
{
    if n > 0 {
        let k = n - 1;
        lemma_upload_prefix(frames, config, (n - 1) as nat);
        assert(upload_pair_ok(frames, config, k));
        assert(16 * k < config.len()) by (nonlinear_arith)
            requires
                k < (config.len() + 15) / 16,
                k >= 0,
        ;
        let end = if 16 * k + 16 <= config.len() { 16 * k + 16 } else { config.len() as int };
        assert(frames[2 * k + 1]@.drop_first() =~= config.subrange(16 * k, end));
        assert(config.subrange(0, 16 * k) + config.subrange(16 * k, end) =~= config.subrange(0, end));
    } else {
        assert(config.subrange(0, 0) =~= Seq::<u8>::empty());
    }
}

/// Part of the BMI270 start-up that needs delays: the register steps before
/// the configuration file is uploaded, and those after it.
pub struct Bmi270Startup {
    pub before_upload: Vec<RegisterStep>,
    pub after_upload: Vec<RegisterStep>,
}

/// BMI270 driver state: the I2C bus it owns, the device address and the
/// offsets subtracted from accelerometer and gyroscope readings.
///
/// The driver decides what to write and decodes what reads return; the
/// caller performs the transfers on the bus.
pub struct Bmi270<I2C> {
    i2c: I2C,
    address: u8,
    accel_offset: Vector3,
    gyro_offset: Vector3,
}

impl<I2C> Bmi270<I2C> {
    pub closed spec fn spec_bus(&self) -> I2C {
        self.i2c
    }

    pub closed spec fn spec_address(&self) -> u8 {
        self.address
    }

    pub closed spec fn spec_accel_offset(&self) -> Vector3 {
        self.accel_offset
    }

    pub closed spec fn spec_gyro_offset(&self) -> Vector3 {
        self.gyro_offset
    }

    pub fn new(i2c: I2C) -> (r: Self)
        ensures
            r.spec_bus() == i2c,
            r.spec_address() == devices::i2c::BMI270_IMU,
            r.spec_accel_offset() == (Vector3 { x: 0, y: 0, z: 0 }),
            r.spec_gyro_offset() == (Vector3 { x: 0, y: 0, z: 0 }),
    {
        Bmi270 {
            i2c,
            address: devices::i2c::BMI270_IMU,
            accel_offset: Vector3::new(0, 0, 0),
            gyro_offset: Vector3::new(0, 0, 0),
        }
    }

    pub fn set_accel_offset(&mut self, offset: Vector3)
        ensures
            final(self).spec_accel_offset() == offset,
            final(self).spec_gyro_offset() == old(self).spec_gyro_offset(),
            final(self).spec_bus() == old(self).spec_bus(),
            final(self).spec_address() == old(self).spec_address(),
    {
        self.accel_offset = offset;
    }

    pub fn set_gyro_offset(&mut self, offset: Vector3)
        ensures
            final(self).spec_gyro_offset() == offset,
            final(self).spec_accel_offset() == old(self).spec_accel_offset(),
            final(self).spec_bus() == old(self).spec_bus(),
            final(self).spec_address() == old(self).spec_address(),
    {
        self.gyro_offset = offset;
    }

    pub fn release(self) -> (r: I2C)
        ensures
            r == self.spec_bus(),
    {
        self.i2c
    }

    /// The bus, for performing the transfers this driver plans.
    pub fn bus_mut(&mut self) -> (r: &mut I2C)
        ensures
            *r == old(self).spec_bus(),
            final(self).spec_bus() == *final(r),
            final(self).spec_address() == old(self).spec_address(),
            final(self).spec_accel_offset() == old(self).spec_accel_offset(),
            final(self).spec_gyro_offset() == old(self).spec_gyro_offset(),
    {
        &mut self.i2c
    }

    pub fn address(&self) -> (r: u8)
        ensures
            r == self.spec_address(),
    {
        self.address
    }

    /// The register settings that need no delay: leave advanced power save,
    /// apply the configuration, enable accelerometer, gyroscope and temperature.
    ///
    /// Start-up on the board should use [`Bmi270::init_with_delay`], because
    /// the BMI270 needs delays while resetting and loading its configuration file.
    pub fn init(&self, config: Bmi270Config) -> (r: Vec<RegisterStep>)
        ensures
            r@ == seq![RegisterStep::Write { register: BMI270_PWR_CONF, value: 0x00 }]
                + spec_configure_steps(config)
                + seq![RegisterStep::Write { register: BMI270_PWR_CTRL, value: 0x0E }],
    {
        let mut v: Vec<RegisterStep> = Vec::new();
        v.push(RegisterStep::Write { register: BMI270_PWR_CONF, value: 0x00 });
        let mut c = self.configure(config);
        v.append(&mut c);
        v.push(RegisterStep::Write { register: BMI270_PWR_CTRL, value: 0x0E });
        v
    }

    /// The full start-up around the configuration upload (see
    /// [`Bmi270::upload_frames`]): soft reset, leave power save, prepare the
    /// upload; then finish the upload, configure and enable the sensors.
    pub fn init_with_delay(&self, config: Bmi270Config) -> (r: Bmi270Startup)
        ensures
            r.before_upload@ == seq![
                RegisterStep::Write { register: BMI270_CMD, value: 0xB6 },
                RegisterStep::DelayMs { ms: 2 },
                RegisterStep::Write { register: BMI270_PWR_CONF, value: 0x00 },
                RegisterStep::DelayMs { ms: 2 },
                RegisterStep::Write { register: BMI270_INIT_CTRL, value: 0x00 },
                RegisterStep::DelayMs { ms: 2 },
            ],
            r.after_upload@ == seq![
                RegisterStep::Write { register: BMI270_INIT_CTRL, value: 0x01 },
                RegisterStep::DelayMs { ms: 20 },
            ] + spec_configure_steps(config) + seq![
                RegisterStep::Write { register: BMI270_PWR_CTRL, value: 0x0E },
                RegisterStep::DelayMs { ms: 20 },
            ],
    {
        let mut before: Vec<RegisterStep> = Vec::new();
        before.push(RegisterStep::Write { register: BMI270_CMD, value: 0xB6 });
        before.push(RegisterStep::DelayMs { ms: 2 });
        before.push(RegisterStep::Write { register: BMI270_PWR_CONF, value: 0x00 });
        before.push(RegisterStep::DelayMs { ms: 2 });
        before.push(RegisterStep::Write { register: BMI270_INIT_CTRL, value: 0x00 });
        before.push(RegisterStep::DelayMs { ms: 2 });
        let mut after: Vec<RegisterStep> = Vec::new();
        after.push(RegisterStep::Write { register: BMI270_INIT_CTRL, value: 0x01 });
        after.push(RegisterStep::DelayMs { ms: 20 });
        let mut c = self.configure(config);
        after.append(&mut c);
        after.push(RegisterStep::Write { register: BMI270_PWR_CTRL, value: 0x0E });
        after.push(RegisterStep::DelayMs { ms: 20 });
        Bmi270Startup { before_upload: before, after_upload: after }
    }

    /// The burst writes that upload the configuration file, two per chunk of
    /// at most 16 bytes: the chunk's word address (low byte, high byte) to
    /// `INIT_ADDR_0`, then the chunk itself to `INIT_DATA`.
    pub fn upload_frames(&self, config_file: &[u8]) -> (r: Vec<Vec<u8>>)
        requires
            config_file@.len() + BMI270_UPLOAD_CHUNK <= usize::MAX,
        ensures
            r@.len() == 2 * upload_chunks(config_file@.len() as int),
            forall|k: int|
                0 <= k < upload_chunks(config_file@.len() as int) ==> #[trigger] upload_pair_ok(
                    r@,
                    config_file@,
                    k,
                ),
    {
        let len: usize = config_file.len();
        let mut frames: Vec<Vec<u8>> = Vec::new();
        let mut k: usize = 0;
        while k * 16 < len
            invariant
                len == config_file@.len(),
                len + BMI270_UPLOAD_CHUNK <= usize::MAX,
                k <= upload_chunks(len as int),
                frames@.len() == 2 * k,
                forall|j: int| 0 <= j < k ==> #[trigger] upload_pair_ok(frames@, config_file@, j),
            decreases upload_chunks(len as int) - k,
        {
            assert((len as int + 15) / 16 >= k + 1) by (nonlinear_arith)
                requires
                    k * 16 < len,
            ;
            let offset: usize = k * 16;
            let remaining: usize = len - offset;
            let chunk_len: usize = if remaining < BMI270_UPLOAD_CHUNK {
                remaining
            } else {
                BMI270_UPLOAD_CHUNK
            };
            let word: usize = offset / 2;
            let word_addr: u16 = (word % 65536) as u16;
            let lo: u8 = (word_addr % 256) as u8;
            let hi: u8 = (word_addr / 256) as u8;
            let mut addr: Vec<u8> = Vec::new();
            addr.push(BMI270_INIT_ADDR_0);
            addr.push(lo);
            addr.push(hi);
            let mut data: Vec<u8> = Vec::new();
            data.push(BMI270_INIT_DATA);
            let mut i: usize = offset;
            while i < offset + chunk_len
                invariant
                    offset <= i <= offset + chunk_len,
                    len == config_file@.len(),
                    offset + chunk_len <= len,
                    data@ == seq![BMI270_INIT_DATA] + config_file@.subrange(offset as int, i as int),
                decreases offset + chunk_len - i,
            {
                data.push(config_file[i]);
                i = i + 1;
            }
            proof {
                assert(addr@ == spec_upload_address_frame(k as int));
                assert(data@ == spec_upload_data_frame(config_file@, k as int));
            }
            let ghost old_frames = frames@;
            frames.push(addr);
            frames.push(data);
            proof {
                assert forall|j: int| 0 <= j < k + 1 implies #[trigger] upload_pair_ok(
                    frames@,
                    config_file@,
                    j,
                ) by {
                    if j < k {
                        assert(upload_pair_ok(old_frames, config_file@, j));
                        assert(frames@[2 * j] == old_frames[2 * j]);
                        assert(frames@[2 * j + 1] == old_frames[2 * j + 1]);
                    }
                }
            }
            k = k + 1;
        }
        assert(k == upload_chunks(len as int));
        frames
    }

    /// The register writes that apply `config`.
    pub fn configure(&self, config: Bmi270Config) -> (r: Vec<RegisterStep>)
        ensures
            r@ == spec_configure_steps(config),
    {
        let mut v: Vec<RegisterStep> = Vec::new();
        v.push(RegisterStep::Write { register: BMI270_ACC_CONF, value: 0xA0u8 | sample_rate_code(config.sample_rate) });
        v.push(RegisterStep::Write { register: BMI270_GYR_CONF, value: 0xA0u8 | sample_rate_code(config.sample_rate) });
        v.push(RegisterStep::Write { register: BMI270_ACC_RANGE, value: accel_range_code(config.accel_range) });
        v.push(RegisterStep::Write { register: BMI270_GYR_RANGE, value: gyro_range_code(config.gyro_range) });
        v
    }

    /// Whether a chip-id register value identifies a BMI270.
    pub fn is_expected_chip(&self, chip_id: u8) -> (r: bool)
        ensures
            r == (chip_id == BMI270_EXPECTED_CHIP_ID),
    {
        chip_id == BMI270_EXPECTED_CHIP_ID
    }

    /// The accelerometer reading decoded from the six data registers from
    /// `0x0C` on, with the accelerometer offset subtracted.
    pub fn acceleration_raw(&self, data: [u8; 6]) -> (r: Vector3)
        requires
            offset_fits(spec_raw_vector(data@), self.spec_accel_offset()),
        ensures
            r == spec_offset(spec_raw_vector(data@), self.spec_accel_offset()),
    {
        raw_vector(data).offset(self.accel_offset)
    }

    /// The gyroscope reading decoded from the six data registers from `0x12`
    /// on, with the gyroscope offset subtracted.
    pub fn gyroscope_raw(&self, data: [u8; 6]) -> (r: Vector3)
        requires
            offset_fits(spec_raw_vector(data@), self.spec_gyro_offset()),
        ensures
            r == spec_offset(spec_raw_vector(data@), self.spec_gyro_offset()),
    {
        raw_vector(data).offset(self.gyro_offset)
    }
}

/// BMM150 driver state: the I2C bus it owns, the device address and the
/// hard-iron offset subtracted from readings.
pub struct Bmm150<I2C> {
    i2c: I2C,
    address: u8,
    hard_iron_offset: Vector3,
}

impl<I2C> Bmm150<I2C> {
    pub closed spec fn spec_bus(&self) -> I2C {
        self.i2c
    }

    pub closed spec fn spec_address(&self) -> u8 {
        self.address
    }

    pub closed spec fn spec_hard_iron_offset(&self) -> Vector3 {
        self.hard_iron_offset
    }

    pub fn new(i2c: I2C) -> (r: Self)
        ensures
            r.spec_bus() == i2c,
            r.spec_address() == devices::i2c::BMM150_MAGNETOMETER,
            r.spec_hard_iron_offset() == (Vector3 { x: 0, y: 0, z: 0 }),
    {
        Bmm150 {
            i2c,
            address: devices::i2c::BMM150_MAGNETOMETER,
            hard_iron_offset: Vector3::new(0, 0, 0),
        }
    }

    pub fn set_hard_iron_offset(&mut self, offset: Vector3)
        ensures
            final(self).spec_hard_iron_offset() == offset,
            final(self).spec_bus() == old(self).spec_bus(),
            final(self).spec_address() == old(self).spec_address(),
    {
        self.hard_iron_offset = offset;
    }

    pub fn release(self) -> (r: I2C)
        ensures
            r == self.spec_bus(),
    {
        self.i2c
    }

    /// The bus, for performing the transfers this driver plans.
    pub fn bus_mut(&mut self) -> (r: &mut I2C)
        ensures
            *r == old(self).spec_bus(),
            final(self).spec_bus() == *final(r),
            final(self).spec_address() == old(self).spec_address(),
            final(self).spec_hard_iron_offset() == old(self).spec_hard_iron_offset(),
    {
        &mut self.i2c
    }

    pub fn address(&self) -> (r: u8)
        ensures
            r == self.spec_address(),
    {
        self.address
    }

    /// Start-up: power on, then normal operation mode.
    pub fn init(&self) -> (r: Vec<RegisterStep>)
        ensures
            r@ == seq![
                RegisterStep::Write { register: BMM150_POWER_CONTROL, value: 0x01 },
                RegisterStep::Write { register: BMM150_OP_MODE, value: 0x00 },
            ],
    {
        let mut v: Vec<RegisterStep> = Vec::new();
        v.push(RegisterStep::Write { register: BMM150_POWER_CONTROL, value: 0x01 });
        v.push(RegisterStep::Write { register: BMM150_OP_MODE, value: 0x00 });
        v
    }

    /// Whether a chip-id register value identifies a BMM150.
    pub fn is_expected_chip(&self, chip_id: u8) -> (r: bool)
        ensures
            r == (chip_id == BMM150_EXPECTED_CHIP_ID),
    {
        chip_id == BMM150_EXPECTED_CHIP_ID
    }

    /// The field reading decoded from the six data registers from `0x42` on,
    /// with the hard-iron offset subtracted.
    pub fn magnetic_raw(&self, data: [u8; 6]) -> (r: Vector3)
        requires
            offset_fits(spec_raw_magnetic(data@), self.spec_hard_iron_offset()),
        ensures
            r == spec_offset(spec_raw_magnetic(data@), self.spec_hard_iron_offset()),
    {
        let x: i32 = le_i16(data[0] & 0xF8, data[1]);
        let y: i32 = le_i16(data[2] & 0xF8, data[3]);
        let z: i32 = le_i16(data[4] & 0xFE, data[5]);
        proof {
            lemma_multiple_of_low_bits(data[0], data[1], 0xF8, 8);
            lemma_multiple_of_low_bits(data[2], data[3], 0xF8, 8);
            lemma_multiple_of_low_bits(data[4], data[5], 0xFE, 2);
        }
        let raw = Vector3 { x: x / 8, y: y / 8, z: z / 2 };
        raw.offset(self.hard_iron_offset)
    }
}

/// A word whose low byte has its lowest bits masked off is a multiple of
/// the matching power of two.
proof fn lemma_multiple_of_low_bits(lo: u8, hi: u8, mask: u8, d: int)
    requires
        (mask == 0xF8 && d == 8) || (mask == 0xFE && d == 2),
    ensures
        spec_le_i16(lo & mask, hi) % d == 0,
{
    let m = lo & mask;
    if mask == 0xF8 {
        assert(m % 8 == 0) by (bit_vector)
            requires
                mask == 0xF8,
                m == lo & mask,
        ;
    }
    assert(m % 2 == 0) by (bit_vector)
        requires
            mask == 0xFE || mask == 0xF8,
            m == lo & mask,
    ;
}

/// The absolute value of an integer.
pub open spec fn spec_abs(v: int) -> int {
    if v < 0 {
        -v
    } else {
        v
    }
}

/// Whether `a - b` has an absolute value that fits in an `i32`.
pub open spec fn abs_diff_fits(a: i32, b: i32) -> bool {
    i32::MIN < a - b <= i32::MAX
}

fn abs_diff(a: i32, b: i32) -> (r: i32)
    requires
        abs_diff_fits(a, b),
    ensures
        r == spec_abs(a - b),
{
    let d: i32 = a - b;
    if d < 0 {
        -d
    } else {
        d
    }
}

/// Whether some axis moved by at least the threshold between two readings.
pub fn motion_detected(previous: Vector3, current: Vector3, threshold: MotionThreshold) -> (r: bool)
    requires
        abs_diff_fits(current.x, previous.x),
        spec_abs(current.x - previous.x) < threshold.accel_delta_mg ==> abs_diff_fits(current.y, previous.y),
        spec_abs(current.x - previous.x) < threshold.accel_delta_mg && spec_abs(current.y - previous.y)
            < threshold.accel_delta_mg ==> abs_diff_fits(current.z, previous.z),
    ensures
        r == (spec_abs(current.x - previous.x) >= threshold.accel_delta_mg || spec_abs(
            current.y - previous.y,
        ) >= threshold.accel_delta_mg || spec_abs(current.z - previous.z)
            >= threshold.accel_delta_mg),
{
    abs_diff(current.x, previous.x) >= threshold.accel_delta_mg || abs_diff(
        current.y,
        previous.y,
    ) >= threshold.accel_delta_mg || abs_diff(current.z, previous.z) >= threshold.accel_delta_mg
}

/// Division rounded toward zero, for a positive divisor.
pub open spec fn trunc_div(a: int, b: int) -> int {
    if a >= 0 {
        a / b
    } else {
        -((-a) / b)
    }
}

/// Whether the integer angle approximation can be evaluated on `(y, x)`
/// without leaving the `i32` range.
pub open spec fn atan2_defined(y: i32, x: i32) -> bool {
    &&& y > i32::MIN
    &&& x >= 0 ==> (x - spec_abs(y as int)) * 1000 >= i32::MIN && (x - spec_abs(y as int)) * 1000
        <= i32::MAX && x + spec_abs(y as int) <= i32::MAX
    &&& x < 0 ==> (x + spec_abs(y as int)) * 1000 >= i32::MIN && (x + spec_abs(y as int)) * 1000
        <= i32::MAX && spec_abs(y as int) - x <= i32::MAX
}

/// An integer approximation of `atan2(y, x)` in centidegrees: the angle of
/// the octant pair is interpolated linearly in `(x - |y|) / (x + |y|)`.
pub open spec fn spec_atan2_centidegrees(y: i32, x: i32) -> int {
    let abs_y = spec_abs(y as int);
    let angle = if x >= 0 {
        let den = if x + abs_y >= 1 { x + abs_y } else { 1 };
        let r = trunc_div((x - abs_y) * 1000, den);
        4500 - trunc_div(4500 * r, 1000)
    } else {
        let den = if abs_y - x >= 1 { abs_y - x } else { 1 };
        let r = trunc_div((x + abs_y) * 1000, den);
        13500 - trunc_div(4500 * r, 1000)
    };
    if y < 0 {
        -angle
    } else {
        angle
    }
}

/// `|n| <= d` gives `|trunc_div(1000 n, d)| <= 1000`.
proof fn lemma_ratio_bound(n: int, d: int)
    requires
        d >= 1,
        spec_abs(n) <= d,
    ensures
        -1000 <= trunc_div(n * 1000, d) <= 1000,
{
    if n >= 0 {
        assert(n * 1000 / d <= 1000) by (nonlinear_arith)
            requires
                0 <= n <= d,
                d >= 1,
        ;
        assert(n * 1000 / d >= 0) by (nonlinear_arith)
            requires
                0 <= n,
                d >= 1,
        ;
    } else {
        assert((-(n * 1000)) / d <= 1000) by (nonlinear_arith)
            requires
                0 < -n <= d,
                d >= 1,
        ;
        assert((-(n * 1000)) / d >= 0) by (nonlinear_arith)
            requires
                0 < -n,
                d >= 1,
        ;
    }
}

fn atan2_centidegrees(y: i32, x: i32) -> (r: i32)
    requires
        atan2_defined(y, x),
    ensures
        r == spec_atan2_centidegrees(y, x),
        -18000 <= r <= 18000,
{
    let abs_y: i32 = if y < 0 {
        -y
    } else {
        y
    };
    let angle: i32 = if x >= 0 {
        let sum: i32 = x + abs_y;
        let den: i32 = if sum >= 1 {
            sum
        } else {
            1
        };
        proof {
            lemma_ratio_bound((x - abs_y) as int, den as int);
        }
        let r: i32 = ((x - abs_y) * 1000) / den;
        4500 - (4500 * r / 1000)
    } else {
        let diff: i32 = abs_y - x;
        let den: i32 = if diff >= 1 {
            diff
        } else {
            1
        };
        proof {
            lemma_ratio_bound((x + abs_y) as int, den as int);
        }
        let r: i32 = ((x + abs_y) * 1000) / den;
        13_500 - (4500 * r / 1000)
    };
    if y < 0 {
        -angle
    } else {
        angle
    }
}

/// Heading in centidegrees (`0..36000`) from a magnetometer reading, by a
/// small integer approximation of `atan2(y, x)`; `None` when both horizontal
/// components are zero.
pub fn heading_centidegrees(magnetic: Vector3) -> (r: Option<u16>)
    requires
        atan2_defined(magnetic.y, magnetic.x),
    ensures
        (magnetic.x == 0 && magnetic.y == 0) ==> r is None,
        r matches Some(h) ==> h < 36000,
        !(magnetic.x == 0 && magnetic.y == 0) ==> r == Some(
            (if spec_atan2_centidegrees(magnetic.y, magnetic.x) < 0 {
                spec_atan2_centidegrees(magnetic.y, magnetic.x) + 36000
            } else {
                spec_atan2_centidegrees(magnetic.y, magnetic.x)
            }) as u16,
        ),
        !(magnetic.x == 0 && magnetic.y == 0) ==> r == Some(
            spec_heading(magnetic.y, magnetic.x) as u16,
        ),
{
    if magnetic.x == 0 && magnetic.y == 0 {
        return None;
    }
    let angle = atan2_centidegrees(magnetic.y, magnetic.x);
    Some(
        if angle < 0 {
            (angle + 36_000) as u16
        } else {
            angle as u16
        },
    )
}

/// The compass heading of a reading whose horizontal components are `x`
/// and `y`: the angle of `atan2(y, x)` brought into `0..36000`.
pub open spec fn spec_heading(y: i32, x: i32) -> int {
    let a = spec_atan2_centidegrees(y, x);
    if a < 0 {
        a + 36000
    } else {
        a
    }
}

/// `-d <= n < d` keeps the scaled ratio at most 999.
proof fn lemma_ratio_below_one(n: int, d: int)
    requires
        d >= 1,
        -d <= n < d,
    ensures
        -1000 <= trunc_div(n * 1000, d) <= 999,
{
    if n >= 0 {
        assert(n * 1000 / d <= 999) by (nonlinear_arith)
            requires
                0 <= n < d,
        ;
        assert(n * 1000 / d >= 0) by (nonlinear_arith)
            requires
                0 <= n,
                d >= 1,
        ;
    } else {
        assert((-(n * 1000)) / d <= 1000) by (nonlinear_arith)
            requires
                0 < -n <= d,
        ;
        assert((-(n * 1000)) / d >= 0) by (nonlinear_arith)
            requires
                0 < -n,
                d >= 1,
        ;
    }
}

/// `-d < n < d` keeps the scaled ratio strictly inside `-1000..1000`.
proof fn lemma_ratio_inside(n: int, d: int)
    requires
        d >= 1,
        -d < n < d,
    ensures
        -999 <= trunc_div(n * 1000, d) <= 999,
{
    lemma_ratio_below_one(n, d);
    if n < 0 {
        assert((-(n * 1000)) / d <= 999) by (nonlinear_arith)
            requires
                0 < -n < d,
        ;
    }
}

/// The ratio of `d` to itself, and of `-d` to `d`.
proof fn lemma_ratio_whole(d: int)
    requires
        d >= 1,
    ensures
        trunc_div(d * 1000, d) == 1000,
        trunc_div((-d) * 1000, d) == -1000,
{
    assert(d * 1000 / d == 1000) by (nonlinear_arith)
        requires
            d >= 1,
    ;
    assert(-((-d) * 1000) == d * 1000);
}

/// Scaling a ratio `r` in `-1000..=1000` to the 45 degree octant.
proof fn lemma_octant_scale(r: int)
    requires
        -1000 <= r <= 1000,
    ensures
        -4500 <= trunc_div(4500 * r, 1000) <= 4500,
        r <= 999 ==> trunc_div(4500 * r, 1000) <= 4495,
        r >= -999 ==> trunc_div(4500 * r, 1000) >= -4495,
        r == 1000 ==> trunc_div(4500 * r, 1000) == 4500,
        r == -1000 ==> trunc_div(4500 * r, 1000) == -4500,
{
    if r >= 0 {
        assert(4500 * r / 1000 <= 4500) by (nonlinear_arith)
            requires
                0 <= r <= 1000,
        ;
        assert(4500 * r / 1000 >= 0) by (nonlinear_arith)
            requires
                0 <= r,
        ;
        assert(r <= 999 ==> 4500 * r / 1000 <= 4495) by (nonlinear_arith)
            requires
                0 <= r,
        ;
    } else {
        assert((-(4500 * r)) / 1000 <= 4500) by (nonlinear_arith)
            requires
                -1000 <= r < 0,
        ;
        assert((-(4500 * r)) / 1000 >= 0) by (nonlinear_arith)
            requires
                r < 0,
        ;
        assert(r >= -999 ==> (-(4500 * r)) / 1000 <= 4495) by (nonlinear_arith)
            requires
                r < 0,
        ;
    }
}

/// The heading of a reading lies in the quarter of the compass its field
/// points to: east is 0, a positive `y` turns it towards 90 degrees and
/// beyond, a negative `y` towards 270 degrees; a field along the `x` axis
/// reads 0 (positive `x`) or 180 degrees (negative `x`), and one along a
/// diagonal reads 45, 135, 225 or 315 degrees.
pub proof fn lemma_heading_quadrants(y: i32, x: i32)
    requires
        atan2_defined(y, x),
    ensures
        y == 0 && x > 0 ==> spec_heading(y, x) == 0,
        y == 0 && x < 0 ==> spec_heading(y, x) == 18000,
        y > 0 && x >= 0 ==> 0 < spec_heading(y, x) <= 9000,
        y > 0 && x < 0 ==> 9000 < spec_heading(y, x) < 18000,
        y < 0 && x < 0 ==> 18000 < spec_heading(y, x) < 27000,
        y < 0 && x >= 0 ==> 27000 <= spec_heading(y, x) < 36000,
        x > 0 && y == x ==> spec_heading(y, x) == 4500,
        x < 0 && y == -x ==> spec_heading(y, x) == 13500,
        x < 0 && y == x ==> spec_heading(y, x) == 22500,
        x > 0 && y == -x ==> spec_heading(y, x) == 31500,
{
    let ay = spec_abs(y as int);
    if x >= 0 {
        let den = if x + ay >= 1 { x + ay } else { 1 };
        let n = x - ay;
        if y == 0 && x > 0 {
            lemma_ratio_whole(x as int);
            lemma_octant_scale(1000);
        } else if y != 0 {
            lemma_ratio_below_one(n, den);
            lemma_octant_scale(trunc_div(n * 1000, den));
        }
    } else {
        let den = if ay - x >= 1 { ay - x } else { 1 };
        let n = x + ay;
        if y == 0 {
            lemma_ratio_whole(-x);
            assert(n * 1000 == (-(-x)) * 1000);
            lemma_octant_scale(-1000);
        } else {
            lemma_ratio_inside(n, den);
            lemma_octant_scale(trunc_div(n * 1000, den));
        }
    }
}

/// Mirroring a reading across the east-west axis mirrors its heading: the
/// headings of `(x, y)` and `(x, -y)` add up to a full turn.
pub proof fn lemma_heading_mirror(y: i32, x: i32)
    requires
        atan2_defined(y, x),
        y != 0,
    ensures
        atan2_defined((-y) as i32, x),
        spec_heading((-y) as i32, x) == 36000 - spec_heading(y, x),
{
    let my = (-y) as i32;
    assert(spec_abs(my as int) == spec_abs(y as int));
    lemma_heading_quadrants(y, x);
    lemma_heading_quadrants(my, x);
}

} // verus!
