//! Framed CoreS3-to-Gateway-H2 transport helpers.
//!
//! A frame is `SOF, kind, id, len, payload[len], checksum`, where the
//! checksum is the complement of the wrapping byte sum of everything between
//! `SOF` and the checksum. The module also declares the traits that
//! application-owned UART code implements for OpenThread/Spinel firmware; the
//! BSP does not implement Matter, Thread, Zigbee, OpenThread or Spinel logic.

use vstd::prelude::*;

verus! {

pub const SOF: u8 = 0xA5;

pub const MAX_PAYLOAD: usize = 128;

/// Default CoreS3 Gateway H2 UART baud rate.
pub const DEFAULT_GATEWAY_H2_BAUD: u32 = 115_200;

/// Conservative maximum Spinel frame payload size for application-owned buffers.
pub const DEFAULT_SPINEL_MAX_FRAME_SIZE: usize = 2048;

#[derive(Clone, Copy, Debug, PartialEq, Eq, Structural)]
pub enum FrameKind {
    Request,
    Response,
    Event,
    Error,
}

impl FrameKind {
    /// The kind byte on the wire.
    pub open spec fn spec_code(self) -> u8 {
        match self {
            FrameKind::Request => 0x01,
            FrameKind::Response => 0x02,
            FrameKind::Event => 0x03,
            FrameKind::Error => 0x7F,
        }
    }

    pub open spec fn spec_from_code(value: u8) -> Option<FrameKind> {
        if value == 0x01 {
            Some(FrameKind::Request)
        } else if value == 0x02 {
            Some(FrameKind::Response)
        } else if value == 0x03 {
            Some(FrameKind::Event)
        } else if value == 0x7F {
            Some(FrameKind::Error)
        } else {
            None
        }
    }

    /// The kind byte on the wire.
    pub fn code(self) -> (r: u8)
        ensures
            r == self.spec_code(),
    {
        match self {
            FrameKind::Request => 0x01,
            FrameKind::Response => 0x02,
            FrameKind::Event => 0x03,
            FrameKind::Error => 0x7F,
        }
    }

    pub fn from_u8(value: u8) -> (r: Option<Self>)
        ensures
            r == Self::spec_from_code(value),
    {
        match value {
            0x01 => Some(FrameKind::Request),
            0x02 => Some(FrameKind::Response),
            0x03 => Some(FrameKind::Event),
            0x7F => Some(FrameKind::Error),
            _ => None,
        }
    }
}

#[derive(Clone, Copy, Debug, PartialEq, Eq, Structural)]
pub enum TransportError {
    PayloadTooLong,
    BufferTooSmall,
    InvalidStart,
    InvalidKind,
    InvalidLength,
    BadChecksum,
}

/// Sum of a byte sequence.
pub open spec fn int_sum(bytes: Seq<u8>) -> int
    decreases bytes.len(),
{
    if bytes.len() == 0 {
        0
    } else {
        int_sum(bytes.drop_last()) + bytes.last()
    }
}

/// Wrapping sum of a byte sequence.
pub open spec fn byte_sum(bytes: Seq<u8>) -> u8 {
    (int_sum(bytes) % 256) as u8
}

pub open spec fn spec_checksum(bytes: Seq<u8>) -> u8 {
    !byte_sum(bytes)
}

/// The bytes of a frame before the checksum.
pub open spec fn frame_body(kind: FrameKind, id: u8, payload: Seq<u8>) -> Seq<u8> {
    seq![SOF, kind.spec_code(), id, payload.len() as u8] + payload
}

/// The complete wire form of a frame.
pub open spec fn frame_bytes(kind: FrameKind, id: u8, payload: Seq<u8>) -> Seq<u8> {
    let body = frame_body(kind, id, payload);
    body.push(spec_checksum(body.drop_first()))
}

/// What decoding `bytes` gives for a frame type with payload capacity `cap`.
pub open spec fn spec_decode(bytes: Seq<u8>, cap: nat) -> Result<
    (FrameKind, u8, Seq<u8>),
    TransportError,
> {
    if bytes.len() < 5 {
        Err(TransportError::InvalidLength)
    } else if bytes[0] != SOF {
        Err(TransportError::InvalidStart)
    } else if FrameKind::spec_from_code(bytes[1]) is None {
        Err(TransportError::InvalidKind)
    } else if bytes.len() != bytes[3] + 5 {
        Err(TransportError::InvalidLength)
    } else if spec_checksum(bytes.subrange(1, bytes.len() - 1)) != bytes.last() {
        Err(TransportError::BadChecksum)
    } else if bytes[3] > cap {
        Err(TransportError::PayloadTooLong)
    } else {
        Ok(
            (
                FrameKind::spec_from_code(bytes[1]).unwrap(),
                bytes[2],
                bytes.subrange(4, 4 + bytes[3] as int),
            ),
        )
    }
}

/// The checksum over a byte slice: the complement of the wrapping byte sum.
pub fn checksum(bytes: &[u8]) -> (r: u8)
    ensures
        r == spec_checksum(bytes@),
{
    let mut sum: u8 = 0;
    let mut index: usize = 0;
    while index < bytes.len()
        invariant
            index <= bytes@.len(),
            sum == byte_sum(bytes@.take(index as int)),
        decreases bytes@.len() - index,
    {
        proof {
            assert(bytes@.take(index + 1).drop_last() =~= bytes@.take(index as int));
            vstd::arithmetic::div_mod::lemma_add_mod_noop(
                int_sum(bytes@.take(index as int)),
                bytes@[index as int] as int,
                256,
            );
        }
        sum = sum.wrapping_add(bytes[index]);
        index += 1;
    }
    proof {
        assert(bytes@.take(index as int) =~= bytes@);
    }
    !sum
}

/// A frame body followed by its checksum sums to zero: the checksum of the
/// body with the checksum appended is 0.
pub proof fn lemma_checksum_appended(bytes: Seq<u8>)
    ensures
        spec_checksum(bytes.push(spec_checksum(bytes))) == 0,
{
    let c = spec_checksum(bytes);
    let t = bytes.push(c);
    assert(t.drop_last() =~= bytes);
    let x = byte_sum(bytes);
    assert(x as int + (!x) as int == 255) by (bit_vector);
    vstd::arithmetic::div_mod::lemma_add_mod_noop(int_sum(bytes), c as int, 256);
    assert(!(255u8) == 0u8) by (bit_vector);
}

/// Removing one byte takes exactly that byte off the sum.
pub proof fn lemma_int_sum_remove(s: Seq<u8>, j: int)
    requires
        0 <= j < s.len(),
    ensures
        int_sum(s) == int_sum(s.remove(j)) + s[j],
    decreases s.len(),
{
    if j == s.len() - 1 {
        assert(s.remove(j) =~= s.drop_last());
    } else {
        lemma_int_sum_remove(s.drop_last(), j);
        assert(s.remove(j).drop_last() =~= s.drop_last().remove(j));
        assert(s.remove(j).last() == s.last());
    }
}

/// The checksum does not depend on the order of the bytes.
pub proof fn lemma_checksum_permutation(a: Seq<u8>, b: Seq<u8>)
    requires
        a.to_multiset() == b.to_multiset(),
    ensures
        spec_checksum(a) == spec_checksum(b),
        int_sum(a) == int_sum(b),
    decreases a.len(),
{
    broadcast use vstd::seq_lib::group_to_multiset_ensures;

    if a.len() == 0 {
        assert(b.to_multiset().len() == 0);
        assert(b.len() == 0);
    } else {
        let x = a.last();
        let a2 = a.drop_last();
        assert(a2.push(x) =~= a);
        assert(a.to_multiset().count(x) > 0);
        assert(b.contains(x));
        let j = choose|j: int| 0 <= j < b.len() && b[j] == x;
        let b2 = b.remove(j);
        assert(b2.to_multiset() =~= a2.to_multiset());
        lemma_checksum_permutation(a2, b2);
        lemma_int_sum_remove(b, j);
    }
}

/// One request/response/event frame with at most `N` payload bytes.
#[derive(Clone, Debug, PartialEq, Eq)]
pub struct H2Frame<const N: usize> {
    pub kind: FrameKind,
    pub id: u8,
    pub payload: Vec<u8>,
}

impl<const N: usize> H2Frame<N> {
    /// Builds a frame from the first `N` bytes of `payload`; later bytes are
    /// dropped.
    pub fn new(kind: FrameKind, id: u8, payload: &[u8]) -> (r: Self)
        ensures
            r.kind == kind,
            r.id == id,
            r.payload@ == (if payload@.len() <= N {
                payload@
            } else {
                payload@.take(N as int)
            }),
    {
        let mut data: Vec<u8> = Vec::new();
        let mut i: usize = 0;
        while i < payload.len() && i < N
            invariant
                i <= payload@.len(),
                i <= N,
                data@ == payload@.take(i as int),
            decreases payload@.len() - i,
        {
            data.push(payload[i]);
            i += 1;
            assert(data@ =~= payload@.take(i as int));
        }
        assert(payload@.len() <= N ==> payload@.take(i as int) =~= payload@);
        H2Frame { kind, id, payload: data }
    }

    /// Encodes the frame for an output buffer of `OUT` bytes.
    ///
    /// Fails with `PayloadTooLong` when the payload does not fit the one-byte
    /// length field and with `BufferTooSmall` when the frame needs more than
    /// `OUT` bytes.
    pub fn encode<const OUT: usize>(&self) -> (r: Result<Vec<u8>, TransportError>)
        ensures
            self.payload@.len() > 255 ==> r == Err::<Vec<u8>, TransportError>(
                TransportError::PayloadTooLong,
            ),
            self.payload@.len() <= 255 && OUT < 5 + self.payload@.len() ==> r == Err::<
                Vec<u8>,
                TransportError,
            >(TransportError::BufferTooSmall),
            self.payload@.len() <= 255 && OUT >= 5 + self.payload@.len() ==> (r matches Ok(v)
                && v@ == frame_bytes(self.kind, self.id, self.payload@)),
    {
        if self.payload.len() > 255 {
            return Err(TransportError::PayloadTooLong);
        }
        let needed = 5 + self.payload.len();
        if OUT < needed {
            return Err(TransportError::BufferTooSmall);
        }
        let mut out: Vec<u8> = Vec::new();
        out.push(SOF);
        out.push(self.kind.code());
        out.push(self.id);
        out.push(self.payload.len() as u8);
        let mut i: usize = 0;
        while i < self.payload.len()
            invariant
                i <= self.payload@.len(),
                self.payload@.len() <= 255,
                out@ == seq![SOF, self.kind.spec_code(), self.id, self.payload@.len() as u8]
                    + self.payload@.take(i as int),
            decreases self.payload@.len() - i,
        {
            out.push(self.payload[i]);
            i += 1;
            assert(out@ =~= seq![SOF, self.kind.spec_code(), self.id, self.payload@.len() as u8]
                + self.payload@.take(i as int));
        }
        let ghost body = out@;
        proof {
            assert(self.payload@.take(i as int) =~= self.payload@);
        }
        let sum = checksum(out.as_slice().split_at(1).1);
        proof {
            assert(out@.subrange(1, out@.len() as int) =~= body.drop_first());
        }
        out.push(sum);
        Ok(out)
    }

    /// Decodes one complete frame.
    pub fn decode(bytes: &[u8]) -> (r: Result<Self, TransportError>)
        ensures
            match r {
                Ok(f) => spec_decode(bytes@, N as nat) == Ok::<
                    (FrameKind, u8, Seq<u8>),
                    TransportError,
                >((f.kind, f.id, f.payload@)),
                Err(e) => spec_decode(bytes@, N as nat) == Err::<
                    (FrameKind, u8, Seq<u8>),
                    TransportError,
                >(e),
            },
    {
        if bytes.len() < 5 {
            return Err(TransportError::InvalidLength);
        }
        if bytes[0] != SOF {
            return Err(TransportError::InvalidStart);
        }
        let kind = match FrameKind::from_u8(bytes[1]) {
            Some(kind) => kind,
            None => {
                return Err(TransportError::InvalidKind);
            },
        };
        let id = bytes[2];
        let len = bytes[3] as usize;
        if bytes.len() != len + 5 {
            return Err(TransportError::InvalidLength);
        }
        let last = bytes.len() - 1;
        let inner = bytes.split_at(last).0.split_at(1).1;
        proof {
            assert(inner@ =~= bytes@.subrange(1, bytes@.len() - 1));
        }
        if checksum(inner) != bytes[last] {
            return Err(TransportError::BadChecksum);
        }
        if len > N {
            return Err(TransportError::PayloadTooLong);
        }
        let mut payload: Vec<u8> = Vec::new();
        let mut i: usize = 0;
        while i < len
            invariant
                i <= len,
                len < 256,
                len + 5 == bytes@.len(),
                payload@ == bytes@.subrange(4, 4 + i as int),
            decreases len - i,
        {
            payload.push(bytes[4 + i]);
            i += 1;
            assert(payload@ =~= bytes@.subrange(4, 4 + i as int));
        }
        Ok(H2Frame { kind, id, payload })
    }
}

proof fn lemma_frame_body_facts(kind: FrameKind, id: u8, payload: Seq<u8>)
    requires
        payload.len() <= 255,
    ensures
        ({
            let bytes = frame_bytes(kind, id, payload);
            &&& bytes.len() == payload.len() + 5
            &&& bytes[0] == SOF
            &&& bytes[1] == kind.spec_code()
            &&& bytes[2] == id
            &&& bytes[3] == payload.len()
            &&& bytes.subrange(4, 4 + payload.len() as int) == payload
            &&& bytes.subrange(1, bytes.len() - 1) == frame_body(kind, id, payload).drop_first()
            &&& bytes.last() == spec_checksum(frame_body(kind, id, payload).drop_first())
        }),
{
    let bytes = frame_bytes(kind, id, payload);
    let body = frame_body(kind, id, payload);
    assert(bytes.subrange(4, 4 + payload.len() as int) =~= payload);
    assert(bytes.subrange(1, bytes.len() - 1) =~= body.drop_first());
}

/// Decoding an encoded frame gives the frame back.
///
/// For every kind, id and payload that fits both the length byte and the
/// frame type's capacity `cap`, decoding the wire bytes yields the same kind,
/// id and payload.
pub proof fn lemma_encode_decode_frame(kind: FrameKind, id: u8, payload: Seq<u8>, cap: nat)
    requires
        payload.len() <= 255,
        payload.len() <= cap,
    ensures
        spec_decode(frame_bytes(kind, id, payload), cap) == Ok::<
            (FrameKind, u8, Seq<u8>),
            TransportError,
        >((kind, id, payload)),
{
    lemma_frame_body_facts(kind, id, payload);
}

proof fn lemma_int_sum_update(bytes: Seq<u8>, i: int, x: u8)
    requires
        0 <= i < bytes.len(),
    ensures
        int_sum(bytes.update(i, x)) == int_sum(bytes) - bytes[i] + x,
    decreases bytes.len(),
{
    let u = bytes.update(i, x);
    if i == bytes.len() - 1 {
        assert(u.drop_last() =~= bytes.drop_last());
    } else {
        assert(u.drop_last() =~= bytes.drop_last().update(i, x));
        lemma_int_sum_update(bytes.drop_last(), i, x);
    }
}

proof fn lemma_int_sum_nonneg(bytes: Seq<u8>)
    ensures
        int_sum(bytes) >= 0,
    decreases bytes.len(),
{
    if bytes.len() > 0 {
        lemma_int_sum_nonneg(bytes.drop_last());
    }
}

proof fn lemma_mod_distinct(a: int, b: int)
    requires
        a != b,
        -256 < a - b < 256,
    ensures
        a % 256 != b % 256,
{
    vstd::arithmetic::div_mod::lemma_fundamental_div_mod(a, 256);
    vstd::arithmetic::div_mod::lemma_fundamental_div_mod(b, 256);
    if a % 256 == b % 256 {
        assert(256 * (a / 256) - 256 * (b / 256) == a - b);
        assert(256 * (a / 256 - b / 256) == a - b) by (nonlinear_arith)
            requires
                256 * (a / 256) - 256 * (b / 256) == a - b,
        ;
        assert(false) by (nonlinear_arith)
            requires
                256 * (a / 256 - b / 256) == a - b,
                a != b,
                -256 < a - b < 256,
        ;
    }
}

/// Every single-byte corruption of an encoded frame is rejected.
///
/// Changing any one byte of the wire form of a frame to a different value
/// makes decoding fail, for every frame whose payload fits the length byte.
pub proof fn lemma_single_byte_corruption_detected(
    kind: FrameKind,
    id: u8,
    payload: Seq<u8>,
    cap: nat,
    i: int,
    x: u8,
)
    requires
        payload.len() <= 255,
        0 <= i < payload.len() + 5,
        x != frame_bytes(kind, id, payload)[i],
    ensures
        spec_decode(frame_bytes(kind, id, payload).update(i, x), cap) is Err,
{
    let bytes = frame_bytes(kind, id, payload);
    let bad = bytes.update(i, x);
    lemma_frame_body_facts(kind, id, payload);
    let last = bytes.len() - 1;
    let inner = bytes.subrange(1, last);
    if i == 0 || i == 3 {
    } else if i == last {
        assert(bad.subrange(1, last) =~= inner);
    } else {
        assert(bad.subrange(1, last) =~= inner.update(i - 1, x));
        lemma_int_sum_update(inner, i - 1, x);
        assert(inner[i - 1] == bytes[i]);
        lemma_mod_distinct(int_sum(inner.update(i - 1, x)), int_sum(inner));
        assert(0 <= int_sum(inner)) by {
            lemma_int_sum_nonneg(inner);
        }
        assert(0 <= int_sum(inner.update(i - 1, x))) by {
            lemma_int_sum_nonneg(inner.update(i - 1, x));
        }
        assert(byte_sum(inner.update(i - 1, x)) != byte_sum(inner));
        assert(bad.last() == bytes.last());
        assert(spec_checksum(bad.subrange(1, last)) != bad.last()) by {
            let a = byte_sum(inner.update(i - 1, x));
            let b = byte_sum(inner);
            assert(a != b ==> !a != !b) by (bit_vector);
        }
    }
}

/// Gateway H2 firmware mode assumed by downstream OpenThread integration.
#[derive(Clone, Copy, Debug, PartialEq, Eq, Structural)]
pub enum GatewayH2FirmwareMode {
    /// ESP32-H2 runs OpenThread Radio Co-Processor firmware and exposes Spinel.
    OpenThreadRcp,
    /// ESP32-H2 runs OpenThread Network Co-Processor firmware.
    OpenThreadNcp,
    /// ESP32-H2 runs a vendor/custom Thread coprocessor protocol.
    CustomThreadCoprocessor,
    /// ESP32-H2 runs a vendor/custom Matter bridge protocol.
    CustomMatterBridge,
    /// Firmware mode has not been identified by the application.
    Unknown,
}

/// Static Gateway H2 OpenThread transport metadata.
#[derive(Clone, Copy, Debug, PartialEq, Eq, Structural)]
pub struct GatewayH2OpenThreadConfig {
    /// UART baud rate used by the host link.
    pub baud: u32,
    /// Maximum frame size downstream buffers should reserve.
    pub max_frame_size: usize,
    /// H2 firmware mode expected by the application.
    pub firmware_mode: GatewayH2FirmwareMode,
    /// Whether frames are expected to use Spinel HDLC-lite escaping/framing.
    pub hdlc_lite: bool,
    /// Whether CRC/FCS is provided by the host framing layer.
    pub has_crc: bool,
}

impl GatewayH2OpenThreadConfig {
    /// Conservative defaults for an ESP32-H2 running OpenThread RCP firmware.
    pub fn openthread_rcp() -> (r: Self)
        ensures
            r.baud == DEFAULT_GATEWAY_H2_BAUD,
            r.max_frame_size == DEFAULT_SPINEL_MAX_FRAME_SIZE,
            r.firmware_mode == GatewayH2FirmwareMode::OpenThreadRcp,
            r.hdlc_lite,
            r.has_crc,
    {
        GatewayH2OpenThreadConfig {
            baud: DEFAULT_GATEWAY_H2_BAUD,
            max_frame_size: DEFAULT_SPINEL_MAX_FRAME_SIZE,
            firmware_mode: GatewayH2FirmwareMode::OpenThreadRcp,
            hdlc_lite: true,
            has_crc: true,
        }
    }
}

/// OpenThread device role as reported by an H2 Thread controller backend.
#[derive(Clone, Copy, Debug, PartialEq, Eq, Structural)]
pub enum ThreadRole {
    Disabled,
    Detached,
    Child,
    Router,
    Leader,
    BorderRouter,
}

/// High-level Gateway H2 Thread event for custom/non-Spinel H2 firmware.
#[derive(Clone, Debug, PartialEq, Eq, Structural)]
pub enum GatewayH2Event {
    Ready,
    Attached(ThreadRole),
    Detached,
    DatasetAccepted,
    DatasetRejected,
    Error,
}

/// Transport trait for application-owned UART implementations.
pub trait GatewayH2Transport {
    type Error;

    fn send<const N: usize>(&mut self, frame: &H2Frame<N>) -> Result<(), Self::Error>;

    fn poll_receive<const N: usize>(&mut self) -> Result<Option<H2Frame<N>>, Self::Error>;
}

/// Synchronous Spinel frame transport for OpenThread RCP/NCP firmware.
///
/// For standard OpenThread RCP UART use, implementations pass unescaped
/// Spinel payloads through [`crate::spinel`] before writing bytes to the UART
/// and feed UART bytes into the same codec before returning frames.
pub trait GatewayH2SpinelTransport {
    type Error;

    /// Sends one Spinel frame or encoded HDLC-lite frame, depending on implementation docs.
    fn send_spinel_frame(&mut self, frame: &[u8]) -> Result<(), Self::Error>;

    /// Polls for one received Spinel frame into `out`: `Ok(None)` when no
    /// complete frame is available yet, `Ok(Some(len))` when `out[..len]`
    /// holds one complete frame.
    fn poll_spinel_frame(&mut self, out: &mut [u8]) -> Result<Option<usize>, Self::Error>;
}

/// Higher-level Thread controller trait for H2 firmware that does not expose Spinel.
pub trait GatewayH2ThreadController {
    type Error;

    fn is_ready(&mut self) -> Result<bool, Self::Error>;

    fn set_active_dataset(&mut self, dataset_tlv: &[u8]) -> Result<(), Self::Error>;

    fn attach(&mut self) -> Result<(), Self::Error>;

    fn detach(&mut self) -> Result<(), Self::Error>;

    fn role(&mut self) -> Result<ThreadRole, Self::Error>;

    fn poll_event(&mut self, out: &mut [u8]) -> Result<Option<GatewayH2Event>, Self::Error>;
}

} // verus!
