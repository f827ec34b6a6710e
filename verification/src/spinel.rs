//! OpenThread Spinel HDLC-lite framing for Gateway H2 RCP firmware.
//!
//! The Gateway H2 runs OpenThread RCP firmware whose UART link uses Spinel's
//! HDLC-lite framing: a frame is delimited by [`FLAG`] bytes, carries a 16-bit
//! FCS (the PPP/X.25 CRC) after the payload, and byte-stuffs the delimiter,
//! the escape byte, XON/XOFF and one vendor-reserved byte. This module holds
//! the bounded encoder and the incremental decoder; it does not implement the
//! OpenThread protocol itself.

use vstd::prelude::*;

verus! {

/// HDLC-lite frame delimiter used by Spinel over UART.
pub const FLAG: u8 = 0x7e;

/// HDLC-lite escape byte.
pub const ESCAPE: u8 = 0x7d;

/// HDLC-lite escape transform.
pub const ESCAPE_XOR: u8 = 0x20;

/// XON byte escaped by OpenThread HDLC-lite.
pub const XON: u8 = 0x11;

/// XOFF byte escaped by OpenThread HDLC-lite.
pub const XOFF: u8 = 0x13;

/// Vendor-reserved byte escaped by OpenThread HDLC-lite.
pub const SPECIAL_ESCAPE: u8 = 0xf8;

pub const FCS_INIT: u16 = 0xffff;

pub const FCS_GOOD: u16 = 0xf0b8;

pub const FCS_POLY: u16 = 0x8408;

/// Errors returned by the Spinel HDLC-lite framing helpers.
#[derive(Clone, Copy, Debug, PartialEq, Eq, Structural)]
pub enum SpinelHdlcError {
    /// Caller-provided output buffer is too small for the encoded/decoded frame.
    BufferTooSmall,
    /// The received frame exceeds the decoder's bounded internal buffer.
    FrameTooLong,
    /// A delimiter arrived after an escape byte without an escaped payload byte.
    UnexpectedEscape,
    /// A received frame was shorter than the mandatory 16-bit FCS.
    FrameTooShort,
    /// The received frame's FCS did not validate.
    BadFcs,
}

// ---------------------------------------------------------------------------
// Mathematical model
// ---------------------------------------------------------------------------

/// One bit of the reflected CRC-16 (polynomial 0x8408).
pub open spec fn fcs_bit(f: u16) -> u16 {
    if f & 1 != 0 {
        (f >> 1u16) ^ FCS_POLY
    } else {
        f >> 1u16
    }
}

pub open spec fn fcs_bits(f: u16, n: nat) -> u16
    decreases n,
{
    if n == 0 {
        f
    } else {
        fcs_bits(fcs_bit(f), (n - 1) as nat)
    }
}

/// The FCS after one more byte.
pub open spec fn spec_update_fcs(fcs: u16, byte: u8) -> u16 {
    fcs_bits(fcs ^ (byte as u16), 8)
}

/// The FCS of `bytes`, starting from `init`.
pub open spec fn fcs_of(init: u16, bytes: Seq<u8>) -> u16
    decreases bytes.len(),
{
    if bytes.len() == 0 {
        init
    } else {
        spec_update_fcs(fcs_of(init, bytes.drop_last()), bytes.last())
    }
}

/// The two FCS bytes that follow `payload` on the wire (little-endian,
/// complemented).
pub open spec fn fcs_trailer(payload: Seq<u8>) -> Seq<u8> {
    let fcs = !fcs_of(FCS_INIT, payload);
    seq![(fcs & 0x00ff) as u8, (fcs >> 8u16) as u8]
}

pub open spec fn spec_should_escape(byte: u8) -> bool {
    byte == FLAG || byte == ESCAPE || byte == XON || byte == XOFF || byte == SPECIAL_ESCAPE
}

/// The wire bytes for one payload byte.
pub open spec fn escape_byte(byte: u8) -> Seq<u8> {
    if spec_should_escape(byte) {
        seq![ESCAPE, byte ^ ESCAPE_XOR]
    } else {
        seq![byte]
    }
}

/// The wire bytes for a run of payload bytes.
pub open spec fn escape_all(bytes: Seq<u8>) -> Seq<u8>
    decreases bytes.len(),
{
    if bytes.len() == 0 {
        Seq::empty()
    } else {
        escape_byte(bytes[0]) + escape_all(bytes.drop_first())
    }
}

/// The complete HDLC-lite frame for `payload`: delimiter, stuffed payload,
/// stuffed FCS, delimiter.
pub open spec fn spec_encode(payload: Seq<u8>) -> Seq<u8> {
    seq![FLAG] + escape_all(payload + fcs_trailer(payload)) + seq![FLAG]
}

/// `bytes` written over `buf` starting at `pos`.
pub open spec fn write_at(buf: Seq<u8>, pos: int, bytes: Seq<u8>) -> Seq<u8> {
    buf.take(pos) + bytes + buf.skip(pos + bytes.len())
}

/// What the decoder holds between bytes.
pub struct DecoderView {
    /// Unescaped bytes of the frame received so far (payload and FCS).
    pub frame: Seq<u8>,
    /// The previous byte was an escape byte.
    pub escaped: bool,
    /// A delimiter has been seen and bytes are being collected.
    pub in_frame: bool,
}

pub open spec fn idle_view() -> DecoderView {
    DecoderView { frame: Seq::empty(), escaped: false, in_frame: false }
}

pub open spec fn open_view() -> DecoderView {
    DecoderView { frame: Seq::empty(), escaped: false, in_frame: true }
}

/// The decoder's reaction to a delimiter.
pub open spec fn finish_step(s: DecoderView, out_len: nat) -> (DecoderView, Result<
    Option<nat>,
    SpinelHdlcError,
>) {
    if !s.in_frame || s.frame.len() == 0 {
        (open_view(), Ok(None))
    } else if s.escaped {
        (idle_view(), Err(SpinelHdlcError::UnexpectedEscape))
    } else if s.frame.len() < 2 {
        (idle_view(), Err(SpinelHdlcError::FrameTooShort))
    } else if fcs_of(FCS_INIT, s.frame) != FCS_GOOD {
        (idle_view(), Err(SpinelHdlcError::BadFcs))
    } else if out_len < s.frame.len() - 2 {
        (idle_view(), Err(SpinelHdlcError::BufferTooSmall))
    } else {
        (open_view(), Ok(Some((s.frame.len() - 2) as nat)))
    }
}

/// The decoder's reaction to one received byte, given its capacity and the
/// length of the caller's output buffer.
pub open spec fn decode_step(s: DecoderView, byte: u8, cap: nat, out_len: nat) -> (
    DecoderView,
    Result<Option<nat>, SpinelHdlcError>,
) {
    if byte == FLAG {
        finish_step(s, out_len)
    } else if !s.in_frame {
        (s, Ok(None))
    } else if byte == ESCAPE {
        (DecoderView { escaped: true, ..s }, Ok(None))
    } else {
        let decoded = if s.escaped {
            byte ^ ESCAPE_XOR
        } else {
            byte
        };
        if s.frame.len() >= cap {
            (idle_view(), Err(SpinelHdlcError::FrameTooLong))
        } else {
            (DecoderView { frame: s.frame.push(decoded), escaped: false, in_frame: true }, Ok(None))
        }
    }
}

/// The decoder state after a run of bytes.
pub open spec fn decode_run(s: DecoderView, bytes: Seq<u8>, cap: nat, out_len: nat) -> DecoderView
    decreases bytes.len(),
{
    if bytes.len() == 0 {
        s
    } else {
        decode_run(decode_step(s, bytes[0], cap, out_len).0, bytes.drop_first(), cap, out_len)
    }
}

/// Every byte of the run was accepted without completing or rejecting a frame.
pub open spec fn decode_quiet(s: DecoderView, bytes: Seq<u8>, cap: nat, out_len: nat) -> bool
    decreases bytes.len(),
{
    if bytes.len() == 0 {
        true
    } else {
        decode_step(s, bytes[0], cap, out_len).1 == Ok::<Option<nat>, SpinelHdlcError>(None)
            && decode_quiet(
            decode_step(s, bytes[0], cap, out_len).0,
            bytes.drop_first(),
            cap,
            out_len,
        )
    }
}

// ---------------------------------------------------------------------------
// Proofs
// ---------------------------------------------------------------------------

proof fn lemma_escape_all_append(a: Seq<u8>, b: Seq<u8>)
    ensures
        escape_all(a + b) == escape_all(a) + escape_all(b),
    decreases a.len(),
{
    if a.len() == 0 {
        assert(a + b =~= b);
    } else {
        assert((a + b).drop_first() =~= a.drop_first() + b);
        lemma_escape_all_append(a.drop_first(), b);
        assert(escape_all(a + b) =~= escape_all(a) + escape_all(b));
    }
}

proof fn lemma_escape_all_single(b: u8)
    ensures
        escape_all(seq![b]) == escape_byte(b),
{
    assert(seq![b].drop_first() =~= Seq::<u8>::empty());
    assert(seq![b][0] == b);
    assert(escape_all(Seq::<u8>::empty()) == Seq::<u8>::empty());
    assert(escape_all(seq![b]) =~= escape_byte(b) + Seq::<u8>::empty());
}

proof fn lemma_fcs_of_push(init: u16, bytes: Seq<u8>, b: u8)
    ensures
        fcs_of(init, bytes.push(b)) == spec_update_fcs(fcs_of(init, bytes), b),
{
    assert(bytes.push(b).drop_last() =~= bytes);
}

proof fn lemma_fcs_bits_8(f: u16)
    ensures
        fcs_bits(f, 8) == fcs_bit(
            fcs_bit(fcs_bit(fcs_bit(fcs_bit(fcs_bit(fcs_bit(fcs_bit(f))))))),
        ),
{
    reveal_with_fuel(fcs_bits, 9);
}

/// Appending the complemented FCS of any prefix leaves the CRC residue.
proof fn lemma_fcs_residue(f: u16)
    ensures
        spec_update_fcs(spec_update_fcs(f, ((!f) & 0x00ff) as u8), ((!f) >> 8u16) as u8)
            == FCS_GOOD,
{
    let lo = ((!f) & 0x00ff) as u8;
    let hi = ((!f) >> 8u16) as u8;
    let a0 = f ^ (lo as u16);
    let a1 = fcs_bit(a0);
    let a2 = fcs_bit(a1);
    let a3 = fcs_bit(a2);
    let a4 = fcs_bit(a3);
    let a5 = fcs_bit(a4);
    let a6 = fcs_bit(a5);
    let a7 = fcs_bit(a6);
    let a8 = fcs_bit(a7);
    let b0 = a8 ^ (hi as u16);
    let b1 = fcs_bit(b0);
    let b2 = fcs_bit(b1);
    let b3 = fcs_bit(b2);
    let b4 = fcs_bit(b3);
    let b5 = fcs_bit(b4);
    let b6 = fcs_bit(b5);
    let b7 = fcs_bit(b6);
    let b8 = fcs_bit(b7);
    lemma_fcs_bits_8(a0);
    lemma_fcs_bits_8(b0);
    assert(b8 == 0xf0b8u16) by (bit_vector)
        requires
            lo == ((!f) & 0x00ff) as u8,
            hi == ((!f) >> 8u16) as u8,
            a0 == f ^ (lo as u16),
            a1 == (if a0 & 1 != 0 { (a0 >> 1u16) ^ 0x8408u16 } else { a0 >> 1u16 }),
            a2 == (if a1 & 1 != 0 { (a1 >> 1u16) ^ 0x8408u16 } else { a1 >> 1u16 }),
            a3 == (if a2 & 1 != 0 { (a2 >> 1u16) ^ 0x8408u16 } else { a2 >> 1u16 }),
            a4 == (if a3 & 1 != 0 { (a3 >> 1u16) ^ 0x8408u16 } else { a3 >> 1u16 }),
            a5 == (if a4 & 1 != 0 { (a4 >> 1u16) ^ 0x8408u16 } else { a4 >> 1u16 }),
            a6 == (if a5 & 1 != 0 { (a5 >> 1u16) ^ 0x8408u16 } else { a5 >> 1u16 }),
            a7 == (if a6 & 1 != 0 { (a6 >> 1u16) ^ 0x8408u16 } else { a6 >> 1u16 }),
            a8 == (if a7 & 1 != 0 { (a7 >> 1u16) ^ 0x8408u16 } else { a7 >> 1u16 }),
            b0 == a8 ^ (hi as u16),
            b1 == (if b0 & 1 != 0 { (b0 >> 1u16) ^ 0x8408u16 } else { b0 >> 1u16 }),
            b2 == (if b1 & 1 != 0 { (b1 >> 1u16) ^ 0x8408u16 } else { b1 >> 1u16 }),
            b3 == (if b2 & 1 != 0 { (b2 >> 1u16) ^ 0x8408u16 } else { b2 >> 1u16 }),
            b4 == (if b3 & 1 != 0 { (b3 >> 1u16) ^ 0x8408u16 } else { b3 >> 1u16 }),
            b5 == (if b4 & 1 != 0 { (b4 >> 1u16) ^ 0x8408u16 } else { b4 >> 1u16 }),
            b6 == (if b5 & 1 != 0 { (b5 >> 1u16) ^ 0x8408u16 } else { b5 >> 1u16 }),
            b7 == (if b6 & 1 != 0 { (b6 >> 1u16) ^ 0x8408u16 } else { b6 >> 1u16 }),
            b8 == (if b7 & 1 != 0 { (b7 >> 1u16) ^ 0x8408u16 } else { b7 >> 1u16 }),
    ;
}

/// The FCS over a payload followed by its trailer is the CRC residue.
pub proof fn lemma_trailer_checks(payload: Seq<u8>)
    ensures
        fcs_of(FCS_INIT, payload + fcs_trailer(payload)) == FCS_GOOD,
{
    let f = fcs_of(FCS_INIT, payload);
    let t = fcs_trailer(payload);
    assert(payload + t =~= payload.push(t[0]).push(t[1]));
    lemma_fcs_of_push(FCS_INIT, payload, t[0]);
    lemma_fcs_of_push(FCS_INIT, payload.push(t[0]), t[1]);
    lemma_fcs_residue(f);
}

proof fn lemma_decode_run_append(s: DecoderView, a: Seq<u8>, b: Seq<u8>, cap: nat, out_len: nat)
    ensures
        decode_run(s, a + b, cap, out_len) == decode_run(decode_run(s, a, cap, out_len), b, cap, out_len),
        decode_quiet(s, a + b, cap, out_len) == (decode_quiet(s, a, cap, out_len) && decode_quiet(
            decode_run(s, a, cap, out_len),
            b,
            cap,
            out_len,
        )),
    decreases a.len(),
{
    if a.len() == 0 {
        assert(a + b =~= b);
    } else {
        assert((a + b).drop_first() =~= a.drop_first() + b);
        assert((a + b)[0] == a[0]);
        lemma_decode_run_append(decode_step(s, a[0], cap, out_len).0, a.drop_first(), b, cap, out_len);
    }
}

proof fn lemma_escaped_byte_facts(b: u8)
    ensures
        spec_should_escape(b) ==> (b ^ ESCAPE_XOR) != FLAG && (b ^ ESCAPE_XOR) != ESCAPE,
        (b ^ ESCAPE_XOR) ^ ESCAPE_XOR == b,
{
    assert((b == 0x7eu8 || b == 0x7du8 || b == 0x11u8 || b == 0x13u8 || b == 0xf8u8) ==> (b
        ^ 0x20u8) != 0x7eu8 && (b ^ 0x20u8) != 0x7du8) by (bit_vector);
    assert((b ^ 0x20u8) ^ 0x20u8 == b) by (bit_vector);
}

/// Feeding the stuffed bytes of `data` to an open decoder appends `data` to
/// its frame.
proof fn lemma_decode_escaped(frame: Seq<u8>, data: Seq<u8>, cap: nat, out_len: nat)
    requires
        frame.len() + data.len() <= cap,
    ensures
        decode_run(
            DecoderView { frame, escaped: false, in_frame: true },
            escape_all(data),
            cap,
            out_len,
        ) == (DecoderView { frame: frame + data, escaped: false, in_frame: true }),
        decode_quiet(
            DecoderView { frame, escaped: false, in_frame: true },
            escape_all(data),
            cap,
            out_len,
        ),
    decreases data.len(),
{
    let s = DecoderView { frame, escaped: false, in_frame: true };
    if data.len() == 0 {
        assert(frame + data =~= frame);
    } else {
        let b = data[0];
        let e = escape_byte(b);
        let s1 = DecoderView { frame: frame.push(b), escaped: false, in_frame: true };
        lemma_escaped_byte_facts(b);
        lemma_decode_run_append(s, e, escape_all(data.drop_first()), cap, out_len);
        if spec_should_escape(b) {
            let mid = DecoderView { escaped: true, ..s };
            assert(decode_step(s, ESCAPE, cap, out_len) == (mid, Ok::<Option<nat>, SpinelHdlcError>(None)));
            assert(decode_step(mid, b ^ ESCAPE_XOR, cap, out_len) == (s1, Ok::<Option<nat>, SpinelHdlcError>(None)));
            assert(e.drop_first() =~= seq![b ^ ESCAPE_XOR]);
            assert(e.drop_first().drop_first() =~= Seq::<u8>::empty());
            assert(e[0] == ESCAPE);
            assert(e.drop_first()[0] == b ^ ESCAPE_XOR);
            assert(decode_run(s1, Seq::<u8>::empty(), cap, out_len) == s1);
            assert(decode_quiet(s1, Seq::<u8>::empty(), cap, out_len));
            assert(decode_run(mid, e.drop_first(), cap, out_len) == s1);
            assert(decode_quiet(mid, e.drop_first(), cap, out_len));
            assert(decode_run(s, e, cap, out_len) == s1);
            assert(decode_quiet(s, e, cap, out_len));
        } else {
            assert(decode_step(s, b, cap, out_len) == (s1, Ok::<Option<nat>, SpinelHdlcError>(None)));
            assert(e.drop_first() =~= Seq::<u8>::empty());
            assert(e[0] == b);
            assert(decode_run(s1, Seq::<u8>::empty(), cap, out_len) == s1);
            assert(decode_quiet(s1, Seq::<u8>::empty(), cap, out_len));
            assert(decode_run(s, e, cap, out_len) == s1);
            assert(decode_quiet(s, e, cap, out_len));
        }
        lemma_decode_escaped(frame.push(b), data.drop_first(), cap, out_len);
        assert(frame.push(b) + data.drop_first() =~= frame + data);
    }
}

/// Decoding what [`encode_frame`] produces gives the payload back.
///
/// A decoder that has not seen a delimiter yet, fed every byte of the encoded
/// frame but the closing delimiter, accepts them all quietly and holds the
/// payload followed by its FCS; the closing delimiter then completes the frame
/// with the payload's length, and the payload is what it copies out. This
/// holds whenever the decoder's capacity takes the payload and its two FCS
/// bytes and the output buffer takes the payload.
pub proof fn lemma_encode_decode_roundtrip(payload: Seq<u8>, cap: nat, out_len: nat)
    requires
        payload.len() + 2 <= cap,
        payload.len() <= out_len,
    ensures
        ({
            let wire = spec_encode(payload);
            let body = wire.drop_last();
            let held = decode_run(idle_view(), body, cap, out_len);
            &&& decode_quiet(idle_view(), body, cap, out_len)
            &&& held == (DecoderView {
                frame: payload + fcs_trailer(payload),
                escaped: false,
                in_frame: true,
            })
            &&& wire.last() == FLAG
            &&& decode_step(held, FLAG, cap, out_len) == (open_view(), Ok::<
                Option<nat>,
                SpinelHdlcError,
            >(Some(payload.len())))
            &&& held.frame.take(payload.len() as int) == payload
        }),
{
    let data = payload + fcs_trailer(payload);
    let wire = spec_encode(payload);
    let body = wire.drop_last();
    assert(body =~= seq![FLAG] + escape_all(data));
    lemma_decode_run_append(idle_view(), seq![FLAG], escape_all(data), cap, out_len);
    assert(seq![FLAG].drop_first() =~= Seq::<u8>::empty());
    assert(seq![FLAG][0] == FLAG);
    assert(decode_quiet(open_view(), Seq::<u8>::empty(), cap, out_len));
    assert(decode_quiet(idle_view(), seq![FLAG], cap, out_len));
    assert(decode_step(idle_view(), FLAG, cap, out_len).0 == open_view());
    assert(decode_run(open_view(), Seq::<u8>::empty(), cap, out_len) == open_view());
    assert(decode_run(idle_view(), seq![FLAG], cap, out_len) == open_view());
    assert(Seq::<u8>::empty() + data =~= data);
    lemma_decode_escaped(Seq::empty(), data, cap, out_len);
    lemma_trailer_checks(payload);
    assert(data.take(payload.len() as int) =~= payload);
    let held = decode_run(idle_view(), body, cap, out_len);
    assert(decode_quiet(idle_view(), body, cap, out_len));
    assert(held == (DecoderView { frame: data, escaped: false, in_frame: true }));
    assert(wire.last() == FLAG);
    assert(decode_step(held, FLAG, cap, out_len) == (open_view(), Ok::<Option<nat>, SpinelHdlcError>(Some(payload.len()))));
}

// ---------------------------------------------------------------------------
// Executable code
// ---------------------------------------------------------------------------

/// Whether HDLC-lite stuffs `byte`.
pub fn should_escape(byte: u8) -> (r: bool)
    ensures
        r == spec_should_escape(byte),
{
    byte == FLAG || byte == ESCAPE || byte == XON || byte == XOFF || byte == SPECIAL_ESCAPE
}

/// Folds one byte into a running FCS.
pub fn update_fcs(fcs: u16, byte: u8) -> (r: u16)
    ensures
        r == spec_update_fcs(fcs, byte),
{
    let mut fcs = fcs ^ (byte as u16);
    let ghost start = fcs;
    let mut bit: u32 = 0;
    while bit < 8
        invariant
            bit <= 8,
            fcs == fcs_bits(start, bit as nat),
        decreases 8 - bit,
    {
        proof {
            lemma_fcs_bits_split(start, bit as nat);
        }
        if (fcs & 1) != 0 {
            fcs = (fcs >> 1u16) ^ FCS_POLY;
        } else {
            fcs = fcs >> 1u16;
        }
        bit += 1;
    }
    fcs
}

proof fn lemma_fcs_bits_split(f: u16, n: nat)
    ensures
        fcs_bits(f, n + 1) == fcs_bit(fcs_bits(f, n)),
    decreases n,
{
    assert(fcs_bits(f, n + 1) == fcs_bits(fcs_bit(f), n));
    if n > 0 {
        lemma_fcs_bits_split(fcs_bit(f), (n - 1) as nat);
        assert(fcs_bits(f, n) == fcs_bits(fcs_bit(f), (n - 1) as nat));
    }
}

fn push_raw(byte: u8, out: &mut [u8], written: &mut usize) -> (r: Result<(), SpinelHdlcError>)
    requires
        *old(written) <= old(out)@.len(),
    ensures
        final(out)@.len() == old(out)@.len(),
        match r {
            Ok(()) => {
                &&& *old(written) < old(out)@.len()
                &&& *final(written) == *old(written) + 1
                &&& final(out)@ == old(out)@.update(*old(written) as int, byte)
            },
            Err(e) => {
                &&& e == SpinelHdlcError::BufferTooSmall
                &&& *old(written) == old(out)@.len()
                &&& *final(written) == *old(written)
                &&& final(out)@ == old(out)@
            },
        },
{
    if *written == out.len() {
        return Err(SpinelHdlcError::BufferTooSmall);
    }
    out[*written] = byte;
    *written = *written + 1;
    Ok(())
}

fn push_escaped(byte: u8, out: &mut [u8], written: &mut usize) -> (r: Result<(), SpinelHdlcError>)
    requires
        *old(written) <= old(out)@.len(),
    ensures
        ({
            let e = escape_byte(byte);
            let w = *old(written) as int;
            let n = old(out)@.len() as int;
            &&& final(out)@.len() == n
            &&& *final(written) <= n
            &&& match r {
                Ok(()) => {
                    &&& w + e.len() <= n
                    &&& *final(written) == w + e.len()
                    &&& final(out)@ == write_at(old(out)@, w, e)
                },
                Err(err) => {
                    &&& err == SpinelHdlcError::BufferTooSmall
                    &&& w + e.len() > n
                    &&& *final(written) == n
                    &&& final(out)@ == write_at(old(out)@, w, e.take(n - w))
                },
            }
        }),
{
    let ghost old_out = out@;
    let ghost w = *written as int;
    if should_escape(byte) {
        let r1 = push_raw(ESCAPE, out, written);
        if r1.is_err() {
            assert(out@ =~= write_at(old_out, w, escape_byte(byte).take(0)));
            return r1;
        }
        let r2 = push_raw(byte ^ ESCAPE_XOR, out, written);
        if r2.is_err() {
            assert(out@ =~= write_at(old_out, w, escape_byte(byte).take(1)));
            return r2;
        }
        assert(out@ =~= write_at(old_out, w, escape_byte(byte)));
        r2
    } else {
        let r = push_raw(byte, out, written);
        if r.is_err() {
            assert(out@ =~= write_at(old_out, w, escape_byte(byte).take(0)));
        } else {
            assert(out@ =~= write_at(old_out, w, escape_byte(byte)));
        }
        r
    }
}

/// The wire bytes that [`encode_frame`] has produced after `i` payload bytes.
pub open spec fn enc_prefix(frame: Seq<u8>, i: int) -> Seq<u8> {
    seq![FLAG] + escape_all(frame.take(i))
}

pub open spec fn is_prefix(p: Seq<u8>, s: Seq<u8>) -> bool {
    p.len() <= s.len() && s.take(p.len() as int) == p
}

proof fn lemma_encode_prefixes(frame: Seq<u8>, i: int)
    requires
        0 <= i <= frame.len(),
    ensures
        is_prefix(enc_prefix(frame, i), spec_encode(frame)),
        i < frame.len() ==> enc_prefix(frame, i + 1) == enc_prefix(frame, i) + escape_byte(
            frame[i],
        ),
        ({
            let t = fcs_trailer(frame);
            &&& spec_encode(frame) == enc_prefix(frame, frame.len() as int) + escape_byte(t[0])
                + escape_byte(t[1]) + seq![FLAG]
        }),
{
    let t = fcs_trailer(frame);
    lemma_escape_all_append(frame, t);
    lemma_escape_all_append(frame.take(i), frame.skip(i));
    assert(frame.take(i) + frame.skip(i) =~= frame);
    let enc = spec_encode(frame);
    let p = enc_prefix(frame, i);
    assert(enc =~= p + (escape_all(frame.skip(i)) + escape_all(t) + seq![FLAG]));
    assert(enc.take(p.len() as int) =~= p);
    if i < frame.len() {
        assert(frame.take(i + 1) =~= frame.take(i) + seq![frame[i]]);
        lemma_escape_all_append(frame.take(i), seq![frame[i]]);
        lemma_escape_all_single(frame[i]);
        assert(enc_prefix(frame, i + 1) =~= enc_prefix(frame, i) + escape_byte(frame[i]));
    }
    assert(frame.take(frame.len() as int) =~= frame);
    assert(t =~= seq![t[0]] + seq![t[1]]);
    lemma_escape_all_append(seq![t[0]], seq![t[1]]);
    lemma_escape_all_single(t[0]);
    lemma_escape_all_single(t[1]);
    assert(enc =~= enc_prefix(frame, frame.len() as int) + escape_byte(t[0]) + escape_byte(t[1])
        + seq![FLAG]);
}

proof fn lemma_write_prefix(buf: Seq<u8>, p: Seq<u8>, x: Seq<u8>)
    requires
        p.len() + x.len() <= buf.len(),
    ensures
        write_at(write_at(buf, 0, p), p.len() as int, x) == write_at(buf, 0, p + x),
{
    assert(write_at(write_at(buf, 0, p), p.len() as int, x) =~= write_at(buf, 0, p + x));
}

proof fn lemma_write_overflow(buf: Seq<u8>, enc: Seq<u8>, p: Seq<u8>, e: Seq<u8>)
    requires
        is_prefix(p + e, enc),
        p.len() <= buf.len() < p.len() + e.len(),
    ensures
        write_at(write_at(buf, 0, p), p.len() as int, e.take(buf.len() - p.len()))
            == enc.take(buf.len() as int),
{
    let n = buf.len() as int;
    assert(enc.take(n) =~= (p + e).take(n));
    assert(write_at(write_at(buf, 0, p), p.len() as int, e.take(n - p.len())) =~= enc.take(n));
}

/// Encodes one raw Spinel frame into HDLC-lite UART bytes.
///
/// The result starts and ends with [`FLAG`] and carries the complemented
/// 16-bit FCS of the payload, little-endian, before the closing delimiter;
/// payload and FCS bytes are stuffed. On success the encoded length is
/// returned and `out` holds the frame followed by its old tail; when `out` is
/// too short, it holds as much of the frame as fits.
pub fn encode_frame(frame: &[u8], out: &mut [u8]) -> (r: Result<usize, SpinelHdlcError>)
    ensures
        ({
            let enc = spec_encode(frame@);
            let n = old(out)@.len();
            &&& final(out)@.len() == n
            &&& match r {
                Ok(len) => {
                    &&& len == enc.len()
                    &&& len <= n
                    &&& final(out)@ == enc + old(out)@.skip(len as int)
                },
                Err(e) => {
                    &&& e == SpinelHdlcError::BufferTooSmall
                    &&& enc.len() > n
                    &&& final(out)@ == enc.take(n as int)
                },
            }
        }),
{
    let ghost old_out = out@;
    let ghost n = out@.len() as int;
    let ghost enc = spec_encode(frame@);
    let mut written: usize = 0;
    proof {
        lemma_encode_prefixes(frame@, 0);
        assert(frame@.take(0) =~= Seq::<u8>::empty());
        assert(enc_prefix(frame@, 0) =~= seq![FLAG]);
    }
    let r0 = push_raw(FLAG, out, &mut written);
    if r0.is_err() {
        assert(out@ =~= enc.take(n));
        return Err(SpinelHdlcError::BufferTooSmall);
    }
    assert(out@ =~= write_at(old_out, 0, enc_prefix(frame@, 0)));
    let mut fcs: u16 = FCS_INIT;
    let mut i: usize = 0;
    while i < frame.len()
        invariant
            0 <= i <= frame@.len(),
            out@.len() == n,
            n == old_out.len(),
            old_out == old(out)@,
            enc == spec_encode(frame@),
            written as int == enc_prefix(frame@, i as int).len(),
            written <= n,
            out@ == write_at(old_out, 0, enc_prefix(frame@, i as int)),
            fcs == fcs_of(FCS_INIT, frame@.take(i as int)),
        decreases frame@.len() - i,
    {
        let byte = frame[i];
        let ghost p = enc_prefix(frame@, i as int);
        let ghost e = escape_byte(byte);
        proof {
            assert(frame@.take(i + 1) =~= frame@.take(i as int).push(byte));
            lemma_fcs_of_push(FCS_INIT, frame@.take(i as int), byte);
            lemma_encode_prefixes(frame@, i as int);
            lemma_encode_prefixes(frame@, i + 1);
        }
        fcs = update_fcs(fcs, byte);
        let r = push_escaped(byte, out, &mut written);
        if r.is_err() {
            proof {
                assert(enc_prefix(frame@, i + 1) == p + e);
                assert(is_prefix(p + e, enc));
                lemma_write_overflow(old_out, enc, p, e);
                assert(out@ == enc.take(n));
                assert(enc.len() > n);
                assert(out@.len() == old_out.len());
                assert(out@ == spec_encode(frame@).take(old_out.len() as int));
            }
            return Err(SpinelHdlcError::BufferTooSmall);
        }
        proof {
            lemma_write_prefix(old_out, p, e);
        }
        i += 1;
    }
    proof {
        assert(frame@.take(i as int) =~= frame@);
        lemma_encode_prefixes(frame@, i as int);
    }
    let fcs = !fcs;
    let lo = (fcs & 0x00ff) as u8;
    let hi = (fcs >> 8u16) as u8;
    let ghost p0 = enc_prefix(frame@, i as int);
    let ghost p1 = p0 + escape_byte(lo);
    let ghost p2 = p1 + escape_byte(hi);
    proof {
        let t = fcs_trailer(frame@);
        assert(t[0] == lo && t[1] == hi);
        assert(enc =~= p2 + seq![FLAG]);
        assert(is_prefix(p1, enc)) by {
            assert(enc =~= p1 + (escape_byte(hi) + seq![FLAG]));
            assert(enc.take(p1.len() as int) =~= p1);
        }
        assert(is_prefix(p2, enc)) by {
            assert(enc.take(p2.len() as int) =~= p2);
        }
    }
    let r1 = push_escaped(lo, out, &mut written);
    if r1.is_err() {
        proof {
            lemma_write_overflow(old_out, enc, p0, escape_byte(lo));
        }
        return Err(SpinelHdlcError::BufferTooSmall);
    }
    proof {
        lemma_write_prefix(old_out, p0, escape_byte(lo));
    }
    let r2 = push_escaped(hi, out, &mut written);
    if r2.is_err() {
        proof {
            lemma_write_overflow(old_out, enc, p1, escape_byte(hi));
        }
        return Err(SpinelHdlcError::BufferTooSmall);
    }
    proof {
        lemma_write_prefix(old_out, p1, escape_byte(hi));
    }
    let r3 = push_raw(FLAG, out, &mut written);
    if r3.is_err() {
        assert(out@ =~= enc.take(n));
        return Err(SpinelHdlcError::BufferTooSmall);
    }
    assert(out@ =~= enc + old_out.skip(written as int));
    Ok(written)
}

/// Bounded incremental Spinel HDLC-lite decoder holding at most `N` frame
/// bytes (payload and FCS).
///
/// Feed bytes from the Gateway H2 UART into [`Self::push_byte`]. When a
/// complete frame is received and its FCS validates, `Ok(Some(len))` is
/// returned and `out[..len]` holds the unescaped payload without the FCS.
pub struct SpinelHdlcDecoder<const N: usize> {
    frame: [u8; N],
    len: usize,
    escaped: bool,
    in_frame: bool,
}

impl<const N: usize> SpinelHdlcDecoder<N> {
    /// The decoder's state.
    pub closed spec fn view_state(&self) -> DecoderView {
        DecoderView {
            frame: self.frame@.take(self.len as int),
            escaped: self.escaped,
            in_frame: self.in_frame,
        }
    }

    /// The decoder never holds more than `N` bytes.
    pub closed spec fn wf(&self) -> bool {
        self.len <= N
    }

    /// Creates an empty decoder that waits for a delimiter.
    pub fn new() -> (r: Self)
        ensures
            r.wf(),
            r.view_state() == idle_view(),
    {
        let frame: [u8; N] = vstd::array::array_fill_for_copy_types::<u8, N>(0u8);
        let r = SpinelHdlcDecoder { frame, len: 0, escaped: false, in_frame: false };
        assert(r.view_state().frame =~= Seq::<u8>::empty());
        r
    }

    /// Drops all partial receive state.
    pub fn reset(&mut self)
        ensures
            final(self).wf(),
            final(self).view_state() == idle_view(),
    {
        self.len = 0;
        self.escaped = false;
        self.in_frame = false;
        assert(final(self).view_state().frame =~= Seq::<u8>::empty());
    }

    /// Pushes one UART byte and possibly completes one frame.
    pub fn push_byte(&mut self, byte: u8, out: &mut [u8]) -> (r: Result<
        Option<usize>,
        SpinelHdlcError,
    >)
        requires
            old(self).wf(),
        ensures
            final(self).wf(),
            ({
                let (next, res) = decode_step(
                    old(self).view_state(),
                    byte,
                    N as nat,
                    old(out)@.len(),
                );
                &&& final(self).view_state() == next
                &&& match r {
                    Ok(Some(len)) => {
                        &&& res == Ok::<Option<nat>, SpinelHdlcError>(Some(len as nat))
                        &&& final(out)@ == old(self).view_state().frame.take(len as int) + old(
                            out,
                        )@.skip(len as int)
                    },
                    Ok(None) => {
                        &&& res == Ok::<Option<nat>, SpinelHdlcError>(None)
                        &&& final(out)@ == old(out)@
                    },
                    Err(e) => {
                        &&& res == Err::<Option<nat>, SpinelHdlcError>(e)
                        &&& final(out)@ == old(out)@
                    },
                }
            }),
    {
        if byte == FLAG {
            return self.finish_or_start(out);
        }
        if !self.in_frame {
            return Ok(None);
        }
        if byte == ESCAPE {
            self.escaped = true;
            return Ok(None);
        }
        let decoded = if self.escaped {
            self.escaped = false;
            byte ^ ESCAPE_XOR
        } else {
            byte
        };
        if self.len == N {
            self.reset();
            return Err(SpinelHdlcError::FrameTooLong);
        }
        let ghost before = self.frame@.take(self.len as int);
        self.frame[self.len] = decoded;
        self.len = self.len + 1;
        assert(self.frame@.take(self.len as int) =~= before.push(decoded));
        Ok(None)
    }

    fn finish_or_start(&mut self, out: &mut [u8]) -> (r: Result<Option<usize>, SpinelHdlcError>)
        requires
            old(self).wf(),
        ensures
            final(self).wf(),
            ({
                let (next, res) = finish_step(old(self).view_state(), old(out)@.len());
                &&& final(self).view_state() == next
                &&& match r {
                    Ok(Some(len)) => {
                        &&& res == Ok::<Option<nat>, SpinelHdlcError>(Some(len as nat))
                        &&& final(out)@ == old(self).view_state().frame.take(len as int) + old(
                            out,
                        )@.skip(len as int)
                    },
                    Ok(None) => {
                        &&& res == Ok::<Option<nat>, SpinelHdlcError>(None)
                        &&& final(out)@ == old(out)@
                    },
                    Err(e) => {
                        &&& res == Err::<Option<nat>, SpinelHdlcError>(e)
                        &&& final(out)@ == old(out)@
                    },
                }
            }),
    {
        if !self.in_frame || self.len == 0 {
            self.in_frame = true;
            self.escaped = false;
            self.len = 0;
            assert(self.frame@.take(0) =~= Seq::<u8>::empty());
            return Ok(None);
        }
        if self.escaped {
            self.reset();
            return Err(SpinelHdlcError::UnexpectedEscape);
        }
        if self.len < 2 {
            self.reset();
            return Err(SpinelHdlcError::FrameTooShort);
        }
        let ghost held = self.frame@.take(self.len as int);
        let mut fcs: u16 = FCS_INIT;
        let mut index: usize = 0;
        while index < self.len
            invariant
                index <= self.len <= N,
                held == self.frame@.take(self.len as int),
                fcs == fcs_of(FCS_INIT, held.take(index as int)),
            decreases self.len - index,
        {
            proof {
                assert(held.take(index + 1) =~= held.take(index as int).push(held[index as int]));
                lemma_fcs_of_push(FCS_INIT, held.take(index as int), held[index as int]);
            }
            fcs = update_fcs(fcs, self.frame[index]);
            index += 1;
        }
        proof {
            assert(held.take(index as int) =~= held);
        }
        if fcs != FCS_GOOD {
            self.reset();
            return Err(SpinelHdlcError::BadFcs);
        }
        let payload_len = self.len - 2;
        if out.len() < payload_len {
            self.reset();
            return Err(SpinelHdlcError::BufferTooSmall);
        }
        let ghost old_out = out@;
        let mut k: usize = 0;
        while k < payload_len
            invariant
                k <= payload_len,
                payload_len <= out@.len(),
                payload_len + 2 == self.len <= N,
                held == self.frame@.take(self.len as int),
                out@.len() == old_out.len(),
                out@ == held.take(k as int) + old_out.skip(k as int),
            decreases payload_len - k,
        {
            out[k] = self.frame[k];
            k += 1;
            assert(out@ =~= held.take(k as int) + old_out.skip(k as int));
        }
        self.len = 0;
        assert(self.frame@.take(0) =~= Seq::<u8>::empty());
        self.escaped = false;
        self.in_frame = true;
        Ok(Some(payload_len))
    }
}

impl<const N: usize> Default for SpinelHdlcDecoder<N> {
    fn default() -> (r: Self)
        ensures
            r.wf(),
            r.view_state() == idle_view(),
    {
        Self::new()
    }
}

} // verus!
