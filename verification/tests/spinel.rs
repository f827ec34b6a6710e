use core_s3::spinel::{encode_frame, SpinelHdlcDecoder, SpinelHdlcError, ESCAPE, FLAG};

#[test]
fn encodes_and_decodes_spinel_payload() {
    let payload = [0x80, 0x06, 0x00, 0x7e, 0x7d, 0x11, 0x13, 0xf8];
    let mut encoded = [0u8; 64];
    let len = encode_frame(&payload, &mut encoded).unwrap();

    assert_eq!(encoded[0], FLAG);
    assert_eq!(encoded[len - 1], FLAG);
    assert!(encoded[..len].windows(2).any(|pair| pair == [ESCAPE, 0x5e]));
    assert!(encoded[..len].windows(2).any(|pair| pair == [ESCAPE, 0x5d]));

    let mut decoder = SpinelHdlcDecoder::<32>::new();
    let mut decoded = [0u8; 32];
    let mut out_len = None;
    for byte in encoded[..len].iter().copied() {
        out_len = decoder.push_byte(byte, &mut decoded).unwrap().or(out_len);
    }

    assert_eq!(out_len, Some(payload.len()));
    assert_eq!(&decoded[..payload.len()], payload);
}

#[test]
fn rejects_bad_fcs() {
    let payload = [0x80, 0x06, 0x00];
    let mut encoded = [0u8; 32];
    let len = encode_frame(&payload, &mut encoded).unwrap();
    encoded[len - 2] ^= 0x01;

    let mut decoder = SpinelHdlcDecoder::<16>::new();
    let mut decoded = [0u8; 16];
    let mut error = None;
    for byte in encoded[..len].iter().copied() {
        match decoder.push_byte(byte, &mut decoded) {
            Ok(_) => {}
            Err(err) => error = Some(err),
        }
    }

    assert_eq!(error, Some(SpinelHdlcError::BadFcs));
}

#[test]
fn reports_output_buffer_too_small_without_truncating() {
    let payload = [1, 2, 3, 4];
    let mut encoded = [0u8; 32];
    let len = encode_frame(&payload, &mut encoded).unwrap();
    let mut decoder = SpinelHdlcDecoder::<16>::new();
    let mut decoded = [0u8; 3];
    let mut error = None;

    for byte in encoded[..len].iter().copied() {
        match decoder.push_byte(byte, &mut decoded) {
            Ok(_) => {}
            Err(err) => error = Some(err),
        }
    }

    assert_eq!(error, Some(SpinelHdlcError::BufferTooSmall));
}

#[test]
fn ignores_bytes_until_first_flag() {
    let mut decoder = SpinelHdlcDecoder::<16>::new();
    let mut decoded = [0u8; 16];
    assert_eq!(decoder.push_byte(0x80, &mut decoded), Ok(None));
    assert_eq!(decoder.push_byte(FLAG, &mut decoded), Ok(None));
}

#[test]
fn encode_reports_small_output_buffer() {
    let payload = [0x7e; 8];
    let mut encoded = [0u8; 10];
    assert_eq!(encode_frame(&payload, &mut encoded), Err(SpinelHdlcError::BufferTooSmall));
}

#[test]
fn decoder_rejects_frames_longer_than_its_buffer() {
    let payload = [0u8; 20];
    let mut encoded = [0u8; 64];
    let len = encode_frame(&payload, &mut encoded).unwrap();
    let mut decoder = SpinelHdlcDecoder::<8>::new();
    let mut decoded = [0u8; 32];
    let mut error = None;
    for byte in encoded[..len].iter().copied() {
        if let Err(err) = decoder.push_byte(byte, &mut decoded) {
            error = Some(err);
        }
    }
    assert_eq!(error, Some(SpinelHdlcError::FrameTooLong));
}
