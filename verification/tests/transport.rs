use core_s3::transport::{
    checksum, FrameKind, GatewayH2FirmwareMode, GatewayH2OpenThreadConfig, H2Frame,
    TransportError, SOF,
};

#[test]
fn encodes_and_decodes_frame() {
    let frame = H2Frame::<16>::new(FrameKind::Request, 7, b"state");
    let bytes = frame.encode::<16>().unwrap();
    let decoded = H2Frame::<16>::decode(&bytes).unwrap();
    assert_eq!(decoded, frame);
}

#[test]
fn rejects_bad_checksum() {
    let frame = H2Frame::<16>::new(FrameKind::Event, 1, b"x");
    let mut bytes = frame.encode::<16>().unwrap();
    let last = bytes.len() - 1;
    bytes[last] ^= 0x01;
    assert_eq!(H2Frame::<16>::decode(&bytes), Err(TransportError::BadChecksum));
}

#[test]
fn checksum_is_inverted_wrapping_sum() {
    assert_eq!(checksum(&[]), 0xFF);
    assert_eq!(checksum(&[0x01, 0x02]), !0x03u8);
    assert_eq!(checksum(&[0xFF, 0x02]), !0x01u8);
}

#[test]
fn encoding_layout() {
    let frame = H2Frame::<16>::new(FrameKind::Error, 9, &[0xAA, 0xBB]);
    let bytes = frame.encode::<16>().unwrap();
    assert_eq!(bytes[..6], [SOF, 0x7F, 9, 2, 0xAA, 0xBB]);
    assert_eq!(bytes[6], checksum(&bytes[1..6]));
    assert_eq!(frame.encode::<6>(), Err(TransportError::BufferTooSmall));
}

#[test]
fn decode_errors() {
    assert_eq!(H2Frame::<16>::decode(&[SOF, 1, 0, 0]), Err(TransportError::InvalidLength));
    assert_eq!(H2Frame::<16>::decode(&[0x00, 1, 0, 0, 0xFE]), Err(TransportError::InvalidStart));
    assert_eq!(H2Frame::<16>::decode(&[SOF, 0x55, 0, 0, 0xAA]), Err(TransportError::InvalidKind));
    assert_eq!(H2Frame::<16>::decode(&[SOF, 1, 0, 1, 0xFE]), Err(TransportError::InvalidLength));
    let big = H2Frame::<16>::new(FrameKind::Response, 1, &[1, 2, 3]);
    let bytes = big.encode::<16>().unwrap();
    assert_eq!(H2Frame::<2>::decode(&bytes), Err(TransportError::PayloadTooLong));
}

#[test]
fn new_truncates_payload_to_capacity() {
    let frame = H2Frame::<4>::new(FrameKind::Request, 0, &[1, 2, 3, 4, 5, 6]);
    assert_eq!(frame.payload, vec![1, 2, 3, 4]);
}

#[test]
fn openthread_rcp_defaults() {
    let config = GatewayH2OpenThreadConfig::openthread_rcp();
    assert_eq!(config.baud, 115_200);
    assert_eq!(config.max_frame_size, 2048);
    assert_eq!(config.firmware_mode, GatewayH2FirmwareMode::OpenThreadRcp);
    assert!(config.hdlc_lite && config.has_crc);
}

#[test]
fn checksum_of_frame_with_its_checksum_is_zero_and_order_free() {
    let body = [0x03u8, 0x01, 0x01, 0x78];
    assert_eq!(checksum(&body), 0x82);
    assert_eq!(checksum(&[0x03, 0x01, 0x01, 0x78, 0x82]), 0x00);
    assert_eq!(checksum(&[0x78, 0x01, 0x03, 0x01]), 0x82);
}
