use nvdec_pipeline::protocol::{
    encode_frame_message, parse_frame_message, Compression, DecodedFrame, ErrorResponse,
    FrameHeader, MessageType,
};

#[test]
fn test_header_roundtrip() {
    let header = FrameHeader::new(1920, 1080, 42, 123).with_compression().with_scaled();

    let bytes = header.to_bytes();
    let parsed = FrameHeader::from_bytes(&bytes).unwrap();

    assert_eq!(parsed.width, 1920);
    assert_eq!(parsed.height, 1080);
    assert_eq!(parsed.frame_num, 42);
    assert_eq!(parsed.request_id, 123);
    assert!(parsed.is_compressed());
    assert!(parsed.is_scaled());
}

#[test]
fn test_frame_message_uncompressed() {
    let frame = DecodedFrame { width: 100, height: 100, frame_num: 0, data: vec![0u8; 100 * 100 * 4] };

    let msg = encode_frame_message(&frame, None, 1, false);

    let (header, payload) = parse_frame_message(&msg).unwrap();
    assert_eq!(header.width, 100);
    assert_eq!(header.height, 100);
    assert!(!header.is_compressed());
    assert_eq!(payload.len(), 100 * 100 * 4);
}

#[test]
fn test_frame_message_compressed() {
    let frame = DecodedFrame { width: 100, height: 100, frame_num: 5, data: vec![128u8; 100 * 100 * 4] };

    let msg = encode_frame_message(&frame, Some(Compression::Lz4), 2, true);

    let (header, payload) = parse_frame_message(&msg).unwrap();
    assert_eq!(header.width, 100);
    assert_eq!(header.height, 100);
    assert_eq!(header.frame_num, 5);
    assert!(header.is_compressed());
    assert!(header.is_scaled());
    assert_eq!(payload.len(), 100 * 100 * 4);
    assert_eq!(payload[0], 128);
}

#[test]
fn header_wire_layout() {
    let h = FrameHeader::new(0x0102, 0x0304, 0x0a0b0c0d, 7).with_jpeg();
    assert_eq!(
        h.to_bytes(),
        [0x4d, 0x48, 2, 8, 0x02, 0x01, 0x04, 0x03, 0x0d, 0x0c, 0x0b, 0x0a, 7, 0, 0, 0]
    );
    assert!(h.is_jpeg());
    assert!(!h.is_compressed());
}

#[test]
fn header_rejects_short_or_foreign_input() {
    assert!(FrameHeader::from_bytes(&[0x4d, 0x48, 2]).is_none());
    let mut b = FrameHeader::new(1, 1, 1, 1).to_bytes();
    b[0] = b'X';
    assert!(FrameHeader::from_bytes(&b).is_none());
    let mut c = FrameHeader::new(1, 1, 1, 1).to_bytes();
    c[2] = 77;
    assert_eq!(FrameHeader::from_bytes(&c).unwrap().msg_type, MessageType::Error);
}

#[test]
fn dimensions_keep_low_bits() {
    assert_eq!(FrameHeader::new(70000, 2, 0, 0).width, 70000u32 as u16);
}

#[test]
fn compression_shrinks_uniform_payload() {
    let frame = DecodedFrame { width: 64, height: 64, frame_num: 1, data: vec![9u8; 64 * 64 * 4] };
    let raw = encode_frame_message(&frame, None, 0, false);
    let packed = encode_frame_message(&frame, Some(Compression::Lz4), 0, false);
    assert!(packed.len() < raw.len());
    assert_eq!(&packed[16..20], &(64u32 * 64 * 4).to_le_bytes());
}

#[test]
fn corrupt_compressed_payload_is_rejected() {
    let mut msg = FrameHeader::new(1, 1, 0, 0).with_compression().to_bytes().to_vec();
    msg.extend_from_slice(&[0xff, 0xff]);
    assert!(parse_frame_message(&msg).is_none());
    let header_only = FrameHeader::new(1, 1, 0, 0).to_bytes();
    assert!(parse_frame_message(&header_only).is_none());
}

#[test]
fn error_response_fields() {
    let r = ErrorResponse::new("7".to_string(), "E_OPEN".to_string(), "no file".to_string());
    assert!(!r.ok);
    assert_eq!(r.error.code, "E_OPEN");
}

#[test]
fn oversized_compressed_payload_is_rejected() {
    let mut msg = FrameHeader::new(1, 1, 0, 0).with_compression().to_bytes().to_vec();
    msg.resize(16 + 16 * 1024 * 1024 + 1, 0xff);
    assert!(parse_frame_message(&msg).is_none());
}
