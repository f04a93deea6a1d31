//! Frame codec and frame scanner behaviour on concrete buffers.

use ut181a::message::{scan_frame, FrameScan, Message};
use ut181a::packet::Packet;
use ut181a::ErrorKind;

fn parse_data(data: &[u8], expected_data: &[u8], expected_chksum: u16, expected_rest: &[u8]) {
    match scan_frame(data) {
        FrameScan::Frame { payload, checksum, consumed, .. } => {
            assert_eq!(payload.as_slice(), expected_data);
            assert_eq!(checksum, expected_chksum);
            assert_eq!(&data[consumed..], expected_rest);
        }
        FrameScan::Incomplete => panic!("scan_frame(data) should find a frame"),
    }
}

#[test]
fn test_parse1() {
    let data = [0xAB, 0xCD, 0x03, 0x00, 0x05, 0x12, 0x21];
    parse_data(&data, &[0x05], 0x2112, &[]);
}

#[test]
fn test_parse_with_prefix() {
    let data = [
        0x00,
        0x00,
        0xAB,
        0x00,
        0xCD,
        0xAB,
        0xCD,
        0x03,
        0x00,
        0x05,
        0x12,
        0x21,
    ];
    parse_data(&data, &[0x05], 0x2112, &[]);
}

#[test]
fn test_parse_with_suffix() {
    let data = [0xAB, 0xCD, 0x03, 0x00, 0x05, 0x12, 0x21, 0x00, 0x00];
    parse_data(&data, &[0x05], 0x2112, &[0x00, 0x00]);
}

#[test]
fn checksum_of_single_byte_payload() {
    // seed 2 + low(len) 1 + high(len) 0, plus the payload byte 5
    assert_eq!(Packet::new(&[0x05]).checksum(), 8);
}

#[test]
fn frame_layout_of_single_byte_payload() {
    let frame = Packet::new(&[0x05]).frame();
    assert_eq!(frame.as_slice(), &[0xAB, 0xCD, 0x03, 0x00, 0x05, 0x08, 0x00]);
}

#[test]
fn checksum_wraps_modulo_16_bits() {
    // 260 bytes of 0xFF: 2 + 4 + 1 + 260 * 255 = 66307 = 0x10303, wraps to 0x0303
    let payload = vec![0xFFu8; 260];
    assert_eq!(Packet::new(payload.as_slice()).checksum(), 0x0303);
}

/// A payload framed by the codec scans back to exactly that payload,
/// consuming the payload length plus six framing bytes.
#[test]
fn built_frame_scans_back() {
    let payload = [0x01u8, 0x4F, 0x4B];
    let frame = Packet::new(&payload).frame();
    match scan_frame(frame.as_slice()) {
        FrameScan::Frame { marker, payload: p, checksum, consumed } => {
            assert_eq!(marker, 0);
            assert_eq!(p.as_slice(), &payload);
            assert_eq!(checksum, Packet::new(&payload).checksum());
            assert_eq!(consumed, payload.len() + 6);
        }
        FrameScan::Incomplete => panic!("the built frame must scan"),
    }
    match Message::from_bin(frame.as_slice()) {
        Ok(Some((Message::Success, consumed))) => assert_eq!(consumed, 9),
        other => panic!("expected Success over 9 bytes, got {:?}", other),
    }
}

#[test]
fn garbage_prefix_and_suffix_do_not_disturb_decoding() {
    let payload = [0x01u8, 0x4F, 0x4B];
    let frame = Packet::new(&payload).frame();
    let mut buf: Vec<u8> = vec![0x00, 0xCD, 0xAB, 0x00, 0x17];
    let garbage_len = buf.len();
    buf.extend_from_slice(frame.as_slice());
    buf.extend_from_slice(&[0x44, 0x55]);
    match Message::from_bin(buf.as_slice()) {
        Ok(Some((Message::Success, consumed))) => {
            assert_eq!(consumed, garbage_len + frame.len());
            assert_eq!(&buf[consumed..], &[0x44, 0x55]);
        }
        other => panic!("expected Success, got {:?}", other),
    }
}

#[test]
fn corrupt_checksum_frame_is_skipped() {
    let p1 = [0x72u8, 0x08, 0x33];
    let mut bad = Packet::new(&p1).frame();
    let last = bad.len() - 1;
    bad[last] = bad[last].wrapping_add(0x11);
    let p2 = [0x01u8, 0x4F, 0x4B];
    let good = Packet::new(&p2).frame();
    let mut buf = bad.clone();
    buf.extend_from_slice(good.as_slice());
    match Message::from_bin(buf.as_slice()) {
        Ok(Some((Message::Success, consumed))) => {
            assert_eq!(consumed, buf.len());
        }
        other => panic!("expected the second frame's message, got {:?}", other),
    }
}

#[test]
fn incomplete_frame_reports_incomplete() {
    // marker and a declared length of 16, but only two of the declared bytes
    let data = [0xABu8, 0xCD, 0x10, 0x00, 0x01, 0x02];
    assert!(matches!(scan_frame(&data), FrameScan::Incomplete));
    assert!(matches!(Message::from_bin(&data), Ok(None)));
}

#[test]
fn missing_marker_reports_incomplete() {
    let data = [0x01u8, 0x02, 0x03, 0xAB, 0x00, 0xCD, 0x07];
    assert!(matches!(Message::from_bin(&data), Ok(None)));
}

#[test]
fn device_error_reply_decodes() {
    let payload = [0x01u8, 0x45, 0x52];
    let frame = Packet::new(&payload).frame();
    match Message::from_bin(frame.as_slice()) {
        Ok(Some((Message::DeviceError, _))) => {}
        other => panic!("expected DeviceError, got {:?}", other),
    }
}

#[test]
fn unknown_reply_code_is_reported() {
    let payload = [0x01u8, 0x00, 0x01];
    let frame = Packet::new(&payload).frame();
    match Message::from_bin(frame.as_slice()) {
        Err(ErrorKind::UnknownReplyCode(code)) => assert_eq!(code, 0x0100),
        other => panic!("expected UnknownReplyCode, got {:?}", other),
    }
}

#[test]
fn unknown_message_tag_is_reported() {
    let payload = [0x77u8, 0x01];
    let frame = Packet::new(&payload).frame();
    match Message::from_bin(frame.as_slice()) {
        Err(ErrorKind::UnknownMessageFormat(tag)) => assert_eq!(tag, 0x77),
        other => panic!("expected UnknownMessageFormat, got {:?}", other),
    }
}

#[test]
fn reply_body_passes_through_verbatim() {
    let payload = [0x72u8, 0x08, 0x2A, 0x00];
    match Message::new(&payload) {
        Ok(Message::Reply(body)) => assert_eq!(body.as_slice(), &[0x08, 0x2A, 0x00]),
        other => panic!("expected Reply, got {:?}", other),
    }
}
