use codex_code_mode_host::frame::decode_frame;
use codex_code_mode_host::frame::encode_frame;
use codex_code_mode_host::frame::payload_length;
use codex_code_mode_host::frame::DecodedFrame;

#[test]
fn frame_starts_with_little_endian_length() {
    let frame = encode_frame(b"{\"a\":1}");
    assert_eq!(&frame[..4], &[7, 0, 0, 0]);
    assert_eq!(&frame[4..], b"{\"a\":1}");
    assert_eq!(payload_length(&frame[..4]), 7);
}

#[test]
fn payload_length_reads_all_four_bytes() {
    assert_eq!(payload_length(&[0x78, 0x56, 0x34, 0x12]), 0x1234_5678);
    assert_eq!(payload_length(&[0xff, 0xff, 0xff, 0xff]), u32::MAX);
    let payload = vec![5u8; 300];
    let frame = encode_frame(&payload);
    assert_eq!(&frame[..4], &[44, 1, 0, 0]);
}

#[test]
fn decode_reads_back_an_encoded_frame_followed_by_more() {
    let mut bytes = encode_frame(b"hello");
    bytes.extend_from_slice(&encode_frame(b"next"));
    assert_eq!(
        decode_frame(&bytes),
        DecodedFrame::Complete { payload: b"hello".to_vec(), consumed: 9 }
    );
    assert_eq!(
        decode_frame(&bytes[9..]),
        DecodedFrame::Complete { payload: b"next".to_vec(), consumed: 8 }
    );
}

#[test]
fn decode_tells_empty_from_incomplete() {
    assert_eq!(decode_frame(&[]), DecodedFrame::Empty);
    assert_eq!(decode_frame(&[1, 0]), DecodedFrame::Incomplete);
    assert_eq!(decode_frame(&[3, 0, 0, 0, b'a']), DecodedFrame::Incomplete);
    assert_eq!(
        decode_frame(&[0, 0, 0, 0]),
        DecodedFrame::Complete { payload: Vec::new(), consumed: 4 }
    );
}
