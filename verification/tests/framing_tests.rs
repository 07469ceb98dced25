use captcha_helper::{decode_frame_len, encode_frame, MAX_MESSAGE_SIZE};

#[test]
fn test_write_message_format() {
    let msg = b"test message";
    let len = (msg.len() as u32).to_le_bytes();
    assert_eq!(len.len(), 4);
    assert_eq!(u32::from_le_bytes(len), 12);
}

#[test]
fn test_encode_frame_layout() {
    let framed = encode_frame(b"test message");
    assert_eq!(framed.len(), 16);
    assert_eq!(&framed[..4], &[12u8, 0, 0, 0]);
    assert_eq!(&framed[4..], b"test message");
}

#[test]
fn test_encode_frame_empty_payload() {
    let framed = encode_frame(b"");
    assert_eq!(framed, vec![0u8, 0, 0, 0]);
}

#[test]
fn test_decode_frame_len_reads_little_endian() {
    assert_eq!(decode_frame_len(&[1, 0, 0, 0]).unwrap(), 1);
    assert_eq!(decode_frame_len(&[0, 1, 0, 0]).unwrap(), 256);
    assert_eq!(decode_frame_len(&[0, 0, 0, 0]).unwrap(), 0);
}

#[test]
fn test_decode_frame_len_accepts_bound() {
    let header = MAX_MESSAGE_SIZE.to_le_bytes();
    assert_eq!(decode_frame_len(&header).unwrap(), MAX_MESSAGE_SIZE);
}

#[test]
fn test_decode_frame_len_rejects_oversized_declaration() {
    // One past the 1 MiB bound, and the worst case: both fail before any
    // payload-sized buffer could exist.
    let header = (MAX_MESSAGE_SIZE + 1).to_le_bytes();
    assert_eq!(decode_frame_len(&header).unwrap_err(), "Message too large");
    assert!(decode_frame_len(&[0xff, 0xff, 0xff, 0xff]).is_err());
}

#[test]
fn test_frame_roundtrip() {
    let payload = b"{\"action\":\"status\"}";
    let framed = encode_frame(payload);
    let declared = decode_frame_len(&framed[..4]).unwrap();
    assert_eq!(declared as usize, payload.len());
    assert_eq!(&framed[4..], payload);
}
