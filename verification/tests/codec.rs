use bytes::{BufMut, BytesMut};
use dshare::codec::{MessageCodec, MAX_FRAME_BYTES};
use dshare::ProtocolError;

// The bincode payloads of `Message::Ping { nonce }` and `Message::Pong { nonce }`:
// the variant index as a little-endian u32, then the nonce as a little-endian u64.
fn ping(nonce: u64) -> Vec<u8> {
    let mut v = 10u32.to_le_bytes().to_vec();
    v.extend_from_slice(&nonce.to_le_bytes());
    v
}

fn pong(nonce: u64) -> Vec<u8> {
    let mut v = 11u32.to_le_bytes().to_vec();
    v.extend_from_slice(&nonce.to_le_bytes());
    v
}

// The bincode payloads of the messages below: a variant index as a
// little-endian u32, then the fields in order; integers little-endian, a
// `bool` as one byte, a string or byte string as its u64 length and bytes.
fn hello(hostname: &str, width: u32, height: u32) -> Vec<u8> {
    let mut v = 0u32.to_le_bytes().to_vec(); // Message::Hello
    v.extend_from_slice(&1u16.to_le_bytes()); // protocol_version
    v.extend_from_slice(&16u64.to_le_bytes()); // peer_id: Uuid::nil()
    v.extend_from_slice(&[0u8; 16]);
    v.extend_from_slice(&(hostname.len() as u64).to_le_bytes());
    v.extend_from_slice(hostname.as_bytes());
    v.extend_from_slice(&width.to_le_bytes());
    v.extend_from_slice(&height.to_le_bytes());
    v
}

fn mouse_move(dx: i32, dy: i32) -> Vec<u8> {
    let mut v = 4u32.to_le_bytes().to_vec(); // Message::MouseMove
    v.extend_from_slice(&dx.to_le_bytes());
    v.extend_from_slice(&dy.to_le_bytes());
    v
}

fn mouse_button(button: u32, pressed: bool) -> Vec<u8> {
    let mut v = 6u32.to_le_bytes().to_vec(); // Message::MouseButton
    v.extend_from_slice(&button.to_le_bytes());
    v.push(pressed as u8);
    v
}

fn key_event(keycode: u32, pressed: bool, mods: [bool; 4]) -> Vec<u8> {
    let mut v = 8u32.to_le_bytes().to_vec(); // Message::KeyEvent
    v.extend_from_slice(&keycode.to_le_bytes());
    v.push(pressed as u8);
    v.extend(mods.iter().map(|m| *m as u8));
    v
}

fn roundtrip(payload: &[u8]) -> Vec<u8> {
    let mut codec = MessageCodec;
    let mut buf = BytesMut::new();
    codec.encode_frame(payload, &mut buf).expect("encode");
    let out = codec.decode_frame(&mut buf).expect("decode").expect("frame");
    assert!(buf.is_empty());
    out.to_vec()
}

#[test]
fn hello_roundtrip() {
    let original = hello("test", 1920, 1080);
    let back = roundtrip(&original);
    assert_eq!(back, original);
    // hostname "test" and screen.width 1920 are where the encoding put them.
    assert_eq!(&back[38..42], b"test");
    assert_eq!(u32::from_le_bytes(back[42..46].try_into().unwrap()), 1920);
}

#[test]
fn mouse_events_roundtrip() {
    let mv = mouse_move(-5, 12);
    assert_eq!(roundtrip(&mv), mv);
    let back = roundtrip(&mv);
    assert_eq!(i32::from_le_bytes(back[4..8].try_into().unwrap()), -5);
    assert_eq!(i32::from_le_bytes(back[8..12].try_into().unwrap()), 12);
    let button = mouse_button(1, true); // MouseButton::Right
    assert_eq!(roundtrip(&button), button);
}

#[test]
fn key_event_roundtrip() {
    let key = key_event(35, true, [true, false, false, false]);
    let back = roundtrip(&key);
    assert_eq!(back, key);
    assert_eq!(u32::from_le_bytes(back[4..8].try_into().unwrap()), 35);
    assert_eq!(back[9], 1); // shift
    assert_eq!(back[10], 0); // ctrl
}

#[test]
fn partial_frame_returns_none() {
    let mut codec = MessageCodec;
    let mut buf = BytesMut::new();
    codec.encode_frame(&ping(42), &mut buf).expect("encode");
    // Truncate to just the length prefix + 1 byte of payload.
    buf.truncate(5);
    assert!(codec.decode_frame(&mut buf).expect("decode").is_none());
    assert_eq!(buf.len(), 5);
}

#[test]
fn oversized_frame_rejected() {
    let mut codec = MessageCodec;
    let mut buf = BytesMut::new();
    // Forge a length prefix exceeding the cap.
    buf.put_u32((MAX_FRAME_BYTES + 1) as u32);
    match codec.decode_frame(&mut buf) {
        Err(ProtocolError::FrameTooLarge(n)) => assert_eq!(n, MAX_FRAME_BYTES + 1),
        other => panic!("expected FrameTooLarge, got {other:?}"),
    }
}

#[test]
fn two_messages_in_one_buffer() {
    let mut codec = MessageCodec;
    let mut buf = BytesMut::new();
    codec.encode_frame(&ping(1), &mut buf).unwrap();
    codec.encode_frame(&pong(1), &mut buf).unwrap();

    let first = codec.decode_frame(&mut buf).unwrap().unwrap();
    assert_eq!(&first[..], &ping(1)[..]);
    let second = codec.decode_frame(&mut buf).unwrap().unwrap();
    assert_eq!(&second[..], &pong(1)[..]);
    assert!(codec.decode_frame(&mut buf).unwrap().is_none());
}

#[test]
fn frame_layout_is_big_endian_length_then_payload() {
    let mut codec = MessageCodec;
    let mut buf = BytesMut::new();
    codec.encode_frame(&[0xAA, 0xBB, 0xCC], &mut buf).unwrap();
    assert_eq!(&buf[..], &[0, 0, 0, 3, 0xAA, 0xBB, 0xCC]);
}

#[test]
fn short_buffer_waits() {
    let mut codec = MessageCodec;
    let mut buf = BytesMut::from(&[0u8, 0, 1][..]);
    assert!(codec.decode_frame(&mut buf).unwrap().is_none());
    assert_eq!(&buf[..], &[0, 0, 1]);
}

#[test]
fn empty_payload_roundtrips() {
    let mut codec = MessageCodec;
    let mut buf = BytesMut::new();
    codec.encode_frame(&[], &mut buf).unwrap();
    assert_eq!(&buf[..], &[0, 0, 0, 0]);
    let p = codec.decode_frame(&mut buf).unwrap().unwrap();
    assert!(p.is_empty());
    assert!(buf.is_empty());
}

#[test]
fn frame_at_the_cap_is_accepted_and_above_refused() {
    let mut codec = MessageCodec;
    let mut buf = BytesMut::new();
    let big = vec![7u8; MAX_FRAME_BYTES];
    codec.encode_frame(&big, &mut buf).unwrap();
    assert_eq!(buf.len(), MAX_FRAME_BYTES + 4);
    let p = codec.decode_frame(&mut buf).unwrap().unwrap();
    assert_eq!(p.len(), MAX_FRAME_BYTES);

    let mut out = BytesMut::from(&b"kept"[..]);
    let too_big = vec![0u8; MAX_FRAME_BYTES + 1];
    match codec.encode_frame(&too_big, &mut out) {
        Err(ProtocolError::FrameTooLarge(n)) => assert_eq!(n, MAX_FRAME_BYTES + 1),
        other => panic!("expected FrameTooLarge, got {other:?}"),
    }
    assert_eq!(&out[..], b"kept");
}

#[test]
fn checked_encode_appends_the_frame() {
    let mut codec = MessageCodec;
    let mut buf = BytesMut::from(&[9u8][..]);
    assert!(matches!(codec.try_encode_frame(&[1, 2], &mut buf), Some(Ok(()))));
    assert_eq!(&buf[..], &[9, 0, 0, 0, 2, 1, 2]);
    let too_big = vec![0u8; MAX_FRAME_BYTES + 1];
    assert!(matches!(
        codec.try_encode_frame(&too_big, &mut buf),
        Some(Err(ProtocolError::FrameTooLarge(n))) if n == MAX_FRAME_BYTES + 1
    ));
    assert_eq!(&buf[..], &[9, 0, 0, 0, 2, 1, 2]);
}
