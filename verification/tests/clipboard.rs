use dshare::clipboard::ClipboardState;
use dshare::Message;

fn update(mime: &str, data: &[u8]) -> Message {
    Message::ClipboardUpdate { mime: mime.to_string(), data: data.to_vec() }
}

#[test]
fn changed_text_is_broadcast_once() {
    let mut st = ClipboardState::new();
    match st.on_poll("hello".to_string()) {
        Some(Message::ClipboardUpdate { mime, data }) => {
            assert_eq!(mime, "text/plain;charset=utf-8");
            assert_eq!(data, b"hello".to_vec());
        }
        other => panic!("expected an update, got {other:?}"),
    }
    assert!(st.on_poll("hello".to_string()).is_none());
    assert!(st.on_poll("world".to_string()).is_some());
    assert!(st.on_poll("hello".to_string()).is_some());
}

#[test]
fn non_ascii_text_is_sent_as_utf8() {
    let mut st = ClipboardState::new();
    match st.on_poll("héllo ✓".to_string()) {
        Some(Message::ClipboardUpdate { data, .. }) => assert_eq!(data, "héllo ✓".as_bytes().to_vec()),
        other => panic!("expected an update, got {other:?}"),
    }
}

#[test]
fn applied_text_is_not_echoed() {
    let mut st = ClipboardState::new();
    let text = st.apply(&update("text/plain", "from peer".as_bytes()));
    assert_eq!(text.as_deref(), Some("from peer"));
    assert!(st.on_poll("from peer".to_string()).is_none());
    assert!(st.on_poll("local edit".to_string()).is_some());
}

#[test]
fn binary_and_invalid_payloads_are_skipped() {
    let mut st = ClipboardState::new();
    let before = st.last_hash;
    assert!(st.apply(&update("image/png", &[1, 2, 3])).is_none());
    assert!(st.apply(&update("text/plain", &[0xff, 0xfe])).is_none());
    assert!(st.apply(&update("tex", b"abc")).is_none());
    assert!(st.apply(&Message::Ping { nonce: 1 }).is_none());
    assert_eq!(st.last_hash, before);
}

#[test]
fn broadcast_text_applies_unchanged_on_the_peer() {
    let mut sender = ClipboardState::new();
    let mut receiver = ClipboardState::new();
    let msg = sender.on_poll("ünïcode text".to_string()).expect("update");
    assert_eq!(receiver.apply(&msg).as_deref(), Some("ünïcode text"));
    assert!(receiver.on_poll("ünïcode text".to_string()).is_none());
}
