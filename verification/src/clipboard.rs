//! Clipboard sync decisions.
//!
//! The clipboard offers no change events, so the program polls it. A small
//! hash of the last text seen avoids re-broadcasting unchanged content, and
//! recording the hash of a text applied from the peer suppresses its echo on
//! the next poll. Reading and writing the system clipboard is left to the
//! program; this module decides what to send and what to apply.

use vstd::prelude::*;
use vstd::string::StrSliceExecFns;
use vstd::utf8::{decode_utf8, encode_utf8, encode_utf8_decode_utf8, encode_utf8_valid_utf8, valid_utf8};
use std::hash::BuildHasher;
use crate::protocol::Message;

verus! {

/// The hash that `hash_str` gives a text.
pub uninterp spec fn text_hash(text: Seq<char>) -> u64;

/// `BuildHasher::hash_one` with the default `DefaultHasher`: the 64-bit hash
/// of the text, as `DefaultHasher::new`, `<str as Hash>::hash` and `finish`
/// compute it. Every `DefaultHasher` made by `new` starts from the same keys,
/// so equal texts hash alike; nothing is said of which hash a text gets.
#[verifier::external_body]
fn hash_str(s: &str) -> (h: u64)
    ensures
        h == text_hash(s@),
{
    std::hash::BuildHasherDefault::<std::collections::hash_map::DefaultHasher>::default().hash_one(s)
}

/// `std::str::from_utf8`: the text that `data` encodes when it is valid
/// UTF-8, nothing otherwise.
#[verifier::external_body]
fn utf8_str(data: &[u8]) -> (text: Option<&str>)
    ensures
        text is Some <==> valid_utf8(data@),
        text matches Some(t) ==> t@ == decode_utf8(data@),
{
    std::str::from_utf8(data).ok()
}

/// The MIME type of the text this side broadcasts.
pub open spec fn text_plain_mime() -> Seq<char> {
    "text/plain;charset=utf-8"@
}

/// Whether a MIME type is a `text/*` type.
pub open spec fn is_text_mime(mime: Seq<char>) -> bool {
    &&& mime.len() >= 5
    &&& mime[0] == 't'
    &&& mime[1] == 'e'
    &&& mime[2] == 'x'
    &&& mime[3] == 't'
    &&& mime[4] == '/'
}

/// What a poll that read `text` does, given the hash of the last text seen:
/// the new last hash, and the bytes to broadcast, if any.
pub open spec fn poll_outcome(last: u64, text: Seq<char>) -> (u64, Option<Seq<u8>>) {
    let h = text_hash(text);
    if h == last {
        (last, None)
    } else {
        (h, Some(encode_utf8(text)))
    }
}

/// What applying a clipboard update of type `mime` carrying `data` does: the
/// new last hash, and the text to place on the local clipboard, if any. Only
/// `text/*` payloads that are valid UTF-8 are applied.
pub open spec fn update_outcome(last: u64, mime: Seq<char>, data: Seq<u8>) -> (u64, Option<Seq<char>>) {
    if is_text_mime(mime) && valid_utf8(data) {
        let t = decode_utf8(data);
        (text_hash(t), Some(t))
    } else {
        (last, None)
    }
}

/// What applying a message does; only clipboard updates are applied.
pub open spec fn apply_outcome(last: u64, msg: Message) -> (u64, Option<Seq<char>>) {
    match msg {
        Message::ClipboardUpdate { mime, data } => update_outcome(last, mime@, data@),
        _ => (last, None),
    }
}

/// Whether `mime` starts with `text/`.
fn mime_is_text(mime: &str) -> (b: bool)
    ensures
        b == is_text_mime(mime@),
{
    if mime.unicode_len() < 5 {
        return false;
    }
    mime.get_char(0) == 't' && mime.get_char(1) == 'e' && mime.get_char(2) == 'x'
        && mime.get_char(3) == 't' && mime.get_char(4) == '/'
}

/// The clipboard state shared by the watcher and the applier.
pub struct ClipboardState {
    /// Hash of the last text seen on, or placed on, the local clipboard.
    pub last_hash: u64,
}

impl ClipboardState {
    pub fn new() -> (s: ClipboardState)
        ensures
            s.last_hash == 0,
    {
        ClipboardState { last_hash: 0 }
    }

    /// One poll of the watcher, which read `text` from the local clipboard:
    /// the `ClipboardUpdate` to broadcast when the text changed since the last
    /// one seen.
    pub fn on_poll(&mut self, text: String) -> (msg: Option<Message>)
        ensures
            final(self).last_hash == poll_outcome(old(self).last_hash, text@).0,
            match poll_outcome(old(self).last_hash, text@).1 {
                None => msg is None,
                Some(bytes) => msg matches Some(Message::ClipboardUpdate { mime, data }) && mime@
                    == text_plain_mime() && data@ == bytes,
            },
    {
        let h = hash_str(text.as_str());
        if self.last_hash == h {
            return None;
        }
        self.last_hash = h;
        let data = text.as_str().as_bytes_vec();
        Some(Message::ClipboardUpdate { mime: "text/plain;charset=utf-8".to_owned(), data })
    }

    /// Apply an inbound clipboard message locally without retriggering
    /// broadcast: the text to place on the local clipboard, if any. Its hash
    /// becomes the last one seen, so the next poll does not send it back.
    pub fn apply(&mut self, msg: &Message) -> (text: Option<String>)
        ensures
            final(self).last_hash == apply_outcome(old(self).last_hash, *msg).0,
            match apply_outcome(old(self).last_hash, *msg).1 {
                None => text is None,
                Some(t) => text matches Some(s) && s@ == t,
            },
    {
        match msg {
            Message::ClipboardUpdate { mime, data } => {
                if !mime_is_text(mime.as_str()) {
                    return None;  // binary types: not yet
                }
                match utf8_str(data.as_slice()) {
                    None => None,
                    Some(text) => {
                        let h = hash_str(text);
                        self.last_hash = h;  // suppress echo on next poll
                        Some(text.to_owned())
                    },
                }
            },
            _ => None,
        }
    }
}

/// A text applied from the peer is not sent back to it by the next poll.
pub proof fn lemma_applied_text_not_echoed(last: u64, msg: Message)
    ensures
        apply_outcome(last, msg) matches (next, Some(t)) ==> poll_outcome(next, t) == (next, None::<Seq<u8>>),
{
}

/// A text that has not changed since the last poll is not broadcast again.
pub proof fn lemma_unchanged_text_not_resent(last: u64, text: Seq<char>)
    ensures
        poll_outcome(poll_outcome(last, text).0, text).1 is None,
{
}

/// What one peer broadcasts, the other applies unchanged, whatever each had
/// seen before.
pub proof fn lemma_broadcast_text_applied_unchanged(last_sender: u64, last_receiver: u64, text: Seq<char>)
    ensures
        poll_outcome(last_sender, text).1 matches Some(bytes) ==> update_outcome(
            last_receiver,
            text_plain_mime(),
            bytes,
        ) == (text_hash(text), Some(text)),
{
    reveal_strlit("text/plain;charset=utf-8");
    encode_utf8_valid_utf8(text);
    encode_utf8_decode_utf8(text);
}

/// Only a `text/*` update carrying valid UTF-8 is applied: an update whose
/// MIME type does not start with `text/`, or whose data is not UTF-8, leaves
/// the state as it was and places nothing on the clipboard. A poll broadcasts
/// its text as `text/plain;charset=utf-8`.
pub proof fn lemma_only_text_updates_apply(last: u64, mime: Seq<char>, data: Seq<u8>)
    ensures
        (mime.len() < 5 || mime.take(5) != seq!['t', 'e', 'x', 't', '/']) ==> update_outcome(last, mime, data)
            == (last, None::<Seq<char>>),
        !valid_utf8(data) ==> update_outcome(last, mime, data) == (last, None::<Seq<char>>),
        text_plain_mime() == seq!['t', 'e', 'x', 't', '/', 'p', 'l', 'a', 'i', 'n', ';', 'c', 'h', 'a', 'r', 's', 'e', 't', '=', 'u', 't', 'f', '-', '8'],
{
    reveal_strlit("text/plain;charset=utf-8");
    if mime.len() >= 5 && is_text_mime(mime) {
        assert(mime.take(5) =~= seq!['t', 'e', 'x', 't', '/']);
    }
}

} // verus!
