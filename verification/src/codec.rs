//! Length-prefixed framing of `Message` payloads.
//!
//! A frame is the payload's length as a big-endian `u32`, then the payload.
//! The payload itself is the bincode encoding of a `Message`, which the
//! program around the library produces and reads.

use vstd::prelude::*;
use crate::buffer::{
    be_u32_bytes, buffer_advance, buffer_bytes, buffer_extend, buffer_len, buffer_put_u32,
    buffer_reserve, buffer_slice, buffer_split_to,
};
use crate::protocol::ProtocolError;

verus! {

/// 16 MiB hard cap — clipboard payloads can grow but should not be unbounded.
pub const MAX_FRAME_BYTES: usize = 16 * 1024 * 1024;

/// The codec of the framed peer stream. It keeps no state between calls.
pub struct MessageCodec;

/// The number that the first four bytes of `s` spell in big-endian order.
pub open spec fn be_u32_value(s: Seq<u8>) -> nat {
    (s[0] as nat) * 16777216 + (s[1] as nat) * 65536 + (s[2] as nat) * 256 + (s[3] as nat)
}

/// The frame that carries `payload`: its length, then the payload.
pub open spec fn frame(payload: Seq<u8>) -> Seq<u8> {
    be_u32_bytes(payload.len() as u32) + payload
}

/// What decoding the buffer `s` yields, and the bytes left in the buffer.
/// Fewer than four bytes, or a frame whose payload has not fully arrived,
/// yield `Ok(None)` and leave the buffer as it was; a length above
/// [`MAX_FRAME_BYTES`] is refused and leaves it too; a complete frame is taken
/// off the front and its payload handed out.
pub open spec fn decode_step(s: Seq<u8>) -> (Result<Option<Seq<u8>>, ProtocolError>, Seq<u8>) {
    if s.len() < 4 {
        (Ok(None), s)
    } else {
        let n = be_u32_value(s);
        if n > MAX_FRAME_BYTES {
            (Err(ProtocolError::FrameTooLarge(n as usize)), s)
        } else if s.len() < 4 + n {
            (Ok(None), s)
        } else {
            (Ok(Some(s.subrange(4, 4 + n as int))), s.skip(4 + n as int))
        }
    }
}

/// A decoding result with the payload buffer read as its bytes.
pub open spec fn decoded_bytes(r: Result<Option<bytes::BytesMut>, ProtocolError>) -> Result<
    Option<Seq<u8>>,
    ProtocolError,
> {
    match r {
        Ok(Some(b)) => Ok(Some(buffer_bytes(b))),
        Ok(None) => Ok(None),
        Err(e) => Err(e),
    }
}

impl MessageCodec {
    /// Takes the next complete frame off the front of `src` and returns its
    /// payload. Returns `Ok(None)` while the frame is incomplete, after making
    /// room for the rest of it.
    pub fn decode_frame(&mut self, src: &mut bytes::BytesMut) -> (res: Result<
        Option<bytes::BytesMut>,
        ProtocolError,
    >)
        ensures
            decoded_bytes(res) == decode_step(buffer_bytes(*old(src))).0,
            buffer_bytes(*final(src)) == decode_step(buffer_bytes(*old(src))).1,
    {
        let have = buffer_len(src);
        if have < 4 {
            return Ok(None);
        }
        let head = buffer_slice(src);
        let len32: u32 = (head[0] as u32) * 16777216 + (head[1] as u32) * 65536 + (head[2] as u32)
            * 256 + (head[3] as u32);
        let len = len32 as usize;
        if len > MAX_FRAME_BYTES {
            return Err(ProtocolError::FrameTooLarge(len));
        }
        if have < 4 + len {
            buffer_reserve(src, 4 + len - have);
            return Ok(None);
        }
        buffer_advance(src, 4);
        let payload = buffer_split_to(src, len);
        proof {
            let s = buffer_bytes(*old(src));
            assert(s.skip(4).take(len as int) =~= s.subrange(4, 4 + len as int));
            assert(s.skip(4).skip(len as int) =~= s.skip(4 + len as int));
        }
        Ok(Some(payload))
    }

    /// Appends the frame that carries `payload` to `dst`. A payload above
    /// [`MAX_FRAME_BYTES`] is refused and `dst` is left as it was.
    pub fn encode_frame(&mut self, payload: &[u8], dst: &mut bytes::BytesMut) -> (res: Result<
        (),
        ProtocolError,
    >)
        requires
            payload@.len() <= MAX_FRAME_BYTES ==> buffer_bytes(*old(dst)).len() + 4
                + payload@.len() <= isize::MAX,
        ensures
            payload@.len() > MAX_FRAME_BYTES ==> {
                &&& res == Err::<(), ProtocolError>(ProtocolError::FrameTooLarge(payload@.len() as usize))
                &&& buffer_bytes(*final(dst)) == buffer_bytes(*old(dst))
            },
            payload@.len() <= MAX_FRAME_BYTES ==> {
                &&& res == Ok::<(), ProtocolError>(())
                &&& buffer_bytes(*final(dst)) == buffer_bytes(*old(dst)) + frame(payload@)
            },
    {
        let n = payload.len();
        if n > MAX_FRAME_BYTES {
            return Err(ProtocolError::FrameTooLarge(n));
        }
        buffer_reserve(dst, 4 + n);
        buffer_put_u32(dst, n as u32);
        buffer_extend(dst, payload);
        proof {
            assert(buffer_bytes(*final(dst)) =~= buffer_bytes(*old(dst)) + frame(payload@));
        }
        Ok(())
    }
}

impl MessageCodec {
    /// Appends the frame that carries `payload` to `dst`, as
    /// [`MessageCodec::encode_frame`] does, after checking that the buffer can
    /// grow by the frame: `None`, with `dst` left as it was, where the frame
    /// would take the buffer past `isize::MAX` bytes, on which growing the
    /// buffer panics.
    pub fn try_encode_frame(&mut self, payload: &[u8], dst: &mut bytes::BytesMut) -> (res: Option<
        Result<(), ProtocolError>,
    >)
        ensures
            payload@.len() > MAX_FRAME_BYTES ==> {
                &&& res == Some(Err::<(), ProtocolError>(ProtocolError::FrameTooLarge(payload@.len() as usize)))
                &&& buffer_bytes(*final(dst)) == buffer_bytes(*old(dst))
            },
            payload@.len() <= MAX_FRAME_BYTES && buffer_bytes(*old(dst)).len() + 4 + payload@.len()
                > isize::MAX ==> {
                &&& res is None
                &&& buffer_bytes(*final(dst)) == buffer_bytes(*old(dst))
            },
            payload@.len() <= MAX_FRAME_BYTES && buffer_bytes(*old(dst)).len() + 4 + payload@.len()
                <= isize::MAX ==> {
                &&& res == Some(Ok::<(), ProtocolError>(()))
                &&& buffer_bytes(*final(dst)) == buffer_bytes(*old(dst)) + frame(payload@)
            },
    {
        let n = payload.len();
        if n <= MAX_FRAME_BYTES {
            let have = buffer_len(dst);
            let room: usize = (isize::MAX as usize) - 4 - n;
            if have > room {
                return None;
            }
        }
        Some(self.encode_frame(payload, dst))
    }
}

/// Reading the four bytes of `n` back gives `n`.
pub proof fn lemma_be_u32_roundtrip(n: u32)
    ensures
        be_u32_value(be_u32_bytes(n)) == n,
{
    let b = be_u32_bytes(n);
    assert(b[0] == (n >> 24u32) as u8);
    assert(b[1] == ((n >> 16u32) & 0xffu32) as u8);
    assert(b[2] == ((n >> 8u32) & 0xffu32) as u8);
    assert(b[3] == (n & 0xffu32) as u8);
    assert(((n >> 24u32) as u8) as nat * 16777216 + (((n >> 16u32) & 0xffu32) as u8) as nat * 65536
        + (((n >> 8u32) & 0xffu32) as u8) as nat * 256 + ((n & 0xffu32) as u8) as nat == n)
        by (bit_vector);
}

/// A frame followed by anything decodes to its payload and leaves exactly what
/// followed it: frames written one after another are read back one by one.
pub proof fn lemma_decode_frame_roundtrip(payload: Seq<u8>, rest: Seq<u8>)
    requires
        payload.len() <= MAX_FRAME_BYTES,
    ensures
        decode_step(frame(payload) + rest) == (
            Ok::<Option<Seq<u8>>, ProtocolError>(Some(payload)),
            rest,
        ),
{
    let s = frame(payload) + rest;
    lemma_be_u32_roundtrip(payload.len() as u32);
    assert(s.take(4) =~= be_u32_bytes(payload.len() as u32));
    assert(be_u32_value(s) == be_u32_value(be_u32_bytes(payload.len() as u32)));
    assert(s.subrange(4, 4 + payload.len() as int) =~= payload);
    assert(s.skip(4 + payload.len() as int) =~= rest);
}

/// Any strict prefix of a frame decodes to nothing and stays in the buffer:
/// a frame is handed out only once all of it has arrived.
pub proof fn lemma_partial_frame_waits(payload: Seq<u8>, k: int)
    requires
        payload.len() <= MAX_FRAME_BYTES,
        0 <= k < frame(payload).len(),
    ensures
        decode_step(frame(payload).take(k)) == (
            Ok::<Option<Seq<u8>>, ProtocolError>(None),
            frame(payload).take(k),
        ),
{
    let s = frame(payload).take(k);
    if k >= 4 {
        lemma_be_u32_roundtrip(payload.len() as u32);
        assert(be_u32_value(s) == be_u32_value(be_u32_bytes(payload.len() as u32)));
    }
}

/// A length prefix above the cap is refused whatever follows it, and the
/// refused bytes stay in the buffer.
pub proof fn lemma_oversized_frame_refused(s: Seq<u8>)
    requires
        s.len() >= 4,
        be_u32_value(s) > MAX_FRAME_BYTES,
    ensures
        decode_step(s) == (
            Err::<Option<Seq<u8>>, ProtocolError>(ProtocolError::FrameTooLarge(be_u32_value(s) as usize)),
            s,
        ),
{
}

/// A frame is four bytes, then the payload unchanged; the four bytes are the
/// payload's length in base 256, most significant first.
pub proof fn lemma_frame_layout(payload: Seq<u8>)
    requires
        payload.len() <= MAX_FRAME_BYTES,
    ensures
        frame(payload).len() == payload.len() + 4,
        frame(payload).skip(4) == payload,
        (frame(payload)[0] as int) * 16777216 + (frame(payload)[1] as int) * 65536 + (frame(payload)[2] as int) * 256
            + (frame(payload)[3] as int) == payload.len(),
        MAX_FRAME_BYTES == 16777216,
{
    let f = frame(payload);
    assert(f.skip(4) =~= payload);
    lemma_be_u32_roundtrip(payload.len() as u32);
    assert(f[0] == be_u32_bytes(payload.len() as u32)[0]);
    assert(f[1] == be_u32_bytes(payload.len() as u32)[1]);
    assert(f[2] == be_u32_bytes(payload.len() as u32)[2]);
    assert(f[3] == be_u32_bytes(payload.len() as u32)[3]);
}

} // verus!
