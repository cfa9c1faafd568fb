//! Messages on the wire: every message is its payload's byte length as an
//! eight-byte little-endian number, followed by the payload itself.

use vstd::prelude::*;
use vstd::bytes::*;
use vstd::slice::*;
use vstd::string::*;
use vstd::utf8::*;

verus! {

/// Number of bytes of the length header in front of every payload.
pub const HEADER_LEN: usize = 8;

/// The bytes of a frame that carries `payload`.
pub open spec fn frame_bytes(payload: Seq<u8>) -> Seq<u8> {
    spec_u64_to_le_bytes(payload.len() as u64) + payload
}

/// The payload length that an eight-byte header announces.
pub open spec fn announced_len(header: Seq<u8>) -> int {
    spec_u64_from_le_bytes(header) as int
}

/// The payload of `frame`, where `frame` is exactly one well-formed frame.
pub open spec fn frame_payload(frame: Seq<u8>) -> Option<Seq<u8>> {
    if frame.len() >= 8 && announced_len(frame.take(8)) == frame.len() - 8 {
        Some(frame.skip(8))
    } else {
        None
    }
}

/// Builds the frame that carries `payload`.
pub fn encode_frame(payload: &[u8]) -> (frame: Vec<u8>)
    ensures
        frame@ == frame_bytes(payload@),
{
    let mut frame = u64_to_le_bytes(payload.len() as u64);
    let ghost header = frame@;
    let mut i: usize = 0;
    while i < payload.len()
        invariant
            i <= payload@.len(),
            header == spec_u64_to_le_bytes(payload@.len() as u64),
            frame@ == header + payload@.take(i as int),
        decreases payload@.len() - i,
    {
        frame.push(payload[i]);
        i = i + 1;
        assert(payload@.take(i as int) == payload@.take(i - 1) + seq![payload@[i - 1]]);
    }
    assert(payload@.take(i as int) == payload@);
    frame
}

/// Builds the frame that carries the UTF-8 bytes of `message`.
pub fn encode_message(message: &str) -> (frame: Vec<u8>)
    ensures
        frame@ == frame_bytes(encode_utf8(message@)),
{
    encode_frame(message.as_bytes())
}

/// Reads the payload length out of a header.
pub fn payload_len(header: &[u8]) -> (len: u64)
    requires
        header@.len() == HEADER_LEN,
    ensures
        len == announced_len(header@),
{
    u64_from_le_bytes(header)
}

/// Takes the payload out of a frame; `None` where `frame` is not exactly one frame.
pub fn decode_frame(frame: &[u8]) -> (payload: Option<Vec<u8>>)
    ensures
        payload is Some <==> frame_payload(frame@) is Some,
        payload matches Some(p) ==> p@ == frame_payload(frame@)->0,
{
    if frame.len() < HEADER_LEN {
        return None;
    }
    let header = slice_subrange(frame, 0, HEADER_LEN);
    assert(header@ == frame@.take(8));
    let len = u64_from_le_bytes(header);
    if (frame.len() - HEADER_LEN) as u64 != len {
        return None;
    }
    let body = slice_to_vec(slice_subrange(frame, HEADER_LEN, frame.len()));
    assert(body@ == frame@.skip(8));
    Some(body)
}

/// The text that `String::from_utf8_lossy` (std) makes of a byte sequence: the
/// bytes decoded as UTF-8, with U+FFFD in place of each invalid sequence.
pub uninterp spec fn lossy_text(bytes: Seq<u8>) -> Seq<char>;

/// Calls `String::from_utf8_lossy` (std), whose result depends on the bytes
/// alone. Its documentation says that bytes that are valid UTF-8 come back as
/// the text they encode; where U+FFFD goes for invalid bytes is only named.
#[verifier::external_body]
fn text_from_utf8_lossy(bytes: &[u8]) -> (text: String)
    ensures
        text@ == lossy_text(bytes@),
        valid_utf8(bytes@) ==> text@ == decode_utf8(bytes@),
{
    String::from_utf8_lossy(bytes).into_owned()
}

/// Takes the text out of a frame, replacing invalid UTF-8 with U+FFFD as
/// `String::from_utf8_lossy` does; `None` where `frame` is not exactly one frame.
pub fn decode_message(frame: &[u8]) -> (text: Option<String>)
    ensures
        text is Some <==> frame_payload(frame@) is Some,
        text matches Some(t) ==> t@ == lossy_text(frame_payload(frame@)->0),
        text matches Some(t) ==> (valid_utf8(frame_payload(frame@)->0) ==> t@ == decode_utf8(
            frame_payload(frame@)->0,
        )),
{
    match decode_frame(frame) {
        Some(payload) => Some(text_from_utf8_lossy(payload.as_slice())),
        None => None,
    }
}

/// A frame read off the front of a stream: its header announces the payload's
/// length, the payload follows the header, and the stream goes on with what came
/// after the frame.
pub proof fn frame_at_stream_front(payload: Seq<u8>, rest: Seq<u8>)
    requires
        payload.len() <= u64::MAX,
    ensures
        ({
            let stream = frame_bytes(payload) + rest;
            &&& announced_len(stream.take(8)) == payload.len()
            &&& stream.subrange(8, 8 + payload.len() as int) == payload
            &&& stream.skip(8 + payload.len() as int) == rest
        }),
{
    lemma_auto_spec_u64_to_from_le_bytes();
    let header = spec_u64_to_le_bytes(payload.len() as u64);
    let stream = frame_bytes(payload) + rest;
    assert(stream.take(8) == header);
    assert(stream.subrange(8, 8 + payload.len() as int) == payload);
    assert(stream.skip(8 + payload.len() as int) == rest);
}

/// A frame carries back exactly the payload it was built from.
pub proof fn frame_round_trip(payload: Seq<u8>)
    requires
        payload.len() <= u64::MAX,
    ensures
        frame_payload(frame_bytes(payload)) == Some(payload),
{
    lemma_auto_spec_u64_to_from_le_bytes();
    let header = spec_u64_to_le_bytes(payload.len() as u64);
    assert(frame_bytes(payload).take(8) == header);
    assert(frame_bytes(payload).skip(8) == payload);
}

/// Text sent with `encode_message` is read back unchanged by `decode_message`: the
/// frame carries the text's UTF-8 bytes, which are valid UTF-8 and decode to the text.
pub proof fn message_round_trip(text: Seq<char>)
    requires
        encode_utf8(text).len() <= u64::MAX,
    ensures
        frame_payload(frame_bytes(encode_utf8(text))) == Some(encode_utf8(text)),
        valid_utf8(encode_utf8(text)),
        decode_utf8(encode_utf8(text)) == text,
{
    frame_round_trip(encode_utf8(text));
    encode_utf8_valid_utf8(text);
    encode_utf8_decode_utf8(text);
}

} // verus!
