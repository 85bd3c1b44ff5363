use vstd::prelude::*;

use crate::errors::ProtocolError;
use crate::frame::{is_valid_tag, tag_of, text_of, Frame};
use vstd::bytes::{
    lemma_auto_spec_u32_to_from_le_bytes, spec_u32_from_le_bytes, spec_u32_to_le_bytes,
    u32_from_le_bytes, u32_to_le_bytes,
};
use vstd::slice::{slice_subrange, slice_to_vec};
use vstd::utf8::{
    decode_utf8, encode_utf8, encode_utf8_decode_utf8, encode_utf8_valid_utf8, valid_utf8,
};

verus! {

/// Bytes reserved for the tag character at the front of every frame.
pub const PREFIX_BYTE_LEN: usize = 1;

/// Bytes reserved for the little-endian length marker.
pub const LENGTH_BYTE_LEN: usize = 4;

/// Combined reserved header bytes.
pub const RESERVED_BYTES: usize = 5;

/// Maximum payload length in bytes: 512 scalar values at the UTF-8 worst
/// case of four bytes each, regardless of the type of frame.
pub const MAX_LENGTH: usize = 2048;

/// The payload bytes of a frame: its text, encoded as UTF-8.
pub open spec fn payload_of(f: Frame) -> Seq<u8> {
    encode_utf8(text_of(f))
}

/// The complete wire representation of a frame: tag byte, little-endian
/// payload length, payload bytes.
pub open spec fn encoded(f: Frame) -> Seq<u8> {
    seq![tag_of(f)] + spec_u32_to_le_bytes(payload_of(f).len() as u32) + payload_of(f)
}

/// Whether a buffer holds the five header bytes of a frame.
pub open spec fn header_ready(bytes: Seq<u8>) -> bool {
    bytes.len() >= RESERVED_BYTES
}

/// The payload length a buffer's header declares. Meaningful once the five
/// header bytes are present.
pub open spec fn declared_len(bytes: Seq<u8>) -> int {
    spec_u32_from_le_bytes(bytes.subrange(1, 5)) as int
}

/// Whether a buffer holds one complete frame of acceptable length.
pub open spec fn frame_ready(bytes: Seq<u8>) -> bool {
    &&& header_ready(bytes)
    &&& declared_len(bytes) <= MAX_LENGTH
    &&& bytes.len() >= RESERVED_BYTES + declared_len(bytes)
}

/// The payload bytes of the first complete frame in a buffer.
pub open spec fn payload_bytes(bytes: Seq<u8>) -> Seq<u8> {
    bytes.subrange(RESERVED_BYTES as int, RESERVED_BYTES + declared_len(bytes))
}

/// What remains of a buffer after the first complete frame is consumed.
pub open spec fn rest_bytes(bytes: Seq<u8>) -> Seq<u8> {
    bytes.subrange(RESERVED_BYTES + declared_len(bytes), bytes.len() as int)
}

/// Relies on String::from_utf8: for a byte vector that is valid UTF-8 it
/// returns exactly the string whose encoding those bytes are, and signals an
/// error otherwise.
#[verifier::external_body]
fn bytes_to_string(bytes: Vec<u8>) -> (r: Option<String>)
    ensures
        r is Some <==> valid_utf8(bytes@),
        r matches Some(s) ==> s@ == decode_utf8(bytes@),
{
    match std::string::String::from_utf8(bytes) {
        Ok(msg) => Some(msg),
        Err(_) => None,
    }
}

/// Codec between frames and their length-prefixed wire representation:
/// `tag: 1 byte | length: 4 bytes little-endian | payload: length UTF-8 bytes`.
#[derive(Debug)]
pub struct MessageCodec {}

impl MessageCodec {
    /// Appends the wire representation of `item` to `dst`. A payload longer
    /// than the maximum frame length is rejected before any buffer mutation.
    pub fn encode(&mut self, item: Frame, dst: &mut Vec<u8>) -> (r: Result<(), ProtocolError>)
        ensures
            payload_of(item).len() > MAX_LENGTH ==> (r matches Err(e)
                && e == ProtocolError::Oversize && final(dst)@ == old(dst)@),
            payload_of(item).len() <= MAX_LENGTH ==> r is Ok
                && final(dst)@ == old(dst)@ + encoded(item),
    {
        let (prefix, message, length) = item.frame_format();
        if length > MAX_LENGTH {
            return Err(ProtocolError::Oversize);
        }
        let length_slice = u32_to_le_bytes(length as u32);
        dst.push(prefix);
        dst.extend_from_slice(length_slice.as_slice());
        dst.extend_from_slice(message.as_str().as_bytes());
        proof {
            assert(dst@ =~= old(dst)@ + encoded(item));
        }
        Ok(())
    }

    /// Attempts to consume one complete frame from the front of `src`.
    /// Returns `Ok(None)` when too few bytes are buffered, leaving the buffer
    /// untouched so the caller can read more. An oversize declared length is
    /// rejected before any payload byte is read and consumes nothing; a
    /// non-UTF-8 payload or an unknown tag consumes the malformed frame and
    /// reports the error.
    pub fn decode(&mut self, src: &mut Vec<u8>) -> (r: Result<Option<Frame>, ProtocolError>)
        ensures
            !header_ready(old(src)@) ==> (r matches Ok(f) && f is None
                && final(src)@ == old(src)@),
            header_ready(old(src)@) && declared_len(old(src)@) > MAX_LENGTH ==> (r matches Err(e)
                && e == ProtocolError::Oversize && final(src)@ == old(src)@),
            header_ready(old(src)@) && declared_len(old(src)@) <= MAX_LENGTH && old(src)@.len()
                < RESERVED_BYTES + declared_len(old(src)@) ==> (r matches Ok(f) && f is None
                && final(src)@ == old(src)@),
            frame_ready(old(src)@) ==> final(src)@ == rest_bytes(old(src)@),
            frame_ready(old(src)@) && !valid_utf8(payload_bytes(old(src)@)) ==> (r matches Err(e)
                && e == ProtocolError::InvalidUtf8),
            frame_ready(old(src)@) && valid_utf8(payload_bytes(old(src)@)) && !is_valid_tag(
                old(src)@[0],
            ) ==> (r matches Err(e) && e == ProtocolError::InvalidTag),
            frame_ready(old(src)@) && valid_utf8(payload_bytes(old(src)@)) && is_valid_tag(
                old(src)@[0],
            ) ==> (r matches Ok(f) && f matches Some(frame) && tag_of(frame) == old(src)@[0]
                && text_of(frame) == decode_utf8(payload_bytes(old(src)@))),
    {
        if src.len() < RESERVED_BYTES {
            // Not enough data buffered to read the tag and length markers.
            return Ok(None);
        }
        let prefix_byte: u8 = src[0];
        let length_slice = slice_subrange(src.as_slice(), PREFIX_BYTE_LEN, RESERVED_BYTES);
        let length = u32_from_le_bytes(length_slice) as usize;
        if length > MAX_LENGTH {
            return Err(ProtocolError::Oversize);
        }
        if src.len() < RESERVED_BYTES + length {
            // The full payload has not arrived yet.
            return Ok(None);
        }
        let payload_slice = slice_subrange(src.as_slice(), RESERVED_BYTES, RESERVED_BYTES + length);
        let message_data = slice_to_vec(payload_slice);
        // The malformed-frame checks below come after the buffer advances, so
        // one bad frame does not wedge the stream.
        let rest = src.split_off(RESERVED_BYTES + length);
        *src = rest;
        let message = match bytes_to_string(message_data) {
            Some(msg) => msg,
            None => {
                return Err(ProtocolError::InvalidUtf8);
            },
        };
        let prefix = prefix_byte as char;
        let frame = match Frame::try_from_prefix(prefix, message.as_str()) {
            Ok(f) => f,
            Err(_) => {
                return Err(ProtocolError::InvalidTag);
            },
        };
        Ok(Some(frame))
    }
}

/// Round trip: the wire encoding of any frame within the size limit forms one
/// complete frame that parses back to exactly the original tag and text,
/// consuming the whole encoding.
pub proof fn lemma_round_trip(f: Frame)
    requires
        payload_of(f).len() <= MAX_LENGTH,
    ensures
        encoded(f).len() == RESERVED_BYTES + payload_of(f).len(),
        frame_ready(encoded(f)),
        encoded(f)[0] == tag_of(f),
        is_valid_tag(encoded(f)[0]),
        declared_len(encoded(f)) == payload_of(f).len(),
        payload_bytes(encoded(f)) == payload_of(f),
        valid_utf8(payload_bytes(encoded(f))),
        decode_utf8(payload_bytes(encoded(f))) == text_of(f),
        rest_bytes(encoded(f)) == Seq::<u8>::empty(),
{
    lemma_auto_spec_u32_to_from_le_bytes();
    broadcast use encode_utf8_valid_utf8, encode_utf8_decode_utf8;

    let b = encoded(f);
    assert(b.subrange(1, 5) =~= spec_u32_to_le_bytes(payload_of(f).len() as u32));
    assert(payload_bytes(b) =~= payload_of(f));
    assert(rest_bytes(b) =~= Seq::<u8>::empty());
}

/// Incremental decode: a strict prefix of a frame's encoding never yields a
/// frame or an error; the decoder reports that more bytes are needed and
/// leaves the buffer untouched. Hence splitting the encoding at any byte
/// boundary loses no bytes and surfaces no spurious frame, and once the last
/// byte arrives the round-trip law applies to the whole buffer.
pub proof fn lemma_incremental_decode(f: Frame, i: int)
    requires
        payload_of(f).len() <= MAX_LENGTH,
        0 <= i < encoded(f).len(),
    ensures
        !header_ready(encoded(f).subrange(0, i)) || (declared_len(encoded(f).subrange(0, i))
            == payload_of(f).len() && declared_len(encoded(f).subrange(0, i)) <= MAX_LENGTH
            && encoded(f).subrange(0, i).len() < RESERVED_BYTES + declared_len(
            encoded(f).subrange(0, i),
        )),
{
    lemma_round_trip(f);
    let b = encoded(f);
    let p = b.subrange(0, i);
    if i >= RESERVED_BYTES {
        assert(p.subrange(1, 5) =~= b.subrange(1, 5));
    }
}

} // verus!
