use vstd::prelude::*;

use crate::errors::ProtocolError;

verus! {

/// One complete, typed unit of wire-protocol data. The payload text is
/// UTF-8 and unbounded at this layer; bounding is the codec's job.
#[derive(Debug, PartialEq)]
pub enum Frame {
    /// An ordinary chat line.
    Message(String),
    /// A server notice (joins, leaves, actions).
    ServerMessage(String),
    /// A private message between two peers.
    PrivateMessage(String),
    /// An error reported back to one peer.
    Error(String),
}

/// The payload text a frame carries.
pub open spec fn text_of(f: Frame) -> Seq<char> {
    match f {
        Frame::Message(m) => m@,
        Frame::ServerMessage(m) => m@,
        Frame::PrivateMessage(m) => m@,
        Frame::Error(m) => m@,
    }
}

/// The wire tag byte of an ordinary chat frame, the character `+`.
pub const TAG_MESSAGE: u8 = 43;

/// The wire tag byte of a server notice frame, the character `$`.
pub const TAG_SERVER_MESSAGE: u8 = 36;

/// The wire tag byte of a private message frame, the character `&`.
pub const TAG_PRIVATE_MESSAGE: u8 = 38;

/// The wire tag byte of an error frame, the character `-`.
pub const TAG_ERROR: u8 = 45;

/// The single wire tag byte of each frame variant.
pub open spec fn tag_of(f: Frame) -> u8 {
    match f {
        Frame::Message(_) => TAG_MESSAGE,
        Frame::ServerMessage(_) => TAG_SERVER_MESSAGE,
        Frame::PrivateMessage(_) => TAG_PRIVATE_MESSAGE,
        Frame::Error(_) => TAG_ERROR,
    }
}

/// Whether a byte is the wire tag of some frame variant.
pub open spec fn is_valid_tag(t: u8) -> bool {
    t == TAG_MESSAGE || t == TAG_SERVER_MESSAGE || t == TAG_PRIVATE_MESSAGE || t == TAG_ERROR
}

impl Frame {
    /// Splits a frame into its wire tag, its payload text, and the payload's
    /// length in UTF-8 bytes.
    pub fn frame_format(self) -> (r: (u8, String, usize))
        ensures
            r.0 == tag_of(self),
            r.1@ == text_of(self),
            r.2 == vstd::utf8::encode_utf8(text_of(self)).len(),
    {
        let (prefix, message): (u8, String) = match self {
            Frame::Message(msg) => (TAG_MESSAGE, msg),
            Frame::ServerMessage(msg) => (TAG_SERVER_MESSAGE, msg),
            Frame::PrivateMessage(msg) => (TAG_PRIVATE_MESSAGE, msg),
            Frame::Error(msg) => (TAG_ERROR, msg),
        };
        let length = message.as_str().as_bytes().len();
        (prefix, message, length)
    }

    /// Unwraps a frame to its payload text.
    pub fn message(self) -> (r: String)
        ensures
            r@ == text_of(self),
    {
        match self {
            Frame::Message(msg) => msg,
            Frame::ServerMessage(msg) => msg,
            Frame::PrivateMessage(msg) => msg,
            Frame::Error(msg) => msg,
        }
    }

    /// Builds the frame named by a tag character around the given payload
    /// text; an unrecognized tag is a protocol error.
    pub fn try_from_prefix(prefix: char, message: &str) -> (r: Result<Self, ProtocolError>)
        ensures
            r is Ok <==> (prefix == '+' || prefix == '$' || prefix == '&' || prefix == '-'),
            r matches Ok(f) ==> tag_of(f) as char == prefix && text_of(f) == message@,
            r matches Err(e) ==> e == ProtocolError::InvalidTag,
    {
        let owned = message.to_owned();
        match prefix {
            '+' => Ok(Self::Message(owned)),
            '$' => Ok(Self::ServerMessage(owned)),
            '&' => Ok(Self::PrivateMessage(owned)),
            '-' => Ok(Self::Error(owned)),
            _ => Err(ProtocolError::InvalidTag),
        }
    }
}

impl Clone for Frame {
    /// A clone is equal to the original frame.
    fn clone(&self) -> (r: Self)
        ensures
            r == *self,
    {
        match self {
            Frame::Message(msg) => Frame::Message(msg.clone()),
            Frame::ServerMessage(msg) => Frame::ServerMessage(msg.clone()),
            Frame::PrivateMessage(msg) => Frame::PrivateMessage(msg.clone()),
            Frame::Error(msg) => Frame::Error(msg.clone()),
        }
    }
}

} // verus!
