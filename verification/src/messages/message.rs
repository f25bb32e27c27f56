//! The frame that carries every message, and what a payload owes the codec.
//!
//! ```text
//! | 4 bytes | 1 byte  | 1 byte  | N bytes |
//! | totlen  | msgtype | is_req  | payload |
//! ```
//!
//! `totlen` counts all four fields, itself included, and is little-endian.
//! `is_req` is 1 for a request; a response writes 0.

use crate::wire::{
    get_u32, le_bytes, lemma_le_bytes_len, lemma_pow256_values, lemma_uint_at_concat, put_bytes,
    put_u32, uint_at,
};
use vstd::prelude::*;
use vstd::slice::slice_subrange;

verus! {

/// The bytes of a frame before its payload.
pub const HEADER_LEN: usize = 6;

/// The longest payload that a decoder accepts unless it is told otherwise.
pub const DEFAULT_MAX_PAYLOAD: usize = 4096;

/// The kinds of message. Request and response of one exchange share a kind.
#[derive(Debug, Clone, Copy, PartialEq, Eq, Structural)]
pub enum MessageType {
    Write,
    Read,
    GetClientShardInfo,
    QueryVersion,
    GetVersion,
    AnnounceShard,
    GetSharedPeers,
}

impl MessageType {
    /// The byte that stands for the kind on the wire.
    pub open spec fn code(self) -> u8 {
        match self {
            MessageType::Write => 0,
            MessageType::Read => 1,
            MessageType::GetClientShardInfo => 2,
            MessageType::QueryVersion => 3,
            MessageType::GetVersion => 4,
            MessageType::AnnounceShard => 5,
            MessageType::GetSharedPeers => 6,
        }
    }

    /// The kind that a byte stands for, if any.
    pub open spec fn of_code(b: u8) -> Option<MessageType> {
        if b == 0 {
            Some(MessageType::Write)
        } else if b == 1 {
            Some(MessageType::Read)
        } else if b == 2 {
            Some(MessageType::GetClientShardInfo)
        } else if b == 3 {
            Some(MessageType::QueryVersion)
        } else if b == 4 {
            Some(MessageType::GetVersion)
        } else if b == 5 {
            Some(MessageType::AnnounceShard)
        } else if b == 6 {
            Some(MessageType::GetSharedPeers)
        } else {
            None
        }
    }

    /// The byte that is written for it.
    pub fn as_u8(self) -> (b: u8)
        ensures
            b == self.code(),
    {
        match self {
            MessageType::Write => 0,
            MessageType::Read => 1,
            MessageType::GetClientShardInfo => 2,
            MessageType::QueryVersion => 3,
            MessageType::GetVersion => 4,
            MessageType::AnnounceShard => 5,
            MessageType::GetSharedPeers => 6,
        }
    }

    /// What a byte that was read stands for, if anything.
    pub fn from_u8(b: u8) -> (t: Option<MessageType>)
        ensures
            t == Self::of_code(b),
    {
        match b {
            0 => Some(MessageType::Write),
            1 => Some(MessageType::Read),
            2 => Some(MessageType::GetClientShardInfo),
            3 => Some(MessageType::QueryVersion),
            4 => Some(MessageType::GetVersion),
            5 => Some(MessageType::AnnounceShard),
            6 => Some(MessageType::GetSharedPeers),
            _ => None,
        }
    }

    /// Every kind is found again from its byte, and only the bytes 0 to 6
    /// stand for a kind.
    pub proof fn lemma_code_round_trip(self)
        ensures
            Self::of_code(self.code()) == Some(self),
            self.code() <= 6,
    {
    }
}

/// Why bytes were not decoded, or a value not encoded.
#[derive(Debug, Clone, Copy, PartialEq, Eq, Structural)]
pub enum CodecError {
    /// The bytes end before what their lengths announce.
    Truncated,
    /// The total length of a frame is below the six bytes of its header.
    FrameTooShort,
    /// The payload is longer than the decoder accepts, or than a frame can say.
    PayloadTooLong,
    /// The type byte stands for no kind of message.
    UnknownMessageType,
    /// The role byte of an announce stands for no kind of shard.
    UnknownShardType,
    /// A payload of fixed size is followed by more bytes.
    TrailingBytes,
    /// A key or a value is longer than the 65535 bytes its length can say.
    FieldTooLong,
    /// The two lists of a shard view do not both have the announced length.
    CountMismatch,
}

/// What every payload offers: its kind, its direction and its wire format.
///
/// The wire format is given twice, as a pair of spec functions over the
/// payload's view and as the executable pair that computes them.
pub trait MessagePayload: View + Sized {
    /// Whether the payload is a request.
    spec fn spec_is_request() -> bool;

    /// The kind of message that carries the payload.
    spec fn spec_message_type() -> MessageType;

    /// The payload's bytes, or why it has none.
    spec fn spec_serialize(v: Self::V) -> Result<Seq<u8>, CodecError>;

    /// The payload that bytes stand for, or why they stand for none.
    spec fn spec_deserialize(b: Seq<u8>) -> Result<Self::V, CodecError>;

    /// Whether the payload is a request.
    fn is_request(&self) -> (r: bool)
        ensures
            r == Self::spec_is_request(),
    ;

    /// The kind of message that carries the payload.
    fn get_message_type(&self) -> (t: MessageType)
        ensures
            t == Self::spec_message_type(),
    ;

    /// Encodes the payload.
    fn serialize(&self) -> (r: Result<Vec<u8>, CodecError>)
        ensures
            match r {
                Ok(bytes) => Self::spec_serialize(self@) == Ok::<Seq<u8>, CodecError>(bytes@),
                Err(e) => Self::spec_serialize(self@) == Err::<Seq<u8>, CodecError>(e),
            },
    ;

    /// Decodes a payload.
    fn deserialize(buffer: &[u8]) -> (r: Result<Self, CodecError>)
        ensures
            match r {
                Ok(p) => Self::spec_deserialize(buffer@) == Ok::<Self::V, CodecError>(p@),
                Err(e) => Self::spec_deserialize(buffer@) == Err::<Self::V, CodecError>(e),
            },
    ;

    /// Decoding the bytes of a payload gives the payload back.
    proof fn lemma_round_trip(v: Self::V)
        requires
            Self::spec_serialize(v) is Ok,
        ensures
            Self::spec_deserialize(Self::spec_serialize(v).unwrap()) == Ok::<Self::V, CodecError>(
                v,
            ),
    ;
}

/// The header of a frame and the bytes of its payload.
pub struct Frame {
    pub message_type: MessageType,
    pub is_request: bool,
    pub payload: Seq<u8>,
}

/// The byte that says whether a frame carries a request.
pub open spec fn request_flag(is_request: bool) -> u8 {
    if is_request {
        1
    } else {
        0
    }
}

/// The bytes of a frame: total length, kind, direction, payload.
pub open spec fn frame_bytes(f: Frame) -> Seq<u8> {
    le_bytes((HEADER_LEN + f.payload.len()) as nat, 4) + seq![
        f.message_type.code(),
        request_flag(f.is_request),
    ] + f.payload
}

/// The frame that a payload is sent in, or why it cannot be sent.
pub open spec fn spec_encode_frame(
    message_type: MessageType,
    is_request: bool,
    payload: Result<Seq<u8>, CodecError>,
) -> Result<Seq<u8>, CodecError> {
    match payload {
        Err(e) => Err(e),
        Ok(p) => if HEADER_LEN + p.len() > u32::MAX {
            Err(CodecError::PayloadTooLong)
        } else {
            Ok(frame_bytes(Frame { message_type, is_request, payload: p }))
        },
    }
}

/// The frame at the start of `b`, with no payload above `max_payload` bytes.
///
/// The checks come in the order in which a reader meets the bytes: the length
/// word, its lower bound, its upper bound, the bytes it announces, the kind.
/// Bytes after the announced length are not looked at.
pub open spec fn spec_split_frame(b: Seq<u8>, max_payload: nat) -> Result<Frame, CodecError> {
    if b.len() < 4 {
        Err(CodecError::Truncated)
    } else if uint_at(b, 0, 4) < HEADER_LEN {
        Err(CodecError::FrameTooShort)
    } else if uint_at(b, 0, 4) - HEADER_LEN > max_payload {
        Err(CodecError::PayloadTooLong)
    } else if b.len() < uint_at(b, 0, 4) {
        Err(CodecError::Truncated)
    } else {
        match MessageType::of_code(b[4]) {
            None => Err(CodecError::UnknownMessageType),
            Some(message_type) => Ok(
                Frame {
                    message_type,
                    is_request: b[5] == 1,
                    payload: b.subrange(HEADER_LEN as int, uint_at(b, 0, 4) as int),
                },
            ),
        }
    }
}

/// A frame's first four bytes say how long the frame is.
pub proof fn lemma_frame_length(f: Frame)
    requires
        HEADER_LEN + f.payload.len() <= u32::MAX,
    ensures
        frame_bytes(f).len() == HEADER_LEN + f.payload.len(),
        frame_bytes(f).subrange(0, 4) == le_bytes(frame_bytes(f).len(), 4),
        uint_at(frame_bytes(f), 0, 4) == frame_bytes(f).len(),
{
    let total = (HEADER_LEN + f.payload.len()) as nat;
    let tail = seq![f.message_type.code(), request_flag(f.is_request)] + f.payload;
    lemma_le_bytes_len(total, 4);
    lemma_pow256_values();
    lemma_uint_at_concat(Seq::empty(), total, 4, tail);
    assert(Seq::<u8>::empty() + le_bytes(total, 4) + tail =~= frame_bytes(f));
    assert(frame_bytes(f).subrange(0, 4) =~= le_bytes(total, 4));
}

/// Splitting the bytes of a frame gives the frame back, if its payload is
/// within the bound.
pub proof fn lemma_frame_round_trip(f: Frame, max_payload: nat)
    requires
        HEADER_LEN + f.payload.len() <= u32::MAX,
        f.payload.len() <= max_payload,
    ensures
        spec_split_frame(frame_bytes(f), max_payload) == Ok::<Frame, CodecError>(f),
{
    let b = frame_bytes(f);
    lemma_frame_length(f);
    lemma_le_bytes_len((HEADER_LEN + f.payload.len()) as nat, 4);
    f.message_type.lemma_code_round_trip();
    assert(b[4] == f.message_type.code());
    assert(b[5] == request_flag(f.is_request));
    assert(b.subrange(HEADER_LEN as int, b.len() as int) =~= f.payload);
}

/// Puts a payload into its frame.
pub fn encode_frame(message_type: MessageType, is_request: bool, payload: &[u8]) -> (r: Result<
    Vec<u8>,
    CodecError,
>)
    ensures
        match r {
            Ok(bytes) => spec_encode_frame(message_type, is_request, Ok(payload@)) == Ok::<
                Seq<u8>,
                CodecError,
            >(bytes@),
            Err(e) => spec_encode_frame(message_type, is_request, Ok(payload@)) == Err::<
                Seq<u8>,
                CodecError,
            >(e),
        },
{
    if payload.len() > (u32::MAX as usize) - HEADER_LEN {
        return Err(CodecError::PayloadTooLong);
    }
    let total: u32 = (payload.len() + HEADER_LEN) as u32;
    let mut buffer: Vec<u8> = Vec::new();
    put_u32(&mut buffer, total);
    buffer.push(message_type.as_u8());
    buffer.push(if is_request { 1 } else { 0 });
    put_bytes(&mut buffer, payload);
    assert(buffer@ =~= frame_bytes(Frame { message_type, is_request, payload: payload@ }));
    Ok(buffer)
}

/// Takes the frame at the start of `buffer` apart: kind, direction, payload.
pub fn split_frame<'a>(buffer: &'a [u8], max_payload: usize) -> (r: Result<
    (MessageType, bool, &'a [u8]),
    CodecError,
>)
    ensures
        match r {
            Ok((message_type, is_request, payload)) => spec_split_frame(
                buffer@,
                max_payload as nat,
            ) == Ok::<Frame, CodecError>(Frame { message_type, is_request, payload: payload@ }),
            Err(e) => spec_split_frame(buffer@, max_payload as nat) == Err::<Frame, CodecError>(e),
        },
{
    let len = buffer.len();
    if len < 4 {
        return Err(CodecError::Truncated);
    }
    let total_word = get_u32(buffer, 0);
    if total_word < 6 {
        return Err(CodecError::FrameTooShort);
    }
    let payload_word: u32 = total_word - 6;
    if payload_word as u64 > max_payload as u64 {
        return Err(CodecError::PayloadTooLong);
    }
    if (len as u64) < total_word as u64 {
        return Err(CodecError::Truncated);
    }
    let total: usize = total_word as usize;
    match MessageType::from_u8(buffer[4]) {
        None => Err(CodecError::UnknownMessageType),
        Some(message_type) => {
            let is_request = buffer[5] == 1;
            let payload = slice_subrange(buffer, HEADER_LEN, total);
            Ok((message_type, is_request, payload))
        },
    }
}


/// A payload with the header it travels under.
///
/// Nothing ties the header to the payload's own kind and direction: a
/// message says what its bytes say.
pub struct Message<T: MessagePayload> {
    pub is_request: bool,
    pub message_type: MessageType,
    pub message_payload: T,
}

/// A message over the view of its payload.
pub struct MessageView<V> {
    pub is_request: bool,
    pub message_type: MessageType,
    pub message_payload: V,
}

impl<T: MessagePayload> View for Message<T> {
    type V = MessageView<T::V>;

    open spec fn view(&self) -> MessageView<T::V> {
        MessageView {
            is_request: self.is_request,
            message_type: self.message_type,
            message_payload: self.message_payload@,
        }
    }
}

impl<T: MessagePayload> Message<T> {
    /// The frame of a message, or why it has none.
    pub open spec fn spec_serialize(m: MessageView<T::V>) -> Result<Seq<u8>, CodecError> {
        spec_encode_frame(m.message_type, m.is_request, T::spec_serialize(m.message_payload))
    }

    /// The message in the frame at the start of `b`.
    pub open spec fn spec_deserialize(b: Seq<u8>, max_payload: nat) -> Result<
        MessageView<T::V>,
        CodecError,
    > {
        match spec_split_frame(b, max_payload) {
            Err(e) => Err(e),
            Ok(f) => match T::spec_deserialize(f.payload) {
                Err(e) => Err(e),
                Ok(v) => Ok(
                    MessageView {
                        is_request: f.is_request,
                        message_type: f.message_type,
                        message_payload: v,
                    },
                ),
            },
        }
    }

    /// Encodes the payload, then the frame round it.
    pub fn serialize(&self) -> (r: Result<Vec<u8>, CodecError>)
        ensures
            match r {
                Ok(bytes) => Self::spec_serialize(self@) == Ok::<Seq<u8>, CodecError>(bytes@),
                Err(e) => Self::spec_serialize(self@) == Err::<Seq<u8>, CodecError>(e),
            },
    {
        match self.message_payload.serialize() {
            Err(e) => Err(e),
            Ok(payload) => encode_frame(self.message_type, self.is_request, payload.as_slice()),
        }
    }

    /// Decodes a frame whose payload has at most `DEFAULT_MAX_PAYLOAD` bytes.
    pub fn deserialize(buffer: &[u8]) -> (r: Result<Self, CodecError>)
        ensures
            match r {
                Ok(m) => Self::spec_deserialize(buffer@, DEFAULT_MAX_PAYLOAD as nat) == Ok::<
                    MessageView<T::V>,
                    CodecError,
                >(m@),
                Err(e) => Self::spec_deserialize(buffer@, DEFAULT_MAX_PAYLOAD as nat) == Err::<
                    MessageView<T::V>,
                    CodecError,
                >(e),
            },
    {
        Self::deserialize_with_limit(buffer, DEFAULT_MAX_PAYLOAD)
    }

    /// Decodes a frame whose payload has at most `max_payload` bytes.
    pub fn deserialize_with_limit(buffer: &[u8], max_payload: usize) -> (r: Result<
        Self,
        CodecError,
    >)
        ensures
            match r {
                Ok(m) => Self::spec_deserialize(buffer@, max_payload as nat) == Ok::<
                    MessageView<T::V>,
                    CodecError,
                >(m@),
                Err(e) => Self::spec_deserialize(buffer@, max_payload as nat) == Err::<
                    MessageView<T::V>,
                    CodecError,
                >(e),
            },
    {
        match split_frame(buffer, max_payload) {
            Err(e) => Err(e),
            Ok((message_type, is_request, payload)) => match T::deserialize(payload) {
                Err(e) => Err(e),
                Ok(message_payload) => Ok(Message { is_request, message_type, message_payload }),
            },
        }
    }

    /// Decoding the frame of a message gives the message back, whatever its
    /// kind and payload, if the payload is within the decoder's bound.
    pub proof fn lemma_round_trip(m: MessageView<T::V>, max_payload: nat)
        requires
            Self::spec_serialize(m) is Ok,
            T::spec_serialize(m.message_payload).unwrap().len() <= max_payload,
        ensures
            Self::spec_deserialize(Self::spec_serialize(m).unwrap(), max_payload) == Ok::<
                MessageView<T::V>,
                CodecError,
            >(m),
    {
        let payload = T::spec_serialize(m.message_payload).unwrap();
        let f = Frame { message_type: m.message_type, is_request: m.is_request, payload };
        lemma_frame_round_trip(f, max_payload);
        T::lemma_round_trip(m.message_payload);
    }

    /// The first four bytes of an encoded message are its length,
    /// little-endian.
    pub proof fn lemma_length_prefix(m: MessageView<T::V>)
        requires
            Self::spec_serialize(m) is Ok,
        ensures
            ({
                let bytes = Self::spec_serialize(m).unwrap();
                &&& bytes.len() >= HEADER_LEN
                &&& bytes.subrange(0, 4) == le_bytes(bytes.len(), 4)
            }),
    {
        let payload = T::spec_serialize(m.message_payload).unwrap();
        lemma_frame_length(
            Frame { message_type: m.message_type, is_request: m.is_request, payload },
        );
    }
}

} // verus!
