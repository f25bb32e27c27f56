//! The answer to a read.
//!
//! ```text
//! | 1 byte | 2 bytes | N bytes | 2 bytes  | M bytes |
//! | error  | keylen  |   key   | valuelen |  value  |
//! ```
//!
//! A reader consults `error` first: a miss says 1, echoes the key and
//! carries an empty value.

use crate::messages::message::{CodecError, MessagePayload, MessageType};
use crate::wire::{
    field_at, field_bytes, field_end, get_field, has_field, lemma_field_concat,
    lemma_le_bytes_len, put_field,
};
use vstd::prelude::*;

verus! {

/// What the error byte of a read response says.
#[derive(Debug, Clone, Copy, PartialEq, Eq, Structural)]
pub enum ReadResponseError {
    NoError,
    KeyNotFound,
}

impl ReadResponseError {
    /// The byte that stands for the outcome on the wire.
    pub open spec fn code(self) -> u8 {
        match self {
            ReadResponseError::NoError => 0,
            ReadResponseError::KeyNotFound => 1,
        }
    }

    /// The byte that is written for it.
    pub fn as_u8(self) -> (b: u8)
        ensures
            b == self.code(),
    {
        match self {
            ReadResponseError::NoError => 0,
            ReadResponseError::KeyNotFound => 1,
        }
    }
}

#[derive(Debug, Clone, PartialEq, Eq)]
pub struct ReadResponse {
    pub key: Vec<u8>,
    pub value: Vec<u8>,
    pub error: u8,
}

pub struct ReadResponseView {
    pub key: Seq<u8>,
    pub value: Seq<u8>,
    pub error: u8,
}

impl View for ReadResponse {
    type V = ReadResponseView;

    open spec fn view(&self) -> ReadResponseView {
        ReadResponseView { key: self.key@, value: self.value@, error: self.error }
    }
}

impl MessagePayload for ReadResponse {
    open spec fn spec_is_request() -> bool {
        false
    }

    open spec fn spec_message_type() -> MessageType {
        MessageType::Read
    }

    open spec fn spec_serialize(v: ReadResponseView) -> Result<Seq<u8>, CodecError> {
        if v.key.len() > 0xffff || v.value.len() > 0xffff {
            Err(CodecError::FieldTooLong)
        } else {
            Ok(seq![v.error] + field_bytes(v.key) + field_bytes(v.value))
        }
    }

    /// Bytes after the value are not looked at.
    open spec fn spec_deserialize(b: Seq<u8>) -> Result<ReadResponseView, CodecError> {
        if b.len() < 1 || !has_field(b, 1) || !has_field(b, field_end(b, 1)) {
            Err(CodecError::Truncated)
        } else {
            Ok(
                ReadResponseView {
                    key: field_at(b, 1),
                    value: field_at(b, field_end(b, 1)),
                    error: b[0],
                },
            )
        }
    }

    fn is_request(&self) -> (r: bool) {
        false
    }

    fn get_message_type(&self) -> (t: MessageType) {
        MessageType::Read
    }

    fn serialize(&self) -> (r: Result<Vec<u8>, CodecError>) {
        if self.key.len() > 0xffff || self.value.len() > 0xffff {
            return Err(CodecError::FieldTooLong);
        }
        let mut buffer: Vec<u8> = Vec::new();
        buffer.push(self.error);
        put_field(&mut buffer, self.key.as_slice());
        put_field(&mut buffer, self.value.as_slice());
        assert(buffer@ =~= seq![self.error] + field_bytes(self.key@) + field_bytes(self.value@));
        Ok(buffer)
    }

    fn deserialize(buffer: &[u8]) -> (r: Result<Self, CodecError>) {
        if buffer.len() < 1 {
            return Err(CodecError::Truncated);
        }
        let error = buffer[0];
        match get_field(buffer, 1) {
            None => Err(CodecError::Truncated),
            Some((key, at)) => match get_field(buffer, at) {
                None => Err(CodecError::Truncated),
                Some((value, _)) => Ok(ReadResponse { key, value, error }),
            },
        }
    }

    proof fn lemma_round_trip(v: ReadResponseView) {
        let head = seq![v.error];
        let b = head + field_bytes(v.key) + field_bytes(v.value);
        lemma_le_bytes_len(v.key.len(), 2);
        lemma_field_concat(head, v.key, field_bytes(v.value));
        lemma_field_concat(head + field_bytes(v.key), v.value, Seq::empty());
        assert(head + field_bytes(v.key) + field_bytes(v.value) + Seq::<u8>::empty() =~= b);
        assert(b[0] == v.error);
    }
}

} // verus!
