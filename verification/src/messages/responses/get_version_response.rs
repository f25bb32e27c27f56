//! The answer to a request for one version of the log.
//!
//! ```text
//! | 1 byte | 8 bytes | 2 bytes | N bytes | 2 bytes  | M bytes |
//! | error  | version | keylen  |   key   | valuelen |  value  |
//! ```

use crate::messages::message::{CodecError, MessagePayload, MessageType};
use crate::wire::{
    field_at, field_bytes, field_end, get_field, get_u64, has_field, le_bytes,
    lemma_field_concat, lemma_le_bytes_len, lemma_pow256_values, lemma_uint_at_concat, put_field,
    put_u64, uint_at,
};
use vstd::prelude::*;

verus! {

/// What the error byte of a version response says.
#[derive(Debug, Clone, Copy, PartialEq, Eq, Structural)]
pub enum GetVersionResponseError {
    NoError,
    KeyNotFound,
}

impl GetVersionResponseError {
    /// The byte that stands for the outcome on the wire.
    pub open spec fn code(self) -> u8 {
        match self {
            GetVersionResponseError::NoError => 0,
            GetVersionResponseError::KeyNotFound => 1,
        }
    }

    /// The byte that is written for it.
    pub fn as_u8(self) -> (b: u8)
        ensures
            b == self.code(),
    {
        match self {
            GetVersionResponseError::NoError => 0,
            GetVersionResponseError::KeyNotFound => 1,
        }
    }
}

#[derive(Debug, Clone, PartialEq, Eq)]
pub struct GetVersionResponse {
    pub version: u64,
    pub key: Vec<u8>,
    pub value: Vec<u8>,
    pub error: u8,
}

pub struct GetVersionResponseView {
    pub version: u64,
    pub key: Seq<u8>,
    pub value: Seq<u8>,
    pub error: u8,
}

impl View for GetVersionResponse {
    type V = GetVersionResponseView;

    open spec fn view(&self) -> GetVersionResponseView {
        GetVersionResponseView {
            version: self.version,
            key: self.key@,
            value: self.value@,
            error: self.error,
        }
    }
}

impl MessagePayload for GetVersionResponse {
    open spec fn spec_is_request() -> bool {
        false
    }

    open spec fn spec_message_type() -> MessageType {
        MessageType::GetVersion
    }

    open spec fn spec_serialize(v: GetVersionResponseView) -> Result<Seq<u8>, CodecError> {
        if v.key.len() > 0xffff || v.value.len() > 0xffff {
            Err(CodecError::FieldTooLong)
        } else {
            Ok(
                seq![v.error] + le_bytes(v.version as nat, 8) + field_bytes(v.key) + field_bytes(
                    v.value,
                ),
            )
        }
    }

    /// Bytes after the value are not looked at.
    open spec fn spec_deserialize(b: Seq<u8>) -> Result<GetVersionResponseView, CodecError> {
        if b.len() < 9 || !has_field(b, 9) || !has_field(b, field_end(b, 9)) {
            Err(CodecError::Truncated)
        } else {
            Ok(
                GetVersionResponseView {
                    version: uint_at(b, 1, 8) as u64,
                    key: field_at(b, 9),
                    value: field_at(b, field_end(b, 9)),
                    error: b[0],
                },
            )
        }
    }

    fn is_request(&self) -> (r: bool) {
        false
    }

    fn get_message_type(&self) -> (t: MessageType) {
        MessageType::GetVersion
    }

    fn serialize(&self) -> (r: Result<Vec<u8>, CodecError>) {
        if self.key.len() > 0xffff || self.value.len() > 0xffff {
            return Err(CodecError::FieldTooLong);
        }
        let mut buffer: Vec<u8> = Vec::new();
        buffer.push(self.error);
        put_u64(&mut buffer, self.version);
        put_field(&mut buffer, self.key.as_slice());
        put_field(&mut buffer, self.value.as_slice());
        assert(buffer@ =~= Self::spec_serialize(self@).unwrap());
        Ok(buffer)
    }

    fn deserialize(buffer: &[u8]) -> (r: Result<Self, CodecError>) {
        if buffer.len() < 9 {
            return Err(CodecError::Truncated);
        }
        let error = buffer[0];
        let version = get_u64(buffer, 1);
        match get_field(buffer, 9) {
            None => Err(CodecError::Truncated),
            Some((key, at)) => match get_field(buffer, at) {
                None => Err(CodecError::Truncated),
                Some((value, _)) => Ok(GetVersionResponse { version, key, value, error }),
            },
        }
    }

    proof fn lemma_round_trip(v: GetVersionResponseView) {
        let head = seq![v.error];
        let number = le_bytes(v.version as nat, 8);
        let key = field_bytes(v.key);
        let value = field_bytes(v.value);
        let b = head + number + key + value;
        lemma_pow256_values();
        lemma_le_bytes_len(v.version as nat, 8);
        lemma_le_bytes_len(v.key.len(), 2);
        lemma_uint_at_concat(head, v.version as nat, 8, key + value);
        assert(head + number + (key + value) =~= b);
        lemma_field_concat(head + number, v.key, value);
        lemma_field_concat(head + number + key, v.value, Seq::empty());
        assert(head + number + key + value + Seq::<u8>::empty() =~= b);
        assert(b[0] == v.error);
    }
}

} // verus!
