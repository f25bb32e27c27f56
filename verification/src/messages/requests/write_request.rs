//! The request to store a value under a key.
//!
//! ```text
//! | 2 bytes | N bytes | 2 bytes  | M bytes |
//! | keylen  |   key   | valuelen |  value  |
//! ```

use crate::messages::message::{CodecError, MessagePayload, MessageType};
use crate::wire::{
    field_at, field_bytes, field_end, get_field, has_field, lemma_field_concat, put_field,
};
use vstd::prelude::*;

verus! {

#[derive(Debug, Clone, PartialEq, Eq)]
pub struct WriteRequest {
    pub key: Vec<u8>,
    pub value: Vec<u8>,
}

pub struct WriteRequestView {
    pub key: Seq<u8>,
    pub value: Seq<u8>,
}

impl View for WriteRequest {
    type V = WriteRequestView;

    open spec fn view(&self) -> WriteRequestView {
        WriteRequestView { key: self.key@, value: self.value@ }
    }
}

impl MessagePayload for WriteRequest {
    open spec fn spec_is_request() -> bool {
        true
    }

    open spec fn spec_message_type() -> MessageType {
        MessageType::Write
    }

    open spec fn spec_serialize(v: WriteRequestView) -> Result<Seq<u8>, CodecError> {
        if v.key.len() > 0xffff || v.value.len() > 0xffff {
            Err(CodecError::FieldTooLong)
        } else {
            Ok(field_bytes(v.key) + field_bytes(v.value))
        }
    }

    open spec fn spec_deserialize(b: Seq<u8>) -> Result<WriteRequestView, CodecError> {
        if !has_field(b, 0) || !has_field(b, field_end(b, 0)) {
            Err(CodecError::Truncated)
        } else {
            Ok(WriteRequestView { key: field_at(b, 0), value: field_at(b, field_end(b, 0)) })
        }
    }

    fn is_request(&self) -> (r: bool) {
        true
    }

    fn get_message_type(&self) -> (t: MessageType) {
        MessageType::Write
    }

    fn serialize(&self) -> (r: Result<Vec<u8>, CodecError>) {
        if self.key.len() > 0xffff || self.value.len() > 0xffff {
            return Err(CodecError::FieldTooLong);
        }
        let mut buffer: Vec<u8> = Vec::new();
        put_field(&mut buffer, self.key.as_slice());
        put_field(&mut buffer, self.value.as_slice());
        assert(buffer@ =~= field_bytes(self.key@) + field_bytes(self.value@));
        Ok(buffer)
    }

    fn deserialize(buffer: &[u8]) -> (r: Result<Self, CodecError>) {
        match get_field(buffer, 0) {
            None => Err(CodecError::Truncated),
            Some((key, at)) => match get_field(buffer, at) {
                None => Err(CodecError::Truncated),
                Some((value, _)) => Ok(WriteRequest { key, value }),
            },
        }
    }

    proof fn lemma_round_trip(v: WriteRequestView) {
        let b = field_bytes(v.key) + field_bytes(v.value);
        lemma_field_concat(Seq::empty(), v.key, field_bytes(v.value));
        assert(Seq::<u8>::empty() + field_bytes(v.key) + field_bytes(v.value) =~= b);
        lemma_field_concat(field_bytes(v.key), v.value, Seq::empty());
        assert(field_bytes(v.key) + field_bytes(v.value) + Seq::<u8>::empty() =~= b);
        assert(field_bytes(v.key).len() == 2 + v.key.len()) by {
            crate::wire::lemma_le_bytes_len(v.key.len(), 2);
        }
    }
}

} // verus!
