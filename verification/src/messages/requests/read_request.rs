//! The request for the value stored under a key.
//!
//! ```text
//! | 2 bytes | N bytes |
//! | keylen  |   key   |
//! ```

use crate::messages::message::{CodecError, MessagePayload, MessageType};
use crate::wire::{field_at, field_bytes, get_field, has_field, lemma_field_concat, put_field};
use vstd::prelude::*;

verus! {

#[derive(Debug, Clone, PartialEq, Eq)]
pub struct ReadRequest {
    pub key: Vec<u8>,
}

pub struct ReadRequestView {
    pub key: Seq<u8>,
}

impl View for ReadRequest {
    type V = ReadRequestView;

    open spec fn view(&self) -> ReadRequestView {
        ReadRequestView { key: self.key@ }
    }
}

impl MessagePayload for ReadRequest {
    open spec fn spec_is_request() -> bool {
        true
    }

    open spec fn spec_message_type() -> MessageType {
        MessageType::Read
    }

    open spec fn spec_serialize(v: ReadRequestView) -> Result<Seq<u8>, CodecError> {
        if v.key.len() > 0xffff {
            Err(CodecError::FieldTooLong)
        } else {
            Ok(field_bytes(v.key))
        }
    }

    open spec fn spec_deserialize(b: Seq<u8>) -> Result<ReadRequestView, CodecError> {
        if !has_field(b, 0) {
            Err(CodecError::Truncated)
        } else {
            Ok(ReadRequestView { key: field_at(b, 0) })
        }
    }

    fn is_request(&self) -> (r: bool) {
        true
    }

    fn get_message_type(&self) -> (t: MessageType) {
        MessageType::Read
    }

    fn serialize(&self) -> (r: Result<Vec<u8>, CodecError>) {
        if self.key.len() > 0xffff {
            return Err(CodecError::FieldTooLong);
        }
        let mut buffer: Vec<u8> = Vec::new();
        put_field(&mut buffer, self.key.as_slice());
        assert(buffer@ =~= field_bytes(self.key@));
        Ok(buffer)
    }

    fn deserialize(buffer: &[u8]) -> (r: Result<Self, CodecError>) {
        match get_field(buffer, 0) {
            None => Err(CodecError::Truncated),
            Some((key, _)) => Ok(ReadRequest { key }),
        }
    }

    proof fn lemma_round_trip(v: ReadRequestView) {
        lemma_field_concat(Seq::empty(), v.key, Seq::empty());
        assert(Seq::<u8>::empty() + field_bytes(v.key) + Seq::<u8>::empty() =~= field_bytes(
            v.key,
        ));
    }
}

} // verus!
