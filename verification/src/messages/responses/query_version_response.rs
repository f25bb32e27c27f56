//! The answer to a version query.
//!
//! ```text
//! | 8 bytes |
//! | version |
//! ```

use crate::messages::message::{CodecError, MessagePayload, MessageType};
use crate::wire::{
    get_u64, le_bytes, lemma_le_bytes_len, lemma_pow256_values, lemma_uint_at_concat, put_u64,
    uint_at,
};
use vstd::prelude::*;

verus! {

#[derive(Debug, Clone, Copy, PartialEq, Eq, Structural)]
pub struct QueryVersionResponse {
    pub version: u64,
}

impl View for QueryVersionResponse {
    type V = QueryVersionResponse;

    open spec fn view(&self) -> QueryVersionResponse {
        *self
    }
}

impl MessagePayload for QueryVersionResponse {
    open spec fn spec_is_request() -> bool {
        false
    }

    open spec fn spec_message_type() -> MessageType {
        MessageType::QueryVersion
    }

    open spec fn spec_serialize(v: QueryVersionResponse) -> Result<Seq<u8>, CodecError> {
        Ok(le_bytes(v.version as nat, 8))
    }

    /// The payload is eight bytes, no fewer and no more.
    open spec fn spec_deserialize(b: Seq<u8>) -> Result<QueryVersionResponse, CodecError> {
        if b.len() < 8 {
            Err(CodecError::Truncated)
        } else if b.len() > 8 {
            Err(CodecError::TrailingBytes)
        } else {
            Ok(QueryVersionResponse { version: uint_at(b, 0, 8) as u64 })
        }
    }

    fn is_request(&self) -> (r: bool) {
        false
    }

    fn get_message_type(&self) -> (t: MessageType) {
        MessageType::QueryVersion
    }

    fn serialize(&self) -> (r: Result<Vec<u8>, CodecError>) {
        let mut buffer: Vec<u8> = Vec::new();
        put_u64(&mut buffer, self.version);
        assert(buffer@ =~= le_bytes(self.version as nat, 8));
        Ok(buffer)
    }

    fn deserialize(buffer: &[u8]) -> (r: Result<Self, CodecError>) {
        if buffer.len() < 8 {
            return Err(CodecError::Truncated);
        }
        if buffer.len() > 8 {
            return Err(CodecError::TrailingBytes);
        }
        Ok(QueryVersionResponse { version: get_u64(buffer, 0) })
    }

    proof fn lemma_round_trip(v: QueryVersionResponse) {
        let b = le_bytes(v.version as nat, 8);
        lemma_pow256_values();
        lemma_le_bytes_len(v.version as nat, 8);
        lemma_uint_at_concat(Seq::empty(), v.version as nat, 8, Seq::empty());
        assert(Seq::<u8>::empty() + b + Seq::<u8>::empty() =~= b);
    }
}

} // verus!
