//! The answer to an announce: the writer slot the shard belongs to.
//!
//! ```text
//! | 2 bytes       |
//! | writer number |
//! ```

use crate::messages::message::{CodecError, MessagePayload, MessageType};
use crate::wire::{
    get_u16, le_bytes, lemma_le_bytes_len, lemma_pow256_values, lemma_uint_at_concat, put_u16,
    uint_at,
};
use vstd::prelude::*;

verus! {

#[derive(Debug, Clone, Copy, PartialEq, Eq, Structural)]
pub struct AnnounceShardResponse {
    pub writer_number: u16,
}

impl View for AnnounceShardResponse {
    type V = AnnounceShardResponse;

    open spec fn view(&self) -> AnnounceShardResponse {
        *self
    }
}

impl MessagePayload for AnnounceShardResponse {
    open spec fn spec_is_request() -> bool {
        false
    }

    open spec fn spec_message_type() -> MessageType {
        MessageType::AnnounceShard
    }

    open spec fn spec_serialize(v: AnnounceShardResponse) -> Result<Seq<u8>, CodecError> {
        Ok(le_bytes(v.writer_number as nat, 2))
    }

    /// The payload is two bytes, no fewer and no more.
    open spec fn spec_deserialize(b: Seq<u8>) -> Result<AnnounceShardResponse, CodecError> {
        if b.len() < 2 {
            Err(CodecError::Truncated)
        } else if b.len() > 2 {
            Err(CodecError::TrailingBytes)
        } else {
            Ok(AnnounceShardResponse { writer_number: uint_at(b, 0, 2) as u16 })
        }
    }

    fn is_request(&self) -> (r: bool) {
        false
    }

    fn get_message_type(&self) -> (t: MessageType) {
        MessageType::AnnounceShard
    }

    fn serialize(&self) -> (r: Result<Vec<u8>, CodecError>) {
        let mut buffer: Vec<u8> = Vec::new();
        put_u16(&mut buffer, self.writer_number);
        assert(buffer@ =~= le_bytes(self.writer_number as nat, 2));
        Ok(buffer)
    }

    fn deserialize(buffer: &[u8]) -> (r: Result<Self, CodecError>) {
        if buffer.len() < 2 {
            return Err(CodecError::Truncated);
        }
        if buffer.len() > 2 {
            return Err(CodecError::TrailingBytes);
        }
        Ok(AnnounceShardResponse { writer_number: get_u16(buffer, 0) })
    }

    proof fn lemma_round_trip(v: AnnounceShardResponse) {
        let b = le_bytes(v.writer_number as nat, 2);
        lemma_pow256_values();
        lemma_le_bytes_len(v.writer_number as nat, 2);
        lemma_uint_at_concat(Seq::empty(), v.writer_number as nat, 2, Seq::empty());
        assert(Seq::<u8>::empty() + b + Seq::<u8>::empty() =~= b);
    }
}

} // verus!
