//! The request for the peers that share a writer slot.
//!
//! ```text
//! | 2 bytes       |
//! | writer number |
//! ```

use crate::messages::message::{CodecError, MessagePayload, MessageType};
use crate::wire::{get_u16, le_bytes, lemma_pow256_values, lemma_uint_at_concat, put_u16, uint_at};
use vstd::prelude::*;

verus! {

#[derive(Debug, Clone, Copy, PartialEq, Eq, Structural)]
pub struct GetSharedPeersRequest {
    pub writer_number: u16,
}

impl View for GetSharedPeersRequest {
    type V = GetSharedPeersRequest;

    open spec fn view(&self) -> GetSharedPeersRequest {
        *self
    }
}

impl MessagePayload for GetSharedPeersRequest {
    open spec fn spec_is_request() -> bool {
        true
    }

    open spec fn spec_message_type() -> MessageType {
        MessageType::GetSharedPeers
    }

    open spec fn spec_serialize(v: GetSharedPeersRequest) -> Result<Seq<u8>, CodecError> {
        Ok(le_bytes(v.writer_number as nat, 2))
    }

    /// The payload is two bytes, no fewer and no more.
    open spec fn spec_deserialize(b: Seq<u8>) -> Result<GetSharedPeersRequest, CodecError> {
        if b.len() < 2 {
            Err(CodecError::Truncated)
        } else if b.len() > 2 {
            Err(CodecError::TrailingBytes)
        } else {
            Ok(GetSharedPeersRequest { writer_number: uint_at(b, 0, 2) as u16 })
        }
    }

    fn is_request(&self) -> (r: bool) {
        true
    }

    fn get_message_type(&self) -> (t: MessageType) {
        MessageType::GetSharedPeers
    }

    fn serialize(&self) -> (r: Result<Vec<u8>, CodecError>) {
        let mut buffer: Vec<u8> = Vec::new();
        put_u16(&mut buffer, self.writer_number);
        assert(buffer@ =~= le_bytes(self.writer_number as nat, 2));
        Ok(buffer)
    }

    fn deserialize(buffer: &[u8]) -> (r: Result<Self, CodecError>) {
        if buffer.len() < 2 {
            return Err(CodecError::Truncated);
        }
        if buffer.len() > 2 {
            return Err(CodecError::TrailingBytes);
        }
        Ok(GetSharedPeersRequest { writer_number: get_u16(buffer, 0) })
    }

    proof fn lemma_round_trip(v: GetSharedPeersRequest) {
        let b = le_bytes(v.writer_number as nat, 2);
        lemma_pow256_values();
        crate::wire::lemma_le_bytes_len(v.writer_number as nat, 2);
        lemma_uint_at_concat(Seq::empty(), v.writer_number as nat, 2, Seq::empty());
        assert(Seq::<u8>::empty() + b + Seq::<u8>::empty() =~= b);
    }
}

} // verus!
