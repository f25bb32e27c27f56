//! The request for the highest version a shard holds. It has no payload.

use crate::messages::message::{CodecError, MessagePayload, MessageType};
use vstd::prelude::*;

verus! {

#[derive(Debug, Clone, Copy, PartialEq, Eq, Structural)]
pub struct QueryVersionRequest {}

impl View for QueryVersionRequest {
    type V = QueryVersionRequest;

    open spec fn view(&self) -> QueryVersionRequest {
        *self
    }
}

impl MessagePayload for QueryVersionRequest {
    open spec fn spec_is_request() -> bool {
        true
    }

    open spec fn spec_message_type() -> MessageType {
        MessageType::QueryVersion
    }

    open spec fn spec_serialize(v: QueryVersionRequest) -> Result<Seq<u8>, CodecError> {
        Ok(Seq::empty())
    }

    /// Whatever bytes come with the request are not looked at.
    open spec fn spec_deserialize(b: Seq<u8>) -> Result<QueryVersionRequest, CodecError> {
        Ok(QueryVersionRequest {  })
    }

    fn is_request(&self) -> (r: bool) {
        true
    }

    fn get_message_type(&self) -> (t: MessageType) {
        MessageType::QueryVersion
    }

    fn serialize(&self) -> (r: Result<Vec<u8>, CodecError>) {
        Ok(Vec::new())
    }

    fn deserialize(_buffer: &[u8]) -> (r: Result<Self, CodecError>) {
        Ok(QueryVersionRequest {  })
    }

    proof fn lemma_round_trip(v: QueryVersionRequest) {
    }
}

} // verus!
