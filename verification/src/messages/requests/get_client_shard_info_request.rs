//! The request for the client's view of the shards. It has no payload.

use crate::messages::message::{CodecError, MessagePayload, MessageType};
use vstd::prelude::*;

verus! {

#[derive(Debug, Clone, Copy, PartialEq, Eq, Structural)]
pub struct GetClientShardInfoRequest {}

impl View for GetClientShardInfoRequest {
    type V = GetClientShardInfoRequest;

    open spec fn view(&self) -> GetClientShardInfoRequest {
        *self
    }
}

impl MessagePayload for GetClientShardInfoRequest {
    open spec fn spec_is_request() -> bool {
        true
    }

    open spec fn spec_message_type() -> MessageType {
        MessageType::GetClientShardInfo
    }

    open spec fn spec_serialize(v: GetClientShardInfoRequest) -> Result<Seq<u8>, CodecError> {
        Ok(Seq::empty())
    }

    /// Whatever bytes come with the request are not looked at.
    open spec fn spec_deserialize(b: Seq<u8>) -> Result<GetClientShardInfoRequest, CodecError> {
        Ok(GetClientShardInfoRequest {  })
    }

    fn is_request(&self) -> (r: bool) {
        true
    }

    fn get_message_type(&self) -> (t: MessageType) {
        MessageType::GetClientShardInfo
    }

    fn serialize(&self) -> (r: Result<Vec<u8>, CodecError>) {
        Ok(Vec::new())
    }

    fn deserialize(_buffer: &[u8]) -> (r: Result<Self, CodecError>) {
        Ok(GetClientShardInfoRequest {  })
    }

    proof fn lemma_round_trip(v: GetClientShardInfoRequest) {
    }
}

} // verus!
