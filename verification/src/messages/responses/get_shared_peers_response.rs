//! The answer to a request for the peers of a writer slot: the writer's
//! endpoint first, if the slot has one, then its readers'.
//!
//! ```text
//! | 16 bytes | 2 bytes | ... one entry after the other, to the end
//! |    ip    |  port   |
//! ```

use crate::messages::message::{CodecError, MessagePayload, MessageType};
use crate::wire::{
    endpoints_at, endpoints_bytes, get_endpoints, lemma_endpoints_bytes_len,
    lemma_endpoints_concat, put_endpoints,
};
use vstd::prelude::*;

verus! {

/// The bytes of one endpoint.
pub const ENDPOINT_LEN: usize = 18;

#[derive(Debug, Clone, PartialEq, Eq)]
pub struct GetSharedPeersResponse {
    pub peer_ips: Vec<(u128, u16)>,
}

pub struct GetSharedPeersResponseView {
    pub peer_ips: Seq<(u128, u16)>,
}

impl View for GetSharedPeersResponse {
    type V = GetSharedPeersResponseView;

    open spec fn view(&self) -> GetSharedPeersResponseView {
        GetSharedPeersResponseView { peer_ips: self.peer_ips@ }
    }
}

impl MessagePayload for GetSharedPeersResponse {
    open spec fn spec_is_request() -> bool {
        false
    }

    open spec fn spec_message_type() -> MessageType {
        MessageType::GetSharedPeers
    }

    open spec fn spec_serialize(v: GetSharedPeersResponseView) -> Result<Seq<u8>, CodecError> {
        Ok(endpoints_bytes(v.peer_ips))
    }

    /// The payload is whole entries and nothing else.
    open spec fn spec_deserialize(b: Seq<u8>) -> Result<GetSharedPeersResponseView, CodecError> {
        if b.len() % ENDPOINT_LEN as nat != 0 {
            Err(CodecError::Truncated)
        } else {
            Ok(
                GetSharedPeersResponseView {
                    peer_ips: endpoints_at(b, 0, b.len() / ENDPOINT_LEN as nat),
                },
            )
        }
    }

    fn is_request(&self) -> (r: bool) {
        false
    }

    fn get_message_type(&self) -> (t: MessageType) {
        MessageType::GetSharedPeers
    }

    fn serialize(&self) -> (r: Result<Vec<u8>, CodecError>) {
        let mut buffer: Vec<u8> = Vec::new();
        put_endpoints(&mut buffer, &self.peer_ips);
        assert(buffer@ =~= endpoints_bytes(self.peer_ips@));
        Ok(buffer)
    }

    fn deserialize(buffer: &[u8]) -> (r: Result<Self, CodecError>) {
        let len = buffer.len();
        if len % ENDPOINT_LEN != 0 {
            return Err(CodecError::Truncated);
        }
        let count = len / ENDPOINT_LEN;
        Ok(GetSharedPeersResponse { peer_ips: get_endpoints(buffer, 0, count) })
    }

    proof fn lemma_round_trip(v: GetSharedPeersResponseView) {
        let b = endpoints_bytes(v.peer_ips);
        lemma_endpoints_bytes_len(v.peer_ips);
        lemma_endpoints_concat(Seq::empty(), v.peer_ips, Seq::empty());
        assert(Seq::<u8>::empty() + b + Seq::<u8>::empty() =~= b);
    }
}

} // verus!
