//! The answer to a client's request for its view of the shards.
//!
//! ```text
//! | 2 bytes          | N * 18 bytes     | N * 18 bytes    |
//! | num_write_shards | write_shard_info | read_shard_info |
//! ```
//!
//! Entry `i` of each list belongs to writer slot `i`. Both lists have
//! `num_write_shards` entries: the encoder refuses a view whose lists
//! disagree with the count, and the decoder reads exactly that many of each.

use crate::messages::message::{CodecError, MessagePayload, MessageType};
use crate::wire::{
    endpoints_at, endpoints_bytes, get_endpoints, get_u16, le_bytes, lemma_endpoints_bytes_len,
    lemma_endpoints_concat, lemma_le_bytes_len, lemma_pow256_values, lemma_uint_at_concat,
    put_endpoints, put_u16, uint_at,
};
use vstd::prelude::*;

verus! {

#[derive(Debug, Clone, PartialEq, Eq)]
pub struct GetClientShardInfoResponse {
    pub num_write_shards: u16,
    pub write_shard_info: Vec<(u128, u16)>,
    pub read_shard_info: Vec<(u128, u16)>,
}

pub struct GetClientShardInfoResponseView {
    pub num_write_shards: u16,
    pub write_shard_info: Seq<(u128, u16)>,
    pub read_shard_info: Seq<(u128, u16)>,
}

impl View for GetClientShardInfoResponse {
    type V = GetClientShardInfoResponseView;

    open spec fn view(&self) -> GetClientShardInfoResponseView {
        GetClientShardInfoResponseView {
            num_write_shards: self.num_write_shards,
            write_shard_info: self.write_shard_info@,
            read_shard_info: self.read_shard_info@,
        }
    }
}

impl GetClientShardInfoResponseView {
    /// The view that says that no complete set of shards is known.
    pub open spec fn empty() -> GetClientShardInfoResponseView {
        GetClientShardInfoResponseView {
            num_write_shards: 0,
            write_shard_info: Seq::empty(),
            read_shard_info: Seq::empty(),
        }
    }

    /// Both lists have as many entries as the count says.
    pub open spec fn consistent(self) -> bool {
        self.write_shard_info.len() == self.num_write_shards && self.read_shard_info.len()
            == self.num_write_shards
    }
}

impl MessagePayload for GetClientShardInfoResponse {
    open spec fn spec_is_request() -> bool {
        false
    }

    open spec fn spec_message_type() -> MessageType {
        MessageType::GetClientShardInfo
    }

    open spec fn spec_serialize(v: GetClientShardInfoResponseView) -> Result<Seq<u8>, CodecError> {
        if !v.consistent() {
            Err(CodecError::CountMismatch)
        } else {
            Ok(
                le_bytes(v.num_write_shards as nat, 2) + endpoints_bytes(v.write_shard_info)
                    + endpoints_bytes(v.read_shard_info),
            )
        }
    }

    /// Bytes after the last reader entry are not looked at.
    open spec fn spec_deserialize(b: Seq<u8>) -> Result<
        GetClientShardInfoResponseView,
        CodecError,
    > {
        if b.len() < 2 || b.len() < 2 + 36 * uint_at(b, 0, 2) {
            Err(CodecError::Truncated)
        } else {
            Ok(
                GetClientShardInfoResponseView {
                    num_write_shards: uint_at(b, 0, 2) as u16,
                    write_shard_info: endpoints_at(b, 2, uint_at(b, 0, 2)),
                    read_shard_info: endpoints_at(
                        b,
                        (2 + 18 * uint_at(b, 0, 2)) as int,
                        uint_at(b, 0, 2),
                    ),
                },
            )
        }
    }

    fn is_request(&self) -> (r: bool) {
        false
    }

    fn get_message_type(&self) -> (t: MessageType) {
        MessageType::GetClientShardInfo
    }

    fn serialize(&self) -> (r: Result<Vec<u8>, CodecError>) {
        let count = self.num_write_shards as usize;
        if self.write_shard_info.len() != count || self.read_shard_info.len() != count {
            return Err(CodecError::CountMismatch);
        }
        let mut buffer: Vec<u8> = Vec::new();
        put_u16(&mut buffer, self.num_write_shards);
        put_endpoints(&mut buffer, &self.write_shard_info);
        put_endpoints(&mut buffer, &self.read_shard_info);
        assert(buffer@ =~= Self::spec_serialize(self@).unwrap());
        Ok(buffer)
    }

    fn deserialize(buffer: &[u8]) -> (r: Result<Self, CodecError>) {
        let len = buffer.len();
        if len < 2 {
            return Err(CodecError::Truncated);
        }
        let num_write_shards = get_u16(buffer, 0);
        let count = num_write_shards as usize;
        if len - 2 < 36 * count {
            return Err(CodecError::Truncated);
        }
        let write_shard_info = get_endpoints(buffer, 2, count);
        let read_shard_info = get_endpoints(buffer, 2 + 18 * count, count);
        Ok(GetClientShardInfoResponse { num_write_shards, write_shard_info, read_shard_info })
    }

    proof fn lemma_round_trip(v: GetClientShardInfoResponseView) {
        let n = v.num_write_shards as nat;
        let count = le_bytes(n, 2);
        let writers = endpoints_bytes(v.write_shard_info);
        let readers = endpoints_bytes(v.read_shard_info);
        let b = count + writers + readers;
        lemma_pow256_values();
        lemma_le_bytes_len(n, 2);
        lemma_endpoints_bytes_len(v.write_shard_info);
        lemma_endpoints_bytes_len(v.read_shard_info);
        lemma_uint_at_concat(Seq::empty(), n, 2, writers + readers);
        assert(Seq::<u8>::empty() + count + (writers + readers) =~= b);
        lemma_endpoints_concat(count, v.write_shard_info, readers);
        lemma_endpoints_concat(count + writers, v.read_shard_info, Seq::empty());
        assert(count + writers + readers + Seq::<u8>::empty() =~= b);
    }
}

} // verus!
