//! The request by which a shard makes itself known to the info server.
//!
//! ```text
//! | 1 byte | 16 bytes | 16 bytes | 2 bytes |
//! | role   | shard id |    ip    |  port   |
//! ```

use crate::messages::message::{CodecError, MessagePayload, MessageType};
use crate::wire::{
    get_u128, get_u16, le_bytes, lemma_le_bytes_len, lemma_pow256_values, lemma_uint_at_concat,
    put_u128, put_u16, uint_at,
};
use vstd::prelude::*;

verus! {

/// The payload's length: role, shard id, address, port.
pub const ANNOUNCE_LEN: usize = 35;

/// The role a shard announces itself in.
#[derive(Debug, Clone, Copy, PartialEq, Eq, Structural)]
pub enum ShardType {
    ReadShard,
    WriteShard,
}

impl ShardType {
    /// The byte that stands for the role on the wire.
    pub open spec fn code(self) -> u8 {
        match self {
            ShardType::ReadShard => 0,
            ShardType::WriteShard => 1,
        }
    }

    /// The role that a byte stands for, if any.
    pub open spec fn of_code(b: u8) -> Option<ShardType> {
        if b == 0 {
            Some(ShardType::ReadShard)
        } else if b == 1 {
            Some(ShardType::WriteShard)
        } else {
            None
        }
    }

    /// The byte that is written for it.
    pub fn as_u8(self) -> (b: u8)
        ensures
            b == self.code(),
    {
        match self {
            ShardType::ReadShard => 0,
            ShardType::WriteShard => 1,
        }
    }

    /// What a byte that was read stands for, if anything.
    pub fn from_u8(b: u8) -> (t: Option<ShardType>)
        ensures
            t == Self::of_code(b),
    {
        match b {
            0 => Some(ShardType::ReadShard),
            1 => Some(ShardType::WriteShard),
            _ => None,
        }
    }
}

/// Whether an announce is a shard's first or a repetition.
///
/// The wire does not say: the info server tells the two apart by the shard
/// id, which it has either seen or not.
#[derive(Debug, Clone, Copy, PartialEq, Eq, Structural)]
pub enum AnnounceMessageType {
    NewAnnounce,
    ReAnnounce,
}

#[derive(Debug, Clone, Copy, PartialEq, Eq, Structural)]
pub struct AnnounceShardRequest {
    pub shard_type: ShardType,
    pub shard_id: u128,
    pub ip: u128,
    pub port: u16,
}

impl View for AnnounceShardRequest {
    type V = AnnounceShardRequest;

    open spec fn view(&self) -> AnnounceShardRequest {
        *self
    }
}

impl MessagePayload for AnnounceShardRequest {
    open spec fn spec_is_request() -> bool {
        true
    }

    open spec fn spec_message_type() -> MessageType {
        MessageType::AnnounceShard
    }

    open spec fn spec_serialize(v: AnnounceShardRequest) -> Result<Seq<u8>, CodecError> {
        Ok(
            seq![v.shard_type.code()] + le_bytes(v.shard_id as nat, 16) + le_bytes(v.ip as nat, 16)
                + le_bytes(v.port as nat, 2),
        )
    }

    /// The role is looked at first; bytes after the port are not looked at.
    open spec fn spec_deserialize(b: Seq<u8>) -> Result<AnnounceShardRequest, CodecError> {
        if b.len() < 1 {
            Err(CodecError::Truncated)
        } else {
            match ShardType::of_code(b[0]) {
                None => Err(CodecError::UnknownShardType),
                Some(shard_type) => if b.len() < ANNOUNCE_LEN {
                    Err(CodecError::Truncated)
                } else {
                    Ok(
                        AnnounceShardRequest {
                            shard_type,
                            shard_id: uint_at(b, 1, 16) as u128,
                            ip: uint_at(b, 17, 16) as u128,
                            port: uint_at(b, 33, 2) as u16,
                        },
                    )
                },
            }
        }
    }

    fn is_request(&self) -> (r: bool) {
        true
    }

    fn get_message_type(&self) -> (t: MessageType) {
        MessageType::AnnounceShard
    }

    fn serialize(&self) -> (r: Result<Vec<u8>, CodecError>) {
        let mut buffer: Vec<u8> = Vec::new();
        buffer.push(self.shard_type.as_u8());
        put_u128(&mut buffer, self.shard_id);
        put_u128(&mut buffer, self.ip);
        put_u16(&mut buffer, self.port);
        assert(buffer@ =~= Self::spec_serialize(self@).unwrap());
        Ok(buffer)
    }

    fn deserialize(buffer: &[u8]) -> (r: Result<Self, CodecError>) {
        if buffer.len() < 1 {
            return Err(CodecError::Truncated);
        }
        match ShardType::from_u8(buffer[0]) {
            None => Err(CodecError::UnknownShardType),
            Some(shard_type) => {
                if buffer.len() < ANNOUNCE_LEN {
                    return Err(CodecError::Truncated);
                }
                Ok(
                    AnnounceShardRequest {
                        shard_type,
                        shard_id: get_u128(buffer, 1),
                        ip: get_u128(buffer, 17),
                        port: get_u16(buffer, 33),
                    },
                )
            },
        }
    }

    proof fn lemma_round_trip(v: AnnounceShardRequest) {
        let role = seq![v.shard_type.code()];
        let id = le_bytes(v.shard_id as nat, 16);
        let ip = le_bytes(v.ip as nat, 16);
        let port = le_bytes(v.port as nat, 2);
        let b = role + id + ip + port;
        lemma_pow256_values();
        lemma_le_bytes_len(v.shard_id as nat, 16);
        lemma_le_bytes_len(v.ip as nat, 16);
        lemma_le_bytes_len(v.port as nat, 2);
        lemma_uint_at_concat(role, v.shard_id as nat, 16, ip + port);
        assert(role + id + (ip + port) =~= b);
        lemma_uint_at_concat(role + id, v.ip as nat, 16, port);
        lemma_uint_at_concat(role + id + ip, v.port as nat, 2, Seq::empty());
        assert(role + id + ip + port + Seq::<u8>::empty() =~= b);
        assert(b[0] == v.shard_type.code());
    }
}

} // verus!
