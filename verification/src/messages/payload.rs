//! Any payload of the protocol, and the decoder that tells them apart.
//!
//! A frame's kind and direction decide which of the fourteen payload formats
//! its bytes are read in.

use crate::messages::message::{
    encode_frame, lemma_frame_length, lemma_frame_round_trip, spec_encode_frame,
    spec_split_frame, split_frame, CodecError, Frame, MessagePayload, MessageType,
    DEFAULT_MAX_PAYLOAD, HEADER_LEN,
};
use crate::wire::le_bytes;
use crate::messages::requests::announce_shard_request::AnnounceShardRequest;
use crate::messages::requests::get_client_shard_info_request::GetClientShardInfoRequest;
use crate::messages::requests::get_shared_peers_request::GetSharedPeersRequest;
use crate::messages::requests::get_version_request::GetVersionRequest;
use crate::messages::requests::query_version_request::QueryVersionRequest;
use crate::messages::requests::read_request::{ReadRequest, ReadRequestView};
use crate::messages::requests::write_request::{WriteRequest, WriteRequestView};
use crate::messages::responses::announce_shard_response::AnnounceShardResponse;
use crate::messages::responses::get_client_shard_info_response::{
    GetClientShardInfoResponse, GetClientShardInfoResponseView,
};
use crate::messages::responses::get_shared_peers_response::{
    GetSharedPeersResponse, GetSharedPeersResponseView,
};
use crate::messages::responses::get_version_response::{
    GetVersionResponse, GetVersionResponseView,
};
use crate::messages::responses::query_version_response::QueryVersionResponse;
use crate::messages::responses::read_response::{ReadResponse, ReadResponseView};
use crate::messages::responses::write_response::WriteResponse;
use vstd::prelude::*;

verus! {

/// One payload, of whichever kind and direction.
#[derive(Debug, Clone, PartialEq, Eq)]
pub enum Payload {
    WriteRequest(WriteRequest),
    WriteResponse(WriteResponse),
    ReadRequest(ReadRequest),
    ReadResponse(ReadResponse),
    GetClientShardInfoRequest(GetClientShardInfoRequest),
    GetClientShardInfoResponse(GetClientShardInfoResponse),
    QueryVersionRequest(QueryVersionRequest),
    QueryVersionResponse(QueryVersionResponse),
    GetVersionRequest(GetVersionRequest),
    GetVersionResponse(GetVersionResponse),
    AnnounceShardRequest(AnnounceShardRequest),
    AnnounceShardResponse(AnnounceShardResponse),
    GetSharedPeersRequest(GetSharedPeersRequest),
    GetSharedPeersResponse(GetSharedPeersResponse),
}

/// One payload over the views of its parts.
pub enum PayloadView {
    WriteRequest(WriteRequestView),
    WriteResponse(WriteResponse),
    ReadRequest(ReadRequestView),
    ReadResponse(ReadResponseView),
    GetClientShardInfoRequest(GetClientShardInfoRequest),
    GetClientShardInfoResponse(GetClientShardInfoResponseView),
    QueryVersionRequest(QueryVersionRequest),
    QueryVersionResponse(QueryVersionResponse),
    GetVersionRequest(GetVersionRequest),
    GetVersionResponse(GetVersionResponseView),
    AnnounceShardRequest(AnnounceShardRequest),
    AnnounceShardResponse(AnnounceShardResponse),
    GetSharedPeersRequest(GetSharedPeersRequest),
    GetSharedPeersResponse(GetSharedPeersResponseView),
}

impl View for Payload {
    type V = PayloadView;

    open spec fn view(&self) -> PayloadView {
        match self {
            Payload::WriteRequest(p) => PayloadView::WriteRequest(p@),
            Payload::WriteResponse(p) => PayloadView::WriteResponse(p@),
            Payload::ReadRequest(p) => PayloadView::ReadRequest(p@),
            Payload::ReadResponse(p) => PayloadView::ReadResponse(p@),
            Payload::GetClientShardInfoRequest(p) => PayloadView::GetClientShardInfoRequest(p@),
            Payload::GetClientShardInfoResponse(p) => PayloadView::GetClientShardInfoResponse(p@),
            Payload::QueryVersionRequest(p) => PayloadView::QueryVersionRequest(p@),
            Payload::QueryVersionResponse(p) => PayloadView::QueryVersionResponse(p@),
            Payload::GetVersionRequest(p) => PayloadView::GetVersionRequest(p@),
            Payload::GetVersionResponse(p) => PayloadView::GetVersionResponse(p@),
            Payload::AnnounceShardRequest(p) => PayloadView::AnnounceShardRequest(p@),
            Payload::AnnounceShardResponse(p) => PayloadView::AnnounceShardResponse(p@),
            Payload::GetSharedPeersRequest(p) => PayloadView::GetSharedPeersRequest(p@),
            Payload::GetSharedPeersResponse(p) => PayloadView::GetSharedPeersResponse(p@),
        }
    }
}

impl PayloadView {
    /// Whether the payload is a request.
    pub open spec fn is_request(self) -> bool {
        match self {
            PayloadView::WriteRequest(_) => true,
            PayloadView::ReadRequest(_) => true,
            PayloadView::GetClientShardInfoRequest(_) => true,
            PayloadView::QueryVersionRequest(_) => true,
            PayloadView::GetVersionRequest(_) => true,
            PayloadView::AnnounceShardRequest(_) => true,
            PayloadView::GetSharedPeersRequest(_) => true,
            _ => false,
        }
    }

    /// The kind of message that carries the payload.
    pub open spec fn message_type(self) -> MessageType {
        match self {
            PayloadView::WriteRequest(_) => MessageType::Write,
            PayloadView::WriteResponse(_) => MessageType::Write,
            PayloadView::ReadRequest(_) => MessageType::Read,
            PayloadView::ReadResponse(_) => MessageType::Read,
            PayloadView::GetClientShardInfoRequest(_) => MessageType::GetClientShardInfo,
            PayloadView::GetClientShardInfoResponse(_) => MessageType::GetClientShardInfo,
            PayloadView::QueryVersionRequest(_) => MessageType::QueryVersion,
            PayloadView::QueryVersionResponse(_) => MessageType::QueryVersion,
            PayloadView::GetVersionRequest(_) => MessageType::GetVersion,
            PayloadView::GetVersionResponse(_) => MessageType::GetVersion,
            PayloadView::AnnounceShardRequest(_) => MessageType::AnnounceShard,
            PayloadView::AnnounceShardResponse(_) => MessageType::AnnounceShard,
            PayloadView::GetSharedPeersRequest(_) => MessageType::GetSharedPeers,
            PayloadView::GetSharedPeersResponse(_) => MessageType::GetSharedPeers,
        }
    }

    /// The payload's bytes, in the format of its kind and direction.
    pub open spec fn payload_bytes(self) -> Result<Seq<u8>, CodecError> {
        match self {
            PayloadView::WriteRequest(p) => WriteRequest::spec_serialize(p),
            PayloadView::WriteResponse(p) => WriteResponse::spec_serialize(p),
            PayloadView::ReadRequest(p) => ReadRequest::spec_serialize(p),
            PayloadView::ReadResponse(p) => ReadResponse::spec_serialize(p),
            PayloadView::GetClientShardInfoRequest(p) => GetClientShardInfoRequest::spec_serialize(
                p,
            ),
            PayloadView::GetClientShardInfoResponse(p) => {
                GetClientShardInfoResponse::spec_serialize(p)
            },
            PayloadView::QueryVersionRequest(p) => QueryVersionRequest::spec_serialize(p),
            PayloadView::QueryVersionResponse(p) => QueryVersionResponse::spec_serialize(p),
            PayloadView::GetVersionRequest(p) => GetVersionRequest::spec_serialize(p),
            PayloadView::GetVersionResponse(p) => GetVersionResponse::spec_serialize(p),
            PayloadView::AnnounceShardRequest(p) => AnnounceShardRequest::spec_serialize(p),
            PayloadView::AnnounceShardResponse(p) => AnnounceShardResponse::spec_serialize(p),
            PayloadView::GetSharedPeersRequest(p) => GetSharedPeersRequest::spec_serialize(p),
            PayloadView::GetSharedPeersResponse(p) => GetSharedPeersResponse::spec_serialize(p),
        }
    }

    /// The frame the payload is sent in, under its own kind and direction.
    pub open spec fn frame(self) -> Result<Seq<u8>, CodecError> {
        spec_encode_frame(self.message_type(), self.is_request(), self.payload_bytes())
    }
}

/// Lifts the result of one payload format into the sum.
pub open spec fn lift<V>(r: Result<V, CodecError>, wrap: spec_fn(V) -> PayloadView) -> Result<
    PayloadView,
    CodecError,
> {
    match r {
        Ok(v) => Ok(wrap(v)),
        Err(e) => Err(e),
    }
}

/// The payload that `b` stands for under a header's kind and direction.
pub open spec fn spec_parse_payload(message_type: MessageType, is_request: bool, b: Seq<u8>)
    -> Result<PayloadView, CodecError> {
    match (message_type, is_request) {
        (MessageType::Write, true) => lift(
            WriteRequest::spec_deserialize(b),
            |v| PayloadView::WriteRequest(v),
        ),
        (MessageType::Write, false) => lift(
            WriteResponse::spec_deserialize(b),
            |v| PayloadView::WriteResponse(v),
        ),
        (MessageType::Read, true) => lift(
            ReadRequest::spec_deserialize(b),
            |v| PayloadView::ReadRequest(v),
        ),
        (MessageType::Read, false) => lift(
            ReadResponse::spec_deserialize(b),
            |v| PayloadView::ReadResponse(v),
        ),
        (MessageType::GetClientShardInfo, true) => lift(
            GetClientShardInfoRequest::spec_deserialize(b),
            |v| PayloadView::GetClientShardInfoRequest(v),
        ),
        (MessageType::GetClientShardInfo, false) => lift(
            GetClientShardInfoResponse::spec_deserialize(b),
            |v| PayloadView::GetClientShardInfoResponse(v),
        ),
        (MessageType::QueryVersion, true) => lift(
            QueryVersionRequest::spec_deserialize(b),
            |v| PayloadView::QueryVersionRequest(v),
        ),
        (MessageType::QueryVersion, false) => lift(
            QueryVersionResponse::spec_deserialize(b),
            |v| PayloadView::QueryVersionResponse(v),
        ),
        (MessageType::GetVersion, true) => lift(
            GetVersionRequest::spec_deserialize(b),
            |v| PayloadView::GetVersionRequest(v),
        ),
        (MessageType::GetVersion, false) => lift(
            GetVersionResponse::spec_deserialize(b),
            |v| PayloadView::GetVersionResponse(v),
        ),
        (MessageType::AnnounceShard, true) => lift(
            AnnounceShardRequest::spec_deserialize(b),
            |v| PayloadView::AnnounceShardRequest(v),
        ),
        (MessageType::AnnounceShard, false) => lift(
            AnnounceShardResponse::spec_deserialize(b),
            |v| PayloadView::AnnounceShardResponse(v),
        ),
        (MessageType::GetSharedPeers, true) => lift(
            GetSharedPeersRequest::spec_deserialize(b),
            |v| PayloadView::GetSharedPeersRequest(v),
        ),
        (MessageType::GetSharedPeers, false) => lift(
            GetSharedPeersResponse::spec_deserialize(b),
            |v| PayloadView::GetSharedPeersResponse(v),
        ),
    }
}

/// The message in the frame at the start of `b`.
pub open spec fn spec_bytes_as_message(b: Seq<u8>, max_payload: nat) -> Result<
    PayloadView,
    CodecError,
> {
    match spec_split_frame(b, max_payload) {
        Err(e) => Err(e),
        Ok(f) => spec_parse_payload(f.message_type, f.is_request, f.payload),
    }
}


impl Payload {
    /// Whether the payload is a request.
    pub fn is_request(&self) -> (r: bool)
        ensures
            r == self@.is_request(),
    {
        match self {
            Payload::WriteRequest(_) => true,
            Payload::ReadRequest(_) => true,
            Payload::GetClientShardInfoRequest(_) => true,
            Payload::QueryVersionRequest(_) => true,
            Payload::GetVersionRequest(_) => true,
            Payload::AnnounceShardRequest(_) => true,
            Payload::GetSharedPeersRequest(_) => true,
            _ => false,
        }
    }

    /// The kind of message that carries the payload.
    pub fn get_message_type(&self) -> (t: MessageType)
        ensures
            t == self@.message_type(),
    {
        match self {
            Payload::WriteRequest(_) => MessageType::Write,
            Payload::WriteResponse(_) => MessageType::Write,
            Payload::ReadRequest(_) => MessageType::Read,
            Payload::ReadResponse(_) => MessageType::Read,
            Payload::GetClientShardInfoRequest(_) => MessageType::GetClientShardInfo,
            Payload::GetClientShardInfoResponse(_) => MessageType::GetClientShardInfo,
            Payload::QueryVersionRequest(_) => MessageType::QueryVersion,
            Payload::QueryVersionResponse(_) => MessageType::QueryVersion,
            Payload::GetVersionRequest(_) => MessageType::GetVersion,
            Payload::GetVersionResponse(_) => MessageType::GetVersion,
            Payload::AnnounceShardRequest(_) => MessageType::AnnounceShard,
            Payload::AnnounceShardResponse(_) => MessageType::AnnounceShard,
            Payload::GetSharedPeersRequest(_) => MessageType::GetSharedPeers,
            Payload::GetSharedPeersResponse(_) => MessageType::GetSharedPeers,
        }
    }

    /// The payload's bytes, without a frame.
    pub fn payload_bytes(&self) -> (r: Result<Vec<u8>, CodecError>)
        ensures
            match r {
                Ok(bytes) => self@.payload_bytes() == Ok::<Seq<u8>, CodecError>(bytes@),
                Err(e) => self@.payload_bytes() == Err::<Seq<u8>, CodecError>(e),
            },
    {
        match self {
            Payload::WriteRequest(p) => p.serialize(),
            Payload::WriteResponse(p) => p.serialize(),
            Payload::ReadRequest(p) => p.serialize(),
            Payload::ReadResponse(p) => p.serialize(),
            Payload::GetClientShardInfoRequest(p) => p.serialize(),
            Payload::GetClientShardInfoResponse(p) => p.serialize(),
            Payload::QueryVersionRequest(p) => p.serialize(),
            Payload::QueryVersionResponse(p) => p.serialize(),
            Payload::GetVersionRequest(p) => p.serialize(),
            Payload::GetVersionResponse(p) => p.serialize(),
            Payload::AnnounceShardRequest(p) => p.serialize(),
            Payload::AnnounceShardResponse(p) => p.serialize(),
            Payload::GetSharedPeersRequest(p) => p.serialize(),
            Payload::GetSharedPeersResponse(p) => p.serialize(),
        }
    }

    /// The frame the payload is sent in, under its own kind and direction.
    pub fn serialize(&self) -> (r: Result<Vec<u8>, CodecError>)
        ensures
            match r {
                Ok(bytes) => self@.frame() == Ok::<Seq<u8>, CodecError>(bytes@),
                Err(e) => self@.frame() == Err::<Seq<u8>, CodecError>(e),
            },
    {
        match self.payload_bytes() {
            Err(e) => Err(e),
            Ok(payload) => encode_frame(
                self.get_message_type(),
                self.is_request(),
                payload.as_slice(),
            ),
        }
    }

    /// The first four bytes of the frame of any payload are the frame's
    /// length, little-endian.
    pub proof fn lemma_length_prefix(v: PayloadView)
        requires
            v.frame() is Ok,
        ensures
            ({
                let bytes = v.frame().unwrap();
                &&& bytes.len() == HEADER_LEN + v.payload_bytes().unwrap().len()
                &&& bytes.subrange(0, 4) == le_bytes(bytes.len(), 4)
            }),
    {
        lemma_frame_length(
            Frame {
                message_type: v.message_type(),
                is_request: v.is_request(),
                payload: v.payload_bytes().unwrap(),
            },
        );
    }

    /// Decoding the frame of a payload gives the payload back, for every
    /// kind and direction, if its bytes are within the decoder's bound.
    pub proof fn lemma_round_trip(v: PayloadView, max_payload: nat)
        requires
            v.frame() is Ok,
            v.payload_bytes().unwrap().len() <= max_payload,
        ensures
            spec_bytes_as_message(v.frame().unwrap(), max_payload) == Ok::<
                PayloadView,
                CodecError,
            >(v),
    {
        let payload = v.payload_bytes().unwrap();
        lemma_frame_round_trip(
            Frame { message_type: v.message_type(), is_request: v.is_request(), payload },
            max_payload,
        );
        match v {
            PayloadView::WriteRequest(p) => WriteRequest::lemma_round_trip(p),
            PayloadView::WriteResponse(p) => WriteResponse::lemma_round_trip(p),
            PayloadView::ReadRequest(p) => ReadRequest::lemma_round_trip(p),
            PayloadView::ReadResponse(p) => ReadResponse::lemma_round_trip(p),
            PayloadView::GetClientShardInfoRequest(p) => {
                GetClientShardInfoRequest::lemma_round_trip(p)
            },
            PayloadView::GetClientShardInfoResponse(p) => {
                GetClientShardInfoResponse::lemma_round_trip(p)
            },
            PayloadView::QueryVersionRequest(p) => QueryVersionRequest::lemma_round_trip(p),
            PayloadView::QueryVersionResponse(p) => QueryVersionResponse::lemma_round_trip(p),
            PayloadView::GetVersionRequest(p) => GetVersionRequest::lemma_round_trip(p),
            PayloadView::GetVersionResponse(p) => GetVersionResponse::lemma_round_trip(p),
            PayloadView::AnnounceShardRequest(p) => AnnounceShardRequest::lemma_round_trip(p),
            PayloadView::AnnounceShardResponse(p) => AnnounceShardResponse::lemma_round_trip(p),
            PayloadView::GetSharedPeersRequest(p) => GetSharedPeersRequest::lemma_round_trip(p),
            PayloadView::GetSharedPeersResponse(p) => GetSharedPeersResponse::lemma_round_trip(p),
        }
    }
}

/// Reads `buffer` in the payload format of a header's kind and direction.
pub fn parse_payload(message_type: MessageType, is_request: bool, buffer: &[u8]) -> (r: Result<
    Payload,
    CodecError,
>)
    ensures
        match r {
            Ok(p) => spec_parse_payload(message_type, is_request, buffer@) == Ok::<
                PayloadView,
                CodecError,
            >(p@),
            Err(e) => spec_parse_payload(message_type, is_request, buffer@) == Err::<
                PayloadView,
                CodecError,
            >(e),
        },
{
    match message_type {
        MessageType::Write => if is_request {
            match WriteRequest::deserialize(buffer) {
                Ok(p) => Ok(Payload::WriteRequest(p)),
                Err(e) => Err(e),
            }
        } else {
            match WriteResponse::deserialize(buffer) {
                Ok(p) => Ok(Payload::WriteResponse(p)),
                Err(e) => Err(e),
            }
        },
        MessageType::Read => if is_request {
            match ReadRequest::deserialize(buffer) {
                Ok(p) => Ok(Payload::ReadRequest(p)),
                Err(e) => Err(e),
            }
        } else {
            match ReadResponse::deserialize(buffer) {
                Ok(p) => Ok(Payload::ReadResponse(p)),
                Err(e) => Err(e),
            }
        },
        MessageType::GetClientShardInfo => if is_request {
            match GetClientShardInfoRequest::deserialize(buffer) {
                Ok(p) => Ok(Payload::GetClientShardInfoRequest(p)),
                Err(e) => Err(e),
            }
        } else {
            match GetClientShardInfoResponse::deserialize(buffer) {
                Ok(p) => Ok(Payload::GetClientShardInfoResponse(p)),
                Err(e) => Err(e),
            }
        },
        MessageType::QueryVersion => if is_request {
            match QueryVersionRequest::deserialize(buffer) {
                Ok(p) => Ok(Payload::QueryVersionRequest(p)),
                Err(e) => Err(e),
            }
        } else {
            match QueryVersionResponse::deserialize(buffer) {
                Ok(p) => Ok(Payload::QueryVersionResponse(p)),
                Err(e) => Err(e),
            }
        },
        MessageType::GetVersion => if is_request {
            match GetVersionRequest::deserialize(buffer) {
                Ok(p) => Ok(Payload::GetVersionRequest(p)),
                Err(e) => Err(e),
            }
        } else {
            match GetVersionResponse::deserialize(buffer) {
                Ok(p) => Ok(Payload::GetVersionResponse(p)),
                Err(e) => Err(e),
            }
        },
        MessageType::AnnounceShard => if is_request {
            match AnnounceShardRequest::deserialize(buffer) {
                Ok(p) => Ok(Payload::AnnounceShardRequest(p)),
                Err(e) => Err(e),
            }
        } else {
            match AnnounceShardResponse::deserialize(buffer) {
                Ok(p) => Ok(Payload::AnnounceShardResponse(p)),
                Err(e) => Err(e),
            }
        },
        MessageType::GetSharedPeers => if is_request {
            match GetSharedPeersRequest::deserialize(buffer) {
                Ok(p) => Ok(Payload::GetSharedPeersRequest(p)),
                Err(e) => Err(e),
            }
        } else {
            match GetSharedPeersResponse::deserialize(buffer) {
                Ok(p) => Ok(Payload::GetSharedPeersResponse(p)),
                Err(e) => Err(e),
            }
        },
    }
}

/// Decodes the frame at the start of `buffer`, with a payload of at most
/// `DEFAULT_MAX_PAYLOAD` bytes.
pub fn bytes_as_message(buffer: &[u8]) -> (r: Result<Payload, CodecError>)
    ensures
        match r {
            Ok(p) => spec_bytes_as_message(buffer@, DEFAULT_MAX_PAYLOAD as nat) == Ok::<
                PayloadView,
                CodecError,
            >(p@),
            Err(e) => spec_bytes_as_message(buffer@, DEFAULT_MAX_PAYLOAD as nat) == Err::<
                PayloadView,
                CodecError,
            >(e),
        },
{
    bytes_as_message_with_limit(buffer, DEFAULT_MAX_PAYLOAD)
}

/// Decodes the frame at the start of `buffer`, with a payload of at most
/// `max_payload` bytes.
pub fn bytes_as_message_with_limit(buffer: &[u8], max_payload: usize) -> (r: Result<
    Payload,
    CodecError,
>)
    ensures
        match r {
            Ok(p) => spec_bytes_as_message(buffer@, max_payload as nat) == Ok::<
                PayloadView,
                CodecError,
            >(p@),
            Err(e) => spec_bytes_as_message(buffer@, max_payload as nat) == Err::<
                PayloadView,
                CodecError,
            >(e),
        },
{
    match split_frame(buffer, max_payload) {
        Err(e) => Err(e),
        Ok((message_type, is_request, payload)) => parse_payload(
            message_type,
            is_request,
            payload,
        ),
    }
}

} // verus!
