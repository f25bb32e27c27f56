use rust_edis::messages::message::{
    encode_frame, split_frame, CodecError, Message, MessagePayload, MessageType,
    DEFAULT_MAX_PAYLOAD, HEADER_LEN,
};
use rust_edis::messages::payload::{
    bytes_as_message, bytes_as_message_with_limit, parse_payload, Payload,
};
use rust_edis::messages::requests::announce_shard_request::{AnnounceShardRequest, ShardType};
use rust_edis::messages::requests::get_client_shard_info_request::GetClientShardInfoRequest;
use rust_edis::messages::requests::get_shared_peers_request::GetSharedPeersRequest;
use rust_edis::messages::requests::get_version_request::GetVersionRequest;
use rust_edis::messages::requests::query_version_request::QueryVersionRequest;
use rust_edis::messages::requests::read_request::ReadRequest;
use rust_edis::messages::requests::write_request::WriteRequest;
use rust_edis::messages::responses::announce_shard_response::AnnounceShardResponse;
use rust_edis::messages::responses::get_client_shard_info_response::GetClientShardInfoResponse;
use rust_edis::messages::responses::get_shared_peers_response::GetSharedPeersResponse;
use rust_edis::messages::responses::get_version_response::{
    GetVersionResponse, GetVersionResponseError,
};
use rust_edis::messages::responses::query_version_response::QueryVersionResponse;
use rust_edis::messages::responses::read_response::{ReadResponse, ReadResponseError};
use rust_edis::messages::responses::write_response::{WriteResponse, WriteResponseError};
use rust_edis::wire::{get_le, get_u128, get_u16, get_u32, get_u64, put_le, put_u128, put_u16};

/// One payload of every kind and direction.
fn samples() -> Vec<Payload> {
    vec![
        Payload::WriteRequest(WriteRequest {
            key: b"key".to_vec(),
            value: b"value".to_vec(),
        }),
        Payload::WriteResponse(WriteResponse { error: 1 }),
        Payload::ReadRequest(ReadRequest {
            key: b"key".to_vec(),
        }),
        Payload::ReadResponse(ReadResponse {
            key: b"key".to_vec(),
            value: vec![],
            error: 1,
        }),
        Payload::GetClientShardInfoRequest(GetClientShardInfoRequest {}),
        Payload::GetClientShardInfoResponse(GetClientShardInfoResponse {
            num_write_shards: 2,
            write_shard_info: vec![(1, 8080), (u128::MAX, u16::MAX)],
            read_shard_info: vec![(3, 8082), (4, 0)],
        }),
        Payload::QueryVersionRequest(QueryVersionRequest {}),
        Payload::QueryVersionResponse(QueryVersionResponse { version: u64::MAX }),
        Payload::GetVersionRequest(GetVersionRequest { version: 77 }),
        Payload::GetVersionResponse(GetVersionResponse {
            version: 77,
            key: b"k".to_vec(),
            value: b"v".to_vec(),
            error: 0,
        }),
        Payload::AnnounceShardRequest(AnnounceShardRequest {
            shard_type: ShardType::ReadShard,
            shard_id: 0x0102030405060708090a0b0c0d0e0f10,
            ip: 1,
            port: 8080,
        }),
        Payload::AnnounceShardResponse(AnnounceShardResponse { writer_number: 513 }),
        Payload::GetSharedPeersRequest(GetSharedPeersRequest { writer_number: 3 }),
        Payload::GetSharedPeersResponse(GetSharedPeersResponse {
            peer_ips: vec![(1, 8080), (1, 8081), (2, 1)],
        }),
    ]
}

#[test]
fn integers_are_little_endian() {
    let mut out = vec![0xaa];
    put_u16(&mut out, 0x1f90);
    assert_eq!(out, vec![0xaa, 0x90, 0x1f]);
    let mut out = Vec::new();
    put_u128(&mut out, 1);
    assert_eq!(out, 1u128.to_le_bytes().to_vec());
    let mut out = Vec::new();
    put_le(&mut out, 0x0102030405, 3);
    assert_eq!(out, vec![0x05, 0x04, 0x03]);
    let bytes: Vec<u8> = (1..=20).collect();
    assert_eq!(get_u16(&bytes, 0), 0x0201);
    assert_eq!(get_u32(&bytes, 1), 0x05040302);
    assert_eq!(get_u64(&bytes, 2), 0x0a09080706050403);
    assert_eq!(
        get_u128(&bytes, 4),
        u128::from_le_bytes(bytes[4..20].try_into().unwrap())
    );
    assert_eq!(get_le(&bytes, 0, 0), 0);
    assert_eq!(get_le(&bytes, 19, 1), 20);
}

#[test]
fn every_kind_goes_through_its_frame_and_back() {
    for message in samples() {
        let frame = message.serialize().unwrap();
        assert_eq!(bytes_as_message(&frame), Ok(message.clone()));
        // what follows a frame is not the frame's business
        let mut longer = frame.clone();
        longer.extend_from_slice(&[9, 9, 9]);
        assert_eq!(bytes_as_message(&longer), Ok(message));
    }
}

#[test]
fn the_first_four_bytes_are_the_length() {
    for message in samples() {
        let frame = message.serialize().unwrap();
        assert!(frame.len() >= HEADER_LEN);
        assert_eq!(frame[0..4], (frame.len() as u32).to_le_bytes());
        assert_eq!(
            MessageType::from_u8(frame[4]),
            Some(message.get_message_type())
        );
        assert_eq!(frame[5], if message.is_request() { 1 } else { 0 });
        assert_eq!(frame[6..], message.payload_bytes().unwrap());
    }
}

#[test]
fn the_kinds_have_their_bytes() {
    let kinds = [
        (0, MessageType::Write),
        (1, MessageType::Read),
        (2, MessageType::GetClientShardInfo),
        (3, MessageType::QueryVersion),
        (4, MessageType::GetVersion),
        (5, MessageType::AnnounceShard),
        (6, MessageType::GetSharedPeers),
    ];
    for (byte, kind) in kinds {
        assert_eq!(kind.as_u8(), byte);
        assert_eq!(MessageType::from_u8(byte), Some(kind));
    }
    for byte in 7..=255 {
        assert_eq!(MessageType::from_u8(byte), None);
    }
    assert_eq!(ShardType::ReadShard.as_u8(), 0);
    assert_eq!(ShardType::WriteShard.as_u8(), 1);
    assert_eq!(ShardType::from_u8(1), Some(ShardType::WriteShard));
    assert_eq!(ShardType::from_u8(2), None);
    assert_eq!(WriteResponseError::NoError.as_u8(), 0);
    assert_eq!(WriteResponseError::Error.as_u8(), 1);
    assert_eq!(ReadResponseError::NoError.as_u8(), 0);
    assert_eq!(ReadResponseError::KeyNotFound.as_u8(), 1);
    assert_eq!(GetVersionResponseError::NoError.as_u8(), 0);
    assert_eq!(GetVersionResponseError::KeyNotFound.as_u8(), 1);
}

#[test]
fn a_write_request_with_an_empty_value() {
    let request = WriteRequest {
        key: b"k".to_vec(),
        value: vec![],
    };
    let payload = request.serialize().unwrap();
    assert_eq!(payload, vec![1, 0, b'k', 0, 0]);
    let message = Message {
        is_request: true,
        message_type: MessageType::Write,
        message_payload: request,
    };
    let frame = message.serialize().unwrap();
    assert_eq!(frame, vec![11, 0, 0, 0, 0, 1, 1, 0, b'k', 0, 0]);
    let back = Message::<WriteRequest>::deserialize(&frame).unwrap();
    assert_eq!(back.message_payload.key, b"k".to_vec());
    assert_eq!(back.message_payload.value.len(), 0);
    assert!(back.is_request);
}

#[test]
fn the_payloads_have_their_layout() {
    let announce = AnnounceShardRequest {
        shard_type: ShardType::WriteShard,
        shard_id: 2,
        ip: 3,
        port: 0x0405,
    };
    let mut expected = vec![1];
    expected.extend_from_slice(&2u128.to_le_bytes());
    expected.extend_from_slice(&3u128.to_le_bytes());
    expected.extend_from_slice(&[0x05, 0x04]);
    assert_eq!(announce.serialize().unwrap(), expected);

    let view = GetClientShardInfoResponse {
        num_write_shards: 1,
        write_shard_info: vec![(7, 8)],
        read_shard_info: vec![(9, 10)],
    };
    let mut expected = vec![1, 0];
    expected.extend_from_slice(&7u128.to_le_bytes());
    expected.extend_from_slice(&[8, 0]);
    expected.extend_from_slice(&9u128.to_le_bytes());
    expected.extend_from_slice(&[10, 0]);
    assert_eq!(view.serialize().unwrap(), expected);

    let version = GetVersionResponse {
        version: 0x0102,
        key: b"ab".to_vec(),
        value: b"c".to_vec(),
        error: 1,
    };
    assert_eq!(
        version.serialize().unwrap(),
        vec![1, 2, 1, 0, 0, 0, 0, 0, 0, 2, 0, b'a', b'b', 1, 0, b'c']
    );
    let read = ReadResponse {
        key: b"ab".to_vec(),
        value: vec![],
        error: 1,
    };
    assert_eq!(read.serialize().unwrap(), vec![1, 2, 0, b'a', b'b', 0, 0]);
    assert_eq!(
        QueryVersionResponse { version: 1 }.serialize().unwrap(),
        vec![1, 0, 0, 0, 0, 0, 0, 0]
    );
    assert_eq!(WriteResponse { error: 1 }.serialize().unwrap(), vec![1]);
    assert_eq!(
        QueryVersionRequest {}.serialize().unwrap(),
        Vec::<u8>::new()
    );
    assert_eq!(
        GetSharedPeersResponse { peer_ips: vec![] }
            .serialize()
            .unwrap(),
        Vec::<u8>::new()
    );
}

#[test]
fn directions_and_kinds_of_the_payloads() {
    assert!(WriteRequest {
        key: vec![],
        value: vec![]
    }
    .is_request());
    assert!(!WriteResponse { error: 0 }.is_request());
    assert!(GetClientShardInfoRequest {}.is_request());
    assert!(!AnnounceShardResponse { writer_number: 0 }.is_request());
    assert_eq!(
        GetVersionRequest { version: 0 }.get_message_type(),
        MessageType::GetVersion
    );
    assert_eq!(
        GetSharedPeersResponse { peer_ips: vec![] }.get_message_type(),
        MessageType::GetSharedPeers
    );
    let mut requests = 0;
    for message in samples() {
        if message.is_request() {
            requests += 1;
        }
    }
    assert_eq!(requests, 7);
}

#[test]
fn a_message_says_what_its_header_says() {
    // nothing ties the header to the payload's own kind
    let message = Message {
        is_request: false,
        message_type: MessageType::GetSharedPeers,
        message_payload: QueryVersionResponse { version: 5 },
    };
    let frame = message.serialize().unwrap();
    let back = Message::<QueryVersionResponse>::deserialize(&frame).unwrap();
    assert_eq!(back.message_type, MessageType::GetSharedPeers);
    assert!(!back.is_request);
    assert_eq!(back.message_payload.version, 5);
    // a direction byte other than 1 is a response
    let mut odd = frame.clone();
    odd[5] = 2;
    assert!(!Message::<QueryVersionResponse>::deserialize(&odd)
        .unwrap()
        .is_request);
}

#[test]
fn frames_are_refused_in_the_order_of_their_bytes() {
    let frame = Payload::WriteResponse(WriteResponse { error: 0 })
        .serialize()
        .unwrap();
    assert_eq!(frame, vec![7, 0, 0, 0, 0, 0, 0]);
    assert_eq!(bytes_as_message(&[]), Err(CodecError::Truncated));
    assert_eq!(bytes_as_message(&frame[..3]), Err(CodecError::Truncated));
    assert_eq!(
        bytes_as_message(&[5, 0, 0, 0, 0, 0, 0]),
        Err(CodecError::FrameTooShort)
    );
    assert_eq!(
        bytes_as_message(&[0, 0, 0, 0]),
        Err(CodecError::FrameTooShort)
    );
    assert_eq!(bytes_as_message(&frame[..6]), Err(CodecError::Truncated));
    assert_eq!(
        bytes_as_message(&[7, 0, 0, 0, 7, 0, 0]),
        Err(CodecError::UnknownMessageType)
    );
    assert_eq!(
        bytes_as_message(&[7, 0, 0, 0, 255, 1, 0]),
        Err(CodecError::UnknownMessageType)
    );
    // the length is judged before the kind
    assert_eq!(
        bytes_as_message(&[8, 0, 0, 0, 9, 0, 0]),
        Err(CodecError::Truncated)
    );
    // a frame with no payload for a kind that needs one
    assert_eq!(
        bytes_as_message(&[6, 0, 0, 0, 0, 0]),
        Err(CodecError::Truncated)
    );
    assert_eq!(
        bytes_as_message(&[6, 0, 0, 0, 3, 1]),
        Ok(Payload::QueryVersionRequest(QueryVersionRequest {}))
    );
}

#[test]
fn a_payload_above_the_maximum_is_refused() {
    assert_eq!(DEFAULT_MAX_PAYLOAD, 4096);
    let fits = Payload::WriteRequest(WriteRequest {
        key: vec![b'k'; 4092],
        value: vec![],
    });
    let frame = fits.serialize().unwrap();
    assert_eq!(frame.len(), 4096 + 6);
    assert_eq!(bytes_as_message(&frame), Ok(fits.clone()));
    assert_eq!(
        bytes_as_message_with_limit(&frame, 4095),
        Err(CodecError::PayloadTooLong)
    );
    let too_long = Payload::WriteRequest(WriteRequest {
        key: vec![b'k'; 4093],
        value: vec![],
    });
    let frame = too_long.serialize().unwrap();
    assert_eq!(bytes_as_message(&frame), Err(CodecError::PayloadTooLong));
    assert_eq!(bytes_as_message_with_limit(&frame, 4097), Ok(too_long));
    assert_eq!(
        Message::<WriteRequest>::deserialize(&frame).err(),
        Some(CodecError::PayloadTooLong)
    );
    assert!(Message::<WriteRequest>::deserialize_with_limit(&frame, 5000).is_ok());
    // the announced length alone decides
    assert_eq!(
        bytes_as_message(&[0xff, 0xff, 0xff, 0xff]),
        Err(CodecError::PayloadTooLong)
    );
    assert_eq!(
        split_frame(&[6, 0, 0, 0, 1, 1], 0),
        Ok((MessageType::Read, true, &[][..]))
    );
    assert_eq!(
        encode_frame(MessageType::Read, true, &[1, 2]),
        Ok(vec![8, 0, 0, 0, 1, 1, 1, 2])
    );
}

#[test]
fn fields_longer_than_their_length_can_say_are_refused() {
    let long = vec![0u8; 65536];
    let longest = vec![0u8; 65535];
    assert_eq!(
        WriteRequest {
            key: long.clone(),
            value: vec![]
        }
        .serialize(),
        Err(CodecError::FieldTooLong)
    );
    assert_eq!(
        WriteRequest {
            key: vec![],
            value: long.clone()
        }
        .serialize(),
        Err(CodecError::FieldTooLong)
    );
    assert_eq!(
        ReadRequest { key: long.clone() }.serialize(),
        Err(CodecError::FieldTooLong)
    );
    assert_eq!(
        ReadResponse {
            key: long.clone(),
            value: vec![],
            error: 0
        }
        .serialize(),
        Err(CodecError::FieldTooLong)
    );
    assert_eq!(
        GetVersionResponse {
            version: 1,
            key: vec![],
            value: long,
            error: 0
        }
        .serialize(),
        Err(CodecError::FieldTooLong)
    );
    let request = ReadRequest {
        key: longest.clone(),
    };
    let payload = request.serialize().unwrap();
    assert_eq!(payload.len(), 65537);
    assert_eq!(ReadRequest::deserialize(&payload), Ok(request));
}

#[test]
fn a_view_whose_lists_disagree_with_its_count_is_refused() {
    let short = GetClientShardInfoResponse {
        num_write_shards: 2,
        write_shard_info: vec![(1, 1)],
        read_shard_info: vec![(2, 2), (3, 3)],
    };
    assert_eq!(short.serialize(), Err(CodecError::CountMismatch));
    let none = GetClientShardInfoResponse {
        num_write_shards: 1,
        write_shard_info: vec![],
        read_shard_info: vec![],
    };
    assert_eq!(none.serialize(), Err(CodecError::CountMismatch));
    // on the wire the count decides how many entries are read
    let mut payload = vec![2, 0];
    payload.extend_from_slice(&[0; 36]);
    assert_eq!(
        GetClientShardInfoResponse::deserialize(&payload),
        Err(CodecError::Truncated)
    );
    payload.extend_from_slice(&[0; 36]);
    let view = GetClientShardInfoResponse::deserialize(&payload).unwrap();
    assert_eq!(view.write_shard_info.len(), 2);
    assert_eq!(view.read_shard_info.len(), 2);
    assert_eq!(
        GetClientShardInfoResponse::deserialize(&[0]),
        Err(CodecError::Truncated)
    );
    let empty = GetClientShardInfoResponse::deserialize(&[0, 0]).unwrap();
    assert_eq!(empty.num_write_shards, 0);
    assert!(empty.write_shard_info.is_empty() && empty.read_shard_info.is_empty());
}

#[test]
fn truncated_payloads_are_refused() {
    assert_eq!(WriteRequest::deserialize(&[]), Err(CodecError::Truncated));
    assert_eq!(
        WriteRequest::deserialize(&[3, 0, b'k', b'e']),
        Err(CodecError::Truncated)
    );
    assert_eq!(
        WriteRequest::deserialize(&[1, 0, b'k', 2, 0, b'v']),
        Err(CodecError::Truncated)
    );
    assert_eq!(
        WriteRequest::deserialize(&[1, 0, b'k', 0]),
        Err(CodecError::Truncated)
    );
    assert_eq!(ReadRequest::deserialize(&[1]), Err(CodecError::Truncated));
    assert_eq!(
        ReadRequest::deserialize(&[2, 0, b'k']),
        Err(CodecError::Truncated)
    );
    assert_eq!(ReadResponse::deserialize(&[]), Err(CodecError::Truncated));
    assert_eq!(
        ReadResponse::deserialize(&[0, 1, 0, b'k']),
        Err(CodecError::Truncated)
    );
    assert_eq!(WriteResponse::deserialize(&[]), Err(CodecError::Truncated));
    assert_eq!(
        GetVersionRequest::deserialize(&[0; 7]),
        Err(CodecError::Truncated)
    );
    assert_eq!(
        GetVersionResponse::deserialize(&[0; 8]),
        Err(CodecError::Truncated)
    );
    assert_eq!(
        GetVersionResponse::deserialize(&[0, 1, 0, 0, 0, 0, 0, 0, 0, 1, 0]),
        Err(CodecError::Truncated)
    );
    assert_eq!(
        QueryVersionResponse::deserialize(&[0; 7]),
        Err(CodecError::Truncated)
    );
    assert_eq!(
        AnnounceShardResponse::deserialize(&[0]),
        Err(CodecError::Truncated)
    );
    assert_eq!(
        GetSharedPeersRequest::deserialize(&[]),
        Err(CodecError::Truncated)
    );
    assert_eq!(
        GetSharedPeersResponse::deserialize(&[0; 17]),
        Err(CodecError::Truncated)
    );
    assert_eq!(
        GetSharedPeersResponse::deserialize(&[0; 19]),
        Err(CodecError::Truncated)
    );
    assert_eq!(
        AnnounceShardRequest::deserialize(&[]),
        Err(CodecError::Truncated)
    );
    assert_eq!(
        AnnounceShardRequest::deserialize(&[1; 34]),
        Err(CodecError::Truncated)
    );
}

#[test]
fn fixed_payloads_take_no_more_than_their_size() {
    assert_eq!(
        QueryVersionResponse::deserialize(&[0; 9]),
        Err(CodecError::TrailingBytes)
    );
    assert_eq!(
        AnnounceShardResponse::deserialize(&[0; 3]),
        Err(CodecError::TrailingBytes)
    );
    assert_eq!(
        GetSharedPeersRequest::deserialize(&[0; 3]),
        Err(CodecError::TrailingBytes)
    );
    // the others read what they need and leave the rest
    assert_eq!(
        GetVersionRequest::deserialize(&[2, 0, 0, 0, 0, 0, 0, 0, 9]),
        Ok(GetVersionRequest { version: 2 })
    );
    assert_eq!(
        WriteResponse::deserialize(&[1, 9]),
        Ok(WriteResponse { error: 1 })
    );
    assert_eq!(
        ReadRequest::deserialize(&[1, 0, b'k', 9, 9]),
        Ok(ReadRequest {
            key: b"k".to_vec()
        })
    );
    assert_eq!(
        QueryVersionRequest::deserialize(&[1, 2, 3]),
        Ok(QueryVersionRequest {})
    );
    assert_eq!(
        GetClientShardInfoRequest::deserialize(&[1, 2, 3]),
        Ok(GetClientShardInfoRequest {})
    );
}

#[test]
fn an_announce_with_an_unknown_role_is_refused() {
    let mut payload = AnnounceShardRequest {
        shard_type: ShardType::ReadShard,
        shard_id: 1,
        ip: 2,
        port: 3,
    }
    .serialize()
    .unwrap();
    assert_eq!(payload.len(), 35);
    payload[0] = 2;
    assert_eq!(
        AnnounceShardRequest::deserialize(&payload),
        Err(CodecError::UnknownShardType)
    );
    // the role is looked at before the length
    assert_eq!(
        AnnounceShardRequest::deserialize(&[7]),
        Err(CodecError::UnknownShardType)
    );
    assert_eq!(
        parse_payload(MessageType::AnnounceShard, true, &payload),
        Err(CodecError::UnknownShardType)
    );
    payload[0] = 1;
    assert_eq!(
        parse_payload(MessageType::AnnounceShard, true, &payload),
        Ok(Payload::AnnounceShardRequest(AnnounceShardRequest {
            shard_type: ShardType::WriteShard,
            shard_id: 1,
            ip: 2,
            port: 3,
        }))
    );
}

#[test]
fn the_direction_decides_the_format() {
    // the same bytes are a version request or a version response
    let bytes = GetVersionResponse {
        version: 3,
        key: vec![],
        value: vec![],
        error: 0,
    }
    .serialize()
    .unwrap();
    assert!(matches!(
        parse_payload(MessageType::GetVersion, false, &bytes),
        Ok(Payload::GetVersionResponse(_))
    ));
    assert!(matches!(
        parse_payload(MessageType::GetVersion, true, &bytes),
        Ok(Payload::GetVersionRequest(_))
    ));
}
