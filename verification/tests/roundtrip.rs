use rand::Rng;
use rust_edis::messages::message::{Message, MessagePayload, MessageType};
use rust_edis::messages::requests::announce_shard_request::{AnnounceShardRequest, ShardType};
use rust_edis::messages::requests::get_client_shard_info_request::GetClientShardInfoRequest;
use rust_edis::messages::requests::get_shared_peers_request::GetSharedPeersRequest;
use rust_edis::messages::requests::read_request::ReadRequest;
use rust_edis::messages::requests::write_request::WriteRequest;
use rust_edis::messages::responses::announce_shard_response::AnnounceShardResponse;
use rust_edis::messages::responses::get_client_shard_info_response::GetClientShardInfoResponse;
use rust_edis::messages::responses::get_shared_peers_response::GetSharedPeersResponse;
use rust_edis::messages::responses::get_version_response::{
    GetVersionResponse, GetVersionResponseError,
};
use rust_edis::messages::responses::query_version_response::QueryVersionResponse;

#[test]
fn test_basic_roundtrip() {
    let message = Message {
        is_request: true,
        message_type: MessageType::Write,
        message_payload: WriteRequest {
            key: b"test".to_vec(),
            value: b"test".to_vec(),
        },
    };
    let serialized = message.serialize().unwrap();
    let received = Message::<WriteRequest>::deserialize(&serialized).unwrap();
    assert_eq!(message.message_type, received.message_type);
    assert_eq!(
        message.message_payload.key,
        received.message_payload.key
    );
    assert_eq!(
        message.message_payload.value,
        received.message_payload.value
    );
    assert_eq!(message.is_request, received.is_request);
}

#[test]
fn write_request_test_roundtrip_basic() {
    let sent = WriteRequest {
        key: b"key".to_vec(),
        value: b"value".to_vec(),
    };
    let serialized = sent.serialize().unwrap();
    let received = WriteRequest::deserialize(&serialized).unwrap();
    assert_eq!(sent.key, received.key);
    assert_eq!(sent.value, received.value);
}

#[test]
fn write_request_test_roundtrip_random() {
    for _ in 0..1000 {
        let mut rng = rand::thread_rng();
        let key_len = rng.gen_range(0..1001);
        let key: Vec<u8> = (0..key_len).map(|_| rng.gen()).collect();

        let value_len = rng.gen_range(0..1001);
        let value: Vec<u8> = (0..value_len).map(|_| rng.gen()).collect();

        let sent = WriteRequest { key, value };
        let serialized = sent.serialize().unwrap();
        let received = WriteRequest::deserialize(&serialized).unwrap();

        assert_eq!(sent.key, received.key);
        assert_eq!(sent.value, received.value);
    }
}

#[test]
fn read_request_test_roundtrip_basic() {
    let sent = ReadRequest {
        key: b"key".to_vec(),
    };
    let serialized = sent.serialize().unwrap();
    let received = ReadRequest::deserialize(&serialized).unwrap();
    assert_eq!(sent.key, received.key);
}

#[test]
fn read_request_test_roundtrip_random() {
    for _ in 0..1000 {
        let mut rng = rand::thread_rng();
        let key_len = rng.gen_range(0..1001);
        let key: Vec<u8> = (0..key_len).map(|_| rng.gen()).collect();

        let sent = ReadRequest { key };
        let serialized = sent.serialize().unwrap();
        let received = ReadRequest::deserialize(&serialized).unwrap();

        assert_eq!(sent.key, received.key);
    }
}

#[test]
fn query_version_response_test_roundtrip_basic() {
    let response = QueryVersionResponse { version: 100 };
    let serialized = response.serialize().unwrap();
    let received = QueryVersionResponse::deserialize(&serialized).unwrap();
    assert_eq!(response.version, received.version);
}

#[test]
fn query_version_response_test_roundtrip_random() {
    for _ in 0..10000 {
        let mut rng = rand::thread_rng();
        let version = rng.gen_range(0..u64::MAX);
        let response = QueryVersionResponse { version };
        let serialized = response.serialize().unwrap();
        let received = QueryVersionResponse::deserialize(&serialized).unwrap();
        assert_eq!(response.version, received.version);
    }
}

#[test]
fn announce_shard_request_test_roundtrip_basic() {
    let sent = AnnounceShardRequest {
        shard_type: ShardType::WriteShard,
        shard_id: 0,
        ip: 1,
        port: 8080,
    };
    let serialized = sent.serialize().unwrap();
    let received = AnnounceShardRequest::deserialize(&serialized).unwrap();
    assert_eq!(sent.shard_type, received.shard_type);
    assert_eq!(sent.ip, received.ip);
    assert_eq!(sent.port, received.port);
}

#[test]
fn announce_shard_request_test_roundtrip_random() {
    for _ in 0..1000 {
        let mut rng = rand::thread_rng();
        let ip: u128 = rng.gen();
        let port: u16 = rng.gen();
        let sent = AnnounceShardRequest {
            shard_type: ShardType::WriteShard,
            shard_id: rng.gen(),
            ip,
            port,
        };
        let serialized = sent.serialize().unwrap();
        let received = AnnounceShardRequest::deserialize(&serialized).unwrap();
        assert_eq!(sent.shard_type, received.shard_type);
        assert_eq!(sent.ip, received.ip);
        assert_eq!(sent.port, received.port);
        assert_eq!(sent.shard_id, received.shard_id);
    }
}

#[test]
fn test_roundtrip() {
    let sent = GetClientShardInfoRequest {};
    let serialized = sent.serialize().unwrap();
    let _deserialized = GetClientShardInfoRequest::deserialize(&serialized).unwrap();
}

#[test]
fn get_shared_peers_request_test_roundtrip_basic() {
    let response = GetSharedPeersRequest { writer_number: 100 };
    let serialized = response.serialize().unwrap();
    let received = GetSharedPeersRequest::deserialize(&serialized).unwrap();
    assert_eq!(response.writer_number, received.writer_number);
}

#[test]
fn get_shared_peers_request_test_roundtrip_random() {
    for _ in 0..1000 {
        let mut rng = rand::thread_rng();
        let writer_number = rng.gen_range(0..u16::MAX);
        let response = GetSharedPeersRequest { writer_number };
        let serialized = response.serialize().unwrap();
        let received = GetSharedPeersRequest::deserialize(&serialized).unwrap();
        assert_eq!(response.writer_number, received.writer_number);
    }
}

#[test]
fn announce_shard_response_test_roundtrip_basic() {
    let response = AnnounceShardResponse { writer_number: 100 };
    let serialized = response.serialize().unwrap();
    let received = AnnounceShardResponse::deserialize(&serialized).unwrap();
    assert_eq!(response.writer_number, received.writer_number);
}

#[test]
fn announce_shard_response_test_roundtrip_random() {
    for _ in 0..1000 {
        let mut rng = rand::thread_rng();
        let writer_number = rng.gen_range(0..u16::MAX);
        let response = AnnounceShardResponse { writer_number };
        let serialized = response.serialize().unwrap();
        let received = AnnounceShardResponse::deserialize(&serialized).unwrap();
        assert_eq!(response.writer_number, received.writer_number);
    }
}

#[test]
fn get_client_shard_info_response_test_roundtrip_basic() {
    let sent = GetClientShardInfoResponse {
        num_write_shards: 2,
        write_shard_info: vec![(12121, 8080), (321093201, 8081)],
        read_shard_info: vec![(321098, 9080), (909032190, 9081)],
    };
    let serialized = sent.serialize().unwrap();
    let received = GetClientShardInfoResponse::deserialize(&serialized).unwrap();
    assert_eq!(sent.num_write_shards, received.num_write_shards);
    assert_eq!(sent.write_shard_info, received.write_shard_info);
    assert_eq!(sent.read_shard_info, received.read_shard_info);
}

#[test]
fn get_client_shard_info_response_test_roundtrip_random() {
    for _ in 0..1000 {
        let mut rng = rand::thread_rng();
        let num_shards = rng.gen_range(1..11);

        let mut write_shard_info = Vec::new();
        let mut read_shard_info = Vec::new();

        for _ in 0..num_shards {
            let write_ip: u128 = rng.gen();
            let write_port = rng.gen();
            write_shard_info.push((write_ip, write_port));

            let read_ip: u128 = rng.gen();
            let read_port = rng.gen();
            read_shard_info.push((read_ip, read_port));
        }

        let sent = GetClientShardInfoResponse {
            num_write_shards: num_shards as u16,
            write_shard_info,
            read_shard_info,
        };
        let serialized = sent.serialize().unwrap();
        let received = GetClientShardInfoResponse::deserialize(&serialized).unwrap();

        assert_eq!(sent.num_write_shards, received.num_write_shards);
        assert_eq!(sent.write_shard_info, received.write_shard_info);
        assert_eq!(sent.read_shard_info, received.read_shard_info);
    }
}

#[test]
fn get_shared_peers_response_test_roundtrip_basic() {
    let sent = GetSharedPeersResponse {
        peer_ips: vec![(1, 8080), (1, 8081)],
    };
    let serialized = sent.serialize().unwrap();
    let received = GetSharedPeersResponse::deserialize(&serialized).unwrap();
    assert_eq!(sent.peer_ips, received.peer_ips);
    assert_eq!(sent.peer_ips, vec![(1, 8080,), (1, 8081,),])
}

#[test]
fn get_shared_peers_response_test_roundtrip_random() {
    for _ in 0..1000 {
        let mut rng = rand::thread_rng();
        let ip: u128 = rng.gen();
        let port: u16 = rng.gen();
        let sent = GetSharedPeersResponse {
            peer_ips: vec![(ip, port)],
        };
        let serialized = sent.serialize().unwrap();
        let received = GetSharedPeersResponse::deserialize(&serialized).unwrap();
        assert_eq!(sent.peer_ips, received.peer_ips);
    }
}

#[test]
fn get_version_response_test_roundtrip_basic() {
    let sent = GetVersionResponse {
        error: GetVersionResponseError::NoError as u8,
        version: 1,
        key: b"key".to_vec(),
        value: b"value".to_vec(),
    };
    let serialized = sent.serialize().unwrap();
    let received = GetVersionResponse::deserialize(&serialized).unwrap();
    assert_eq!(sent.version, received.version);
    assert_eq!(sent.key, received.key);
    assert_eq!(sent.value, received.value);
}

#[test]
fn get_version_response_test_roundtrip_random() {
    for _ in 0..1000 {
        let mut rng = rand::thread_rng();
        let key_len = rng.gen_range(0..1001);
        let key: Vec<u8> = (0..key_len).map(|_| rng.gen()).collect();

        let value_len = rng.gen_range(0..1001);
        let value: Vec<u8> = (0..value_len).map(|_| rng.gen()).collect();

        let sent = GetVersionResponse {
            error: GetVersionResponseError::NoError as u8,
            version: rng.gen(),
            key,
            value,
        };
        let serialized = sent.serialize().unwrap();
        let received = GetVersionResponse::deserialize(&serialized).unwrap();

        assert_eq!(sent.error, received.error);
        assert_eq!(sent.version, received.version);
        assert_eq!(sent.key, received.key);
        assert_eq!(sent.value, received.value);
    }
}
