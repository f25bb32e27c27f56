use rust_edis::client::{
    hash_key_to_shard, interpret, Client, ClientNotice, ClientState, Command,
};
use rust_edis::info::InfoRouter;
use rust_edis::io::read::{FrameReader, ReadStep};
use rust_edis::io::router::{
    dispatch, handle_frame, reply_frame, request_frame, response_frame, HandlerError,
    RouterError, RouterHandler,
};
use rust_edis::messages::message::{CodecError, DEFAULT_MAX_PAYLOAD};
use rust_edis::messages::payload::{bytes_as_message, Payload};
use rust_edis::messages::requests::get_client_shard_info_request::GetClientShardInfoRequest;
use rust_edis::messages::requests::get_shared_peers_request::GetSharedPeersRequest;
use rust_edis::messages::requests::query_version_request::QueryVersionRequest;
use rust_edis::messages::requests::read_request::ReadRequest;
use rust_edis::messages::requests::write_request::WriteRequest;
use rust_edis::messages::responses::announce_shard_response::AnnounceShardResponse;
use rust_edis::messages::responses::get_client_shard_info_response::GetClientShardInfoResponse;
use rust_edis::messages::responses::get_shared_peers_response::GetSharedPeersResponse;
use rust_edis::messages::responses::query_version_response::QueryVersionResponse;
use rust_edis::messages::responses::read_response::ReadResponse;
use rust_edis::messages::responses::write_response::WriteResponse;
use rust_edis::read_shard::ReadShard;
use rust_edis::utils::test_client::TestRouterClientHandler;
use rust_edis::write_shard::WriteShard;

/// Sends a request to a node and hands what comes back to the sender, as two
/// routers do over a connection.
fn exchange<S: RouterHandler, R: RouterHandler>(
    sender: &mut S,
    frame: Vec<u8>,
    receiver: &mut R,
) -> Result<(), RouterError> {
    let reply = handle_frame(receiver, &frame, DEFAULT_MAX_PAYLOAD)?;
    let reply = reply.expect("a request is answered");
    let nothing = handle_frame(sender, &reply, DEFAULT_MAX_PAYLOAD)?;
    assert_eq!(nothing, None);
    Ok(())
}

/// A handler that answers every read with the same response and keeps the
/// values of the read responses it is handed.
struct Echo {
    seen: Vec<Vec<u8>>,
}

impl RouterHandler for Echo {
    fn handle_read_request(&mut self, _req: &ReadRequest) -> Result<ReadResponse, HandlerError> {
        Ok(ReadResponse {
            value: vec![1, 2, 3, 4],
            key: b"testkey".to_vec(),
            error: 0,
        })
    }

    fn handle_read_response(&mut self, res: &ReadResponse) -> Result<(), HandlerError> {
        self.seen.push(res.value.clone());
        Ok(())
    }

    fn handle_announce_shard_request(
        &mut self,
        _req: &rust_edis::messages::requests::announce_shard_request::AnnounceShardRequest,
    ) -> Result<AnnounceShardResponse, HandlerError> {
        Err(HandlerError::NotImplemented)
    }

    fn handle_get_client_shard_info_request(
        &mut self,
        _req: &GetClientShardInfoRequest,
    ) -> Result<GetClientShardInfoResponse, HandlerError> {
        Err(HandlerError::NotImplemented)
    }

    fn handle_query_version_request(
        &mut self,
        _req: &QueryVersionRequest,
    ) -> Result<QueryVersionResponse, HandlerError> {
        Err(HandlerError::NotImplemented)
    }

    fn handle_write_request(&mut self, _req: &WriteRequest) -> Result<WriteResponse, HandlerError> {
        Err(HandlerError::NotImplemented)
    }

    fn handle_get_shared_peers_request(
        &mut self,
        _req: &GetSharedPeersRequest,
    ) -> Result<GetSharedPeersResponse, HandlerError> {
        Err(HandlerError::NotImplemented)
    }

    fn handle_get_version_request(
        &mut self,
        _req: &rust_edis::messages::requests::get_version_request::GetVersionRequest,
    ) -> Result<rust_edis::messages::responses::get_version_response::GetVersionResponse, HandlerError>
    {
        Err(HandlerError::NotImplemented)
    }

    fn handle_announce_shard_response(
        &mut self,
        _res: &AnnounceShardResponse,
    ) -> Result<(), HandlerError> {
        Err(HandlerError::NotImplemented)
    }

    fn handle_get_client_shard_info_response(
        &mut self,
        _res: &GetClientShardInfoResponse,
    ) -> Result<(), HandlerError> {
        Err(HandlerError::NotImplemented)
    }

    fn handle_query_version_response(
        &mut self,
        _res: &QueryVersionResponse,
    ) -> Result<(), HandlerError> {
        Err(HandlerError::NotImplemented)
    }

    fn handle_get_version_response(
        &mut self,
        _res: &rust_edis::messages::responses::get_version_response::GetVersionResponse,
    ) -> Result<(), HandlerError> {
        Err(HandlerError::NotImplemented)
    }

    fn handle_write_response(&mut self, _res: &WriteResponse) -> Result<(), HandlerError> {
        Err(HandlerError::NotImplemented)
    }

    fn handle_get_shared_peers_response(
        &mut self,
        _res: &GetSharedPeersResponse,
    ) -> Result<(), HandlerError> {
        Err(HandlerError::NotImplemented)
    }
}

#[test]
fn three_reads_bring_three_answers_in_order() {
    let mut asking = Echo { seen: vec![] };
    let mut answering = Echo { seen: vec![] };
    for _ in 0..3 {
        let frame = request_frame(&ReadRequest {
            key: "test".as_bytes().to_vec(),
        })
        .unwrap();
        exchange(&mut asking, frame, &mut answering).unwrap();
    }
    assert_eq!(
        asking.seen,
        vec![vec![1, 2, 3, 4], vec![1, 2, 3, 4], vec![1, 2, 3, 4]]
    );
    assert!(answering.seen.is_empty());
}

#[test]
fn a_request_is_answered_with_the_response_of_its_kind() {
    let mut writer = WriteShard::new();
    let frame = request_frame(&WriteRequest {
        key: b"foo".to_vec(),
        value: b"bar".to_vec(),
    })
    .unwrap();
    let reply = handle_frame(&mut writer, &frame, DEFAULT_MAX_PAYLOAD)
        .unwrap()
        .unwrap();
    assert_eq!(reply, vec![7, 0, 0, 0, 0, 0, 0]);
    assert_eq!(
        bytes_as_message(&reply),
        Ok(Payload::WriteResponse(WriteResponse { error: 0 }))
    );
    assert_eq!(
        reply,
        response_frame(&WriteResponse { error: 0 }).unwrap()
    );
    let frame = request_frame(&QueryVersionRequest {}).unwrap();
    assert_eq!(frame, vec![6, 0, 0, 0, 3, 1]);
    let reply = handle_frame(&mut writer, &frame, DEFAULT_MAX_PAYLOAD)
        .unwrap()
        .unwrap();
    assert_eq!(
        bytes_as_message(&reply),
        Ok(Payload::QueryVersionResponse(QueryVersionResponse {
            version: 1
        }))
    );
}

#[test]
fn a_response_is_answered_with_nothing() {
    let mut recorder = TestRouterClientHandler::new();
    let frame = response_frame(&QueryVersionResponse { version: 9 }).unwrap();
    assert_eq!(handle_frame(&mut recorder, &frame, 4096), Ok(None));
    let frame = response_frame(&AnnounceShardResponse { writer_number: 2 }).unwrap();
    assert_eq!(handle_frame(&mut recorder, &frame, 4096), Ok(None));
    assert_eq!(
        recorder.query_version_responses,
        vec![QueryVersionResponse { version: 9 }]
    );
    assert_eq!(
        recorder.announce_shard_responses,
        vec![AnnounceShardResponse { writer_number: 2 }]
    );
    // the same payload sent as a request goes to the request callback
    let mut writer = WriteShard::new();
    let frame = request_frame(&QueryVersionResponse { version: 9 }).unwrap();
    assert!(matches!(
        handle_frame(&mut writer, &frame, 4096),
        Ok(Some(_))
    ));
}

#[test]
fn an_error_closes_the_connection_and_says_why() {
    let mut info = InfoRouter::new(1);
    assert_eq!(
        handle_frame(&mut info, &[7, 0, 0, 0, 9, 1, 0], 4096),
        Err(RouterError::Codec(CodecError::UnknownMessageType))
    );
    assert_eq!(
        handle_frame(&mut info, &[1, 0, 0, 0], 4096),
        Err(RouterError::Codec(CodecError::FrameTooShort))
    );
    assert_eq!(
        handle_frame(&mut info, &[8, 0, 0, 0, 0, 1], 4096),
        Err(RouterError::Codec(CodecError::Truncated))
    );
    assert_eq!(
        handle_frame(&mut info, &[8, 0, 0, 0, 0, 1, 0, 0], 1),
        Err(RouterError::Codec(CodecError::PayloadTooLong))
    );
    let frame = request_frame(&WriteRequest {
        key: vec![],
        value: vec![],
    })
    .unwrap();
    assert_eq!(
        handle_frame(&mut info, &frame, 4096),
        Err(RouterError::Handler(HandlerError::NotImplemented))
    );
    let mut writer = WriteShard::new();
    let frame = request_frame(&WriteRequest {
        key: vec![0xff],
        value: vec![],
    })
    .unwrap();
    assert_eq!(
        handle_frame(&mut writer, &frame, 4096),
        Err(RouterError::Handler(HandlerError::InvalidUtf8))
    );
}

#[test]
fn what_goes_back_is_the_frame_of_the_reply() {
    assert_eq!(reply_frame(Ok(None)), Ok(None));
    assert_eq!(
        reply_frame(Err(HandlerError::WriterSlotsExhausted)),
        Err(RouterError::Handler(HandlerError::WriterSlotsExhausted))
    );
    let reply = Payload::AnnounceShardResponse(AnnounceShardResponse { writer_number: 258 });
    assert_eq!(
        reply_frame(Ok(Some(reply))),
        Ok(Some(vec![8, 0, 0, 0, 5, 0, 2, 1]))
    );
    // a reply that cannot be encoded closes the connection too
    let reply = Payload::ReadResponse(ReadResponse {
        key: vec![0; 70000],
        value: vec![],
        error: 0,
    });
    assert_eq!(
        reply_frame(Ok(Some(reply))),
        Err(RouterError::Codec(CodecError::FieldTooLong))
    );
    assert_eq!(
        request_frame(&ReadRequest {
            key: vec![0; 70000]
        }),
        Err(CodecError::FieldTooLong)
    );
}

#[test]
fn the_recorder_keeps_what_it_is_handed() {
    let mut recorder = TestRouterClientHandler::new();
    let read = ReadResponse {
        key: b"k".to_vec(),
        value: b"v".to_vec(),
        error: 0,
    };
    let view = GetClientShardInfoResponse {
        num_write_shards: 1,
        write_shard_info: vec![(1, 2)],
        read_shard_info: vec![(3, 4)],
    };
    let peers = GetSharedPeersResponse {
        peer_ips: vec![(5, 6)],
    };
    recorder.handle_read_response(&read).unwrap();
    recorder.handle_read_response(&read).unwrap();
    recorder
        .handle_get_client_shard_info_response(&view)
        .unwrap();
    recorder.handle_get_shared_peers_response(&peers).unwrap();
    recorder
        .handle_write_response(&WriteResponse { error: 1 })
        .unwrap();
    assert_eq!(recorder.read_responses, vec![read.clone(), read]);
    assert_eq!(recorder.get_client_shard_info_responses, vec![view]);
    assert_eq!(recorder.get_shared_peers_responses, vec![peers]);
    assert_eq!(recorder.write_responses, vec![WriteResponse { error: 1 }]);
    assert_eq!(
        dispatch(
            &mut recorder,
            &Payload::QueryVersionRequest(QueryVersionRequest {})
        ),
        Err(HandlerError::NotImplemented)
    );
}

#[test]
fn a_frame_is_whole_when_it_has_the_announced_length() {
    let frame = request_frame(&WriteRequest {
        key: b"foo".to_vec(),
        value: b"bar".to_vec(),
    })
    .unwrap();
    assert_eq!(frame.len(), 16);
    let mut reader = FrameReader::begin(16, DEFAULT_MAX_PAYLOAD).unwrap();
    assert_eq!(reader.missing(), 12);
    assert_eq!(reader.accept(&frame[4..9]), ReadStep::NeedMore);
    assert_eq!(reader.missing(), 7);
    assert_eq!(reader.accept(&[]), ReadStep::Closed);
    assert_eq!(reader.accept(&frame[9..]), ReadStep::Complete);
    assert_eq!(reader.missing(), 0);
    assert_eq!(reader.into_frame(), frame);

    let mut reader = FrameReader::begin(16, DEFAULT_MAX_PAYLOAD).unwrap();
    assert_eq!(reader.accept(&[0; 13]), ReadStep::Overrun);
    assert_eq!(reader.missing(), 12);
    assert_eq!(reader.accept(&frame[4..]), ReadStep::Complete);
    assert_eq!(reader.accept(&[0]), ReadStep::Overrun);
    assert_eq!(reader.into_frame(), frame);

    assert_eq!(
        FrameReader::begin(5, 4096).err(),
        Some(CodecError::FrameTooShort)
    );
    assert_eq!(
        FrameReader::begin(4103, 4096).err(),
        Some(CodecError::PayloadTooLong)
    );
    let reader = FrameReader::begin(4102, 4096).unwrap();
    assert_eq!(reader.missing(), 4098);
    let reader = FrameReader::begin(6, 0).unwrap();
    assert_eq!(reader.missing(), 2);
}

#[test]
fn a_key_goes_to_the_same_slot_each_time() {
    for key in ["foo", "bar", "", "a longer key with spaces", "clé"] {
        for shards in [1usize, 2, 3, 4, 7, 64] {
            let slot = hash_key_to_shard(key, shards);
            assert!(slot < shards);
            for _ in 0..3 {
                assert_eq!(hash_key_to_shard(key, shards), slot);
            }
        }
        assert_eq!(hash_key_to_shard(key, 1), 0);
    }
    // the keys spread over the slots
    let mut used = [false; 4];
    for i in 0..200 {
        used[hash_key_to_shard(&format!("key{}", i), 4)] = true;
    }
    assert_eq!(used, [true; 4]);
}

#[test]
fn set_and_get_of_a_key_go_to_one_slot() {
    let state = ClientState {
        num_write_shards: 3,
        write_shard_info: vec![(10, 1000), (11, 1001), (12, 1002)],
        read_shard_info: vec![(20, 2000), (21, 2001), (22, 2002)],
    };
    for i in 0..50 {
        let key = format!("key{}", i);
        let slot = state.slot_for(&key).unwrap();
        assert_eq!(slot, hash_key_to_shard(&key, 3));
        let (writer, set) = state.plan_set(&key, "v").unwrap();
        let (reader, get) = state.plan_get(&key).unwrap();
        assert_eq!(writer, state.write_shard_info[slot]);
        assert_eq!(reader, state.read_shard_info[slot]);
        assert_eq!(state.write_target(&key), Some(writer));
        assert_eq!(state.read_target(&key), Some(reader));
        assert_eq!(set.key, key.as_bytes().to_vec());
        assert_eq!(set.value, b"v".to_vec());
        assert_eq!(get.key, key.as_bytes().to_vec());
    }
}

#[test]
fn a_client_without_shards_sends_nothing() {
    let state = ClientState::default();
    assert_eq!(state.num_write_shards, 0);
    assert_eq!(state.slot_for("foo"), None);
    assert_eq!(state.plan_set("foo", "bar"), None);
    assert_eq!(state.plan_get("foo"), None);
    // a count without the lists to go with it
    let state = ClientState {
        num_write_shards: 2,
        write_shard_info: vec![],
        read_shard_info: vec![],
    };
    assert_eq!(state.plan_set("foo", "bar"), None);
    assert_eq!(state.plan_get("foo"), None);
}

#[test]
fn a_client_notes_what_its_answers_say() {
    let mut client = Client::new(ClientState::default());
    client
        .handle_write_response(&WriteResponse { error: 0 })
        .unwrap();
    client
        .handle_write_response(&WriteResponse { error: 3 })
        .unwrap();
    client
        .handle_read_response(&ReadResponse {
            key: b"k".to_vec(),
            value: b"v".to_vec(),
            error: 0,
        })
        .unwrap();
    client
        .handle_read_response(&ReadResponse {
            key: b"k".to_vec(),
            value: vec![],
            error: 1,
        })
        .unwrap();
    client
        .handle_read_response(&ReadResponse {
            key: b"k".to_vec(),
            value: vec![],
            error: 0,
        })
        .unwrap();
    assert_eq!(
        client.take_notices(),
        vec![
            ClientNotice::WriteSucceeded,
            ClientNotice::WriteFailed { code: 3 },
            ClientNotice::ReadSucceeded {
                key: b"k".to_vec(),
                value: b"v".to_vec()
            },
            ClientNotice::ReadFailed {
                key: b"k".to_vec()
            },
            ClientNotice::ReadEmpty,
            ClientNotice::ReadEmpty,
        ]
    );
    assert_eq!(client.take_notices(), vec![]);
    assert_eq!(
        client.handle_query_version_response(&QueryVersionResponse { version: 1 }),
        Err(HandlerError::NotImplemented)
    );
}

#[test]
fn a_client_takes_the_view_it_is_sent() {
    let mut client = Client::new(ClientState::default());
    client
        .handle_get_client_shard_info_response(&GetClientShardInfoResponse {
            num_write_shards: 2,
            write_shard_info: vec![(1, 10), (2, 20)],
            read_shard_info: vec![(3, 30), (4, 40)],
        })
        .unwrap();
    assert_eq!(client.shard_state().num_write_shards, 2);
    assert_eq!(client.shard_state().write_shard_info, vec![(1, 10), (2, 20)]);
    assert_eq!(client.shard_state().read_shard_info, vec![(3, 30), (4, 40)]);
    client
        .handle_get_shared_peers_response(&GetSharedPeersResponse {
            peer_ips: vec![(9, 90)],
        })
        .unwrap();
    assert_eq!(client.shard_state().write_shard_info, vec![(9, 90)]);
    assert_eq!(client.shard_state().read_shard_info, vec![(3, 30), (4, 40)]);
}

/// An info server with one slot, a writer, a reader and a client, all of
/// them talking in frames.
#[test]
fn a_value_that_was_set_is_got() {
    let mut info = InfoRouter::new(1);
    let mut writer = WriteShard::new();
    let mut reader = ReadShard::new();
    let mut client = Client::new(ClientState::default());
    let writer_at = (1u128, 4001u16);
    let reader_at = (1u128, 4002u16);

    // before anyone announced, the view is empty
    let ask = request_frame(&GetClientShardInfoRequest {}).unwrap();
    exchange(&mut client, ask.clone(), &mut info).unwrap();
    assert_eq!(client.shard_state().num_write_shards, 0);
    assert_eq!(client.shard_state().plan_set("foo", "bar"), None);

    let announce = request_frame(&WriteShard::announce_request(0xA, writer_at.0, writer_at.1));
    exchange(&mut writer, announce.unwrap(), &mut info).unwrap();
    let announce = request_frame(&ReadShard::announce_request(0xB, reader_at.0, reader_at.1));
    exchange(&mut reader, announce.unwrap(), &mut info).unwrap();
    assert_eq!(writer.writer_slot(), 0);
    assert_eq!(reader.writer_slot(), 0);
    let discover = request_frame(&reader.peers_request()).unwrap();
    exchange(&mut reader, discover, &mut info).unwrap();
    assert_eq!(reader.peers(), vec![writer_at, reader_at]);

    exchange(&mut client, ask, &mut info).unwrap();
    assert_eq!(client.shard_state().num_write_shards, 1);
    assert_eq!(client.shard_state().write_shard_info, vec![writer_at]);
    assert_eq!(client.shard_state().read_shard_info, vec![reader_at]);

    let (target, set) = client.shard_state().plan_set("foo", "bar").unwrap();
    assert_eq!(target, writer_at);
    exchange(&mut client, request_frame(&set).unwrap(), &mut writer).unwrap();
    assert_eq!(client.take_notices(), vec![ClientNotice::WriteSucceeded]);

    // the reader has not caught up yet: a miss
    let (target, get) = client.shard_state().plan_get("foo").unwrap();
    assert_eq!(target, reader_at);
    exchange(&mut client, request_frame(&get).unwrap(), &mut reader).unwrap();
    assert_eq!(
        client.take_notices(),
        vec![
            ClientNotice::ReadFailed {
                key: b"foo".to_vec()
            },
            ClientNotice::ReadEmpty
        ]
    );

    // two ticks of catch-up against the writer
    for _ in 0..2 {
        let plan = reader.plan_catch_up(Some(&writer_at)).unwrap();
        exchange(&mut reader, request_frame(&plan.query).unwrap(), &mut writer).unwrap();
        if let Some(fetch) = plan.fetch {
            exchange(&mut reader, request_frame(&fetch).unwrap(), &mut writer).unwrap();
        }
    }
    assert_eq!(reader.applied_version(), 1);
    exchange(&mut client, request_frame(&get).unwrap(), &mut reader).unwrap();
    assert_eq!(
        client.take_notices(),
        vec![ClientNotice::ReadSucceeded {
            key: b"foo".to_vec(),
            value: b"bar".to_vec()
        }]
    );
}

#[test]
fn a_line_of_the_prompt_is_a_command() {
    assert_eq!(
        interpret("set", Some("foo"), Some("bar baz")),
        Command::SetKey {
            key: "foo".to_string(),
            value: "bar baz".to_string()
        }
    );
    assert_eq!(
        interpret("set", Some(""), Some("")),
        Command::SetKey {
            key: String::new(),
            value: String::new()
        }
    );
    assert_eq!(interpret("set", Some("foo"), None), Command::SetUsage);
    assert_eq!(interpret("set", None, None), Command::SetUsage);
    assert_eq!(
        interpret("get", Some("foo"), None),
        Command::GetKey {
            key: "foo".to_string()
        }
    );
    assert_eq!(
        interpret("get", Some("foo"), Some("more")),
        Command::GetKey {
            key: "foo".to_string()
        }
    );
    assert_eq!(interpret("get", None, None), Command::GetUsage);
    assert_eq!(interpret("exit", None, None), Command::Exit);
    assert_eq!(interpret("exit", Some("now"), None), Command::Exit);
    assert_eq!(interpret("wait", None, None), Command::Wait);
    for word in ["", "sets", "se", "SET", "put", "exit ", "gët"] {
        assert_eq!(interpret(word, Some("k"), Some("v")), Command::Unknown);
    }
}
