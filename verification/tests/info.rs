use rust_edis::info::{InfoArgs, InfoRouter, ReaderWriterBlock, AnnounceInfo};
use rust_edis::io::router::{dispatch, HandlerError, RouterHandler};
use rust_edis::messages::payload::Payload;
use rust_edis::messages::requests::announce_shard_request::{
    AnnounceMessageType, AnnounceShardRequest, ShardType,
};
use rust_edis::messages::requests::get_client_shard_info_request::GetClientShardInfoRequest;
use rust_edis::messages::requests::get_shared_peers_request::GetSharedPeersRequest;
use rust_edis::messages::requests::query_version_request::QueryVersionRequest;
use rust_edis::messages::responses::read_response::ReadResponse;

fn writer(id: u128, ip: u128, port: u16) -> AnnounceShardRequest {
    AnnounceShardRequest {
        shard_type: ShardType::WriteShard,
        shard_id: id,
        ip,
        port,
    }
}

fn reader(id: u128, ip: u128, port: u16) -> AnnounceShardRequest {
    AnnounceShardRequest {
        shard_type: ShardType::ReadShard,
        shard_id: id,
        ip,
        port,
    }
}

fn slot(info: &mut InfoRouter, req: AnnounceShardRequest) -> u16 {
    info.handle_announce_shard_request(&req)
        .unwrap()
        .writer_number
}

fn peers(info: &mut InfoRouter, writer_number: u16) -> Vec<(u128, u16)> {
    info.handle_get_shared_peers_request(&GetSharedPeersRequest { writer_number })
        .unwrap()
        .peer_ips
}

/// Two writers and four readers on two slots.
fn assigned() -> InfoRouter {
    let mut info = InfoRouter::new(2);
    assert_eq!(slot(&mut info, writer(0xA, 10, 1000)), 0);
    assert_eq!(slot(&mut info, writer(0xB, 11, 1001)), 1);
    assert_eq!(slot(&mut info, reader(0x1, 21, 2001)), 0);
    assert_eq!(slot(&mut info, reader(0x2, 22, 2002)), 1);
    assert_eq!(slot(&mut info, reader(0x3, 23, 2003)), 0);
    assert_eq!(slot(&mut info, reader(0x4, 24, 2004)), 1);
    info
}

#[test]
fn writers_take_the_lowest_empty_slot() {
    let mut info = InfoRouter::new(3);
    assert_eq!(info.num_writers(), 3);
    assert_eq!(slot(&mut info, writer(0xA, 10, 1000)), 0);
    assert_eq!(slot(&mut info, writer(0xB, 11, 1001)), 1);
    assert_eq!(slot(&mut info, writer(0xC, 12, 1002)), 2);
}

#[test]
fn readers_join_the_slot_with_the_fewest_readers() {
    let mut info = assigned();
    assert_eq!(
        peers(&mut info, 0),
        vec![(10, 1000), (21, 2001), (23, 2003)]
    );
    assert_eq!(
        peers(&mut info, 1),
        vec![(11, 1001), (22, 2002), (24, 2004)]
    );
    // two each: the tie goes to the lowest slot
    assert_eq!(slot(&mut info, reader(0x5, 25, 2005)), 0);
    assert_eq!(slot(&mut info, reader(0x6, 26, 2006)), 1);
}

#[test]
fn readers_are_attached_before_any_writer_came() {
    let mut info = InfoRouter::new(2);
    assert_eq!(slot(&mut info, reader(0x1, 21, 2001)), 0);
    assert_eq!(slot(&mut info, reader(0x2, 22, 2002)), 1);
    assert_eq!(slot(&mut info, reader(0x3, 23, 2003)), 0);
    // a slot without a writer lists its readers alone
    assert_eq!(peers(&mut info, 0), vec![(21, 2001), (23, 2003)]);
    assert_eq!(slot(&mut info, writer(0xA, 10, 1000)), 0);
    assert_eq!(
        peers(&mut info, 0),
        vec![(10, 1000), (21, 2001), (23, 2003)]
    );
}

#[test]
fn a_writer_beyond_the_slots_is_refused() {
    let mut info = InfoRouter::new(1);
    assert_eq!(slot(&mut info, writer(0xA, 10, 1000)), 0);
    assert_eq!(
        info.handle_announce_shard_request(&writer(0xB, 11, 1001)),
        Err(HandlerError::WriterSlotsExhausted)
    );
    // nothing was overwritten
    assert_eq!(peers(&mut info, 0), vec![(10, 1000)]);
    assert_eq!(slot(&mut info, writer(0xA, 10, 1000)), 0);
}

#[test]
fn a_directory_without_slots_refuses_everyone() {
    let mut info = InfoRouter::new(0);
    assert_eq!(
        info.handle_announce_shard_request(&reader(0x1, 21, 2001)),
        Err(HandlerError::NoWriterSlots)
    );
    assert_eq!(
        info.handle_announce_shard_request(&writer(0xA, 10, 1000)),
        Err(HandlerError::WriterSlotsExhausted)
    );
    let view = info
        .handle_get_client_shard_info_request(&GetClientShardInfoRequest {})
        .unwrap();
    assert_eq!(view.num_write_shards, 0);
}

#[test]
fn a_reannounce_keeps_the_slot_and_takes_the_new_endpoint() {
    let mut info = assigned();
    assert_eq!(info.announce_kind(0xA), AnnounceMessageType::ReAnnounce);
    assert_eq!(info.announce_kind(0xFF), AnnounceMessageType::NewAnnounce);
    assert_eq!(slot(&mut info, writer(0xA, 10, 7777)), 0);
    assert_eq!(slot(&mut info, writer(0xB, 99, 1001)), 1);
    assert_eq!(slot(&mut info, reader(0x3, 23, 8888)), 0);
    assert_eq!(
        peers(&mut info, 0),
        vec![(10, 7777), (21, 2001), (23, 8888)]
    );
    assert_eq!(
        peers(&mut info, 1),
        vec![(99, 1001), (22, 2002), (24, 2004)]
    );
    let view = info
        .handle_get_client_shard_info_request(&GetClientShardInfoRequest {})
        .unwrap();
    assert_eq!(view.write_shard_info[0], (10, 7777));
    assert_eq!(view.write_shard_info[1], (99, 1001));
}

#[test]
fn a_known_id_keeps_its_slot_whatever_role_it_announces() {
    let mut info = assigned();
    // 0x2 is a reader of slot 1; as a writer it is still the shard of slot 1
    assert_eq!(slot(&mut info, writer(0x2, 55, 5555)), 1);
    assert_eq!(
        peers(&mut info, 1),
        vec![(11, 1001), (55, 5555), (24, 2004)]
    );
    for _ in 0..5 {
        assert_eq!(slot(&mut info, reader(0x9, 1, 1)), 0);
        assert_eq!(slot(&mut info, writer(0xA, 10, 1000)), 0);
    }
}

#[test]
fn peers_of_an_unknown_slot_are_none() {
    let mut info = assigned();
    assert_eq!(peers(&mut info, 2), vec![]);
    assert_eq!(peers(&mut info, u16::MAX), vec![]);
}

#[test]
fn the_view_names_every_writer_and_one_reader_of_each() {
    let mut info = assigned();
    for _ in 0..50 {
        let view = info
            .handle_get_client_shard_info_request(&GetClientShardInfoRequest {})
            .unwrap();
        assert_eq!(view.num_write_shards, 2);
        assert_eq!(view.write_shard_info, vec![(10, 1000), (11, 1001)]);
        assert_eq!(view.read_shard_info.len(), 2);
        assert!([(21, 2001), (23, 2003)].contains(&view.read_shard_info[0]));
        assert!([(22, 2002), (24, 2004)].contains(&view.read_shard_info[1]));
    }
}

#[test]
fn the_view_is_empty_while_a_slot_lacks_a_reader() {
    let mut info = InfoRouter::new(2);
    slot(&mut info, writer(0xA, 10, 1000));
    slot(&mut info, writer(0xB, 11, 1001));
    slot(&mut info, reader(0x1, 21, 2001));
    let view = info
        .handle_get_client_shard_info_request(&GetClientShardInfoRequest {})
        .unwrap();
    assert_eq!(view.num_write_shards, 0);
    assert!(view.write_shard_info.is_empty());
    assert!(view.read_shard_info.is_empty());
    slot(&mut info, reader(0x2, 22, 2002));
    let view = info
        .handle_get_client_shard_info_request(&GetClientShardInfoRequest {})
        .unwrap();
    assert_eq!(view.num_write_shards, 2);
    assert_eq!(view.read_shard_info, vec![(21, 2001), (22, 2002)]);
}

#[test]
fn the_view_is_empty_while_a_slot_lacks_a_writer() {
    let mut info = InfoRouter::new(2);
    slot(&mut info, writer(0xA, 10, 1000));
    slot(&mut info, reader(0x1, 21, 2001));
    slot(&mut info, reader(0x2, 22, 2002));
    let view = info
        .handle_get_client_shard_info_request(&GetClientShardInfoRequest {})
        .unwrap();
    assert_eq!(view.num_write_shards, 0);
    assert!(view.write_shard_info.is_empty());
    assert!(view.read_shard_info.is_empty());
}

#[test]
fn a_row_of_the_view_needs_a_writer_and_a_reader() {
    let w = AnnounceInfo {
        ip: 10,
        port: 1000,
        announce_id: 0xA,
    };
    let r1 = AnnounceInfo {
        ip: 21,
        port: 2001,
        announce_id: 0x1,
    };
    let r2 = AnnounceInfo {
        ip: 22,
        port: 2002,
        announce_id: 0x2,
    };
    let block = ReaderWriterBlock {
        writer: Some(w),
        readers: vec![r1, r2],
    };
    assert_eq!(block.view_row(Some(&r1)), Some(((10, 1000), (21, 2001))));
    assert_eq!(block.view_row(Some(&r2)), Some(((10, 1000), (22, 2002))));
    assert_eq!(block.view_row(None), None);
    let vacant = ReaderWriterBlock {
        writer: None,
        readers: vec![r1],
    };
    assert_eq!(vacant.view_row(Some(&r1)), None);
    assert_eq!(ReaderWriterBlock::new().peers(), vec![]);
    assert_eq!(block.find_reader(0x2), Some(1));
    assert_eq!(block.find_reader(0xA), None);
    assert!(block.holds(0xA));
    assert!(!block.holds(0xB));
}

#[test]
fn the_info_server_has_no_use_for_other_messages() {
    let mut info = assigned();
    assert_eq!(
        info.handle_query_version_request(&QueryVersionRequest {}),
        Err(HandlerError::NotImplemented)
    );
    let stray = Payload::ReadResponse(ReadResponse {
        key: vec![1],
        value: vec![2],
        error: 0,
    });
    assert_eq!(dispatch(&mut info, &stray), Err(HandlerError::NotImplemented));
}

#[test]
fn an_info_server_has_four_slots_by_default() {
    assert_eq!(InfoArgs::default().write_shards, 4);
    let mut info = InfoRouter::new(InfoArgs::default().write_shards);
    for i in 0..4 {
        assert_eq!(slot(&mut info, writer(100 + i as u128, i as u128, i)), i);
    }
}

/// Announces through the dispatcher, as a router does, and looks at what
/// comes back: the peers of each slot, and the clients' view.
#[test]
fn shards_attach_through_the_dispatcher() {
    let write_shards: u128 = 2;
    let read_shards: u128 = 4;
    let mut info = InfoRouter::new(2);
    let mut next_id: u128 = 1;
    for i in 0..write_shards {
        let req = Payload::AnnounceShardRequest(writer(next_id, i, i as u16));
        next_id += 1;
        assert!(matches!(
            dispatch(&mut info, &req),
            Ok(Some(Payload::AnnounceShardResponse(_)))
        ));
        for j in 0..read_shards {
            let req = Payload::AnnounceShardRequest(reader(
                next_id,
                (j + 1) * 100,
                ((j + 1) * 100) as u16,
            ));
            next_id += 1;
            assert!(matches!(
                dispatch(&mut info, &req),
                Ok(Some(Payload::AnnounceShardResponse(_)))
            ));
        }
    }
    for i in 0..(write_shards as usize) {
        let req = Payload::GetSharedPeersRequest(GetSharedPeersRequest {
            writer_number: i as u16,
        });
        let peers = match dispatch(&mut info, &req) {
            Ok(Some(Payload::GetSharedPeersResponse(res))) => res.peer_ips,
            other => panic!("no peers: {:?}", other),
        };
        assert_eq!(peers.len(), 1 + read_shards as usize);
        assert_eq!(peers[0].0, i as u128);
        assert_eq!(peers[0].1, i as u16);
        for j in 0..(read_shards as usize) {
            assert!(peers[1 + j].0 >= 100 as u128);
            assert!(peers[1 + j].1 >= 100 as u16);
        }
    }
    let req = Payload::GetClientShardInfoRequest(GetClientShardInfoRequest {});
    let view = match dispatch(&mut info, &req) {
        Ok(Some(Payload::GetClientShardInfoResponse(res))) => res,
        other => panic!("no view: {:?}", other),
    };
    assert_eq!(view.num_write_shards, write_shards as u16);
    assert_eq!(view.write_shard_info.len(), write_shards as usize);
    for i in 0..(write_shards as usize) {
        assert_eq!(view.write_shard_info[i].0, i as u128);
        assert_eq!(view.write_shard_info[i].1, i as u16);
    }
    assert_eq!(view.read_shard_info.len(), write_shards as usize);
}
