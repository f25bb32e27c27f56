//! The read shard: it follows a writer's log, one version at a time, and
//! answers reads from what it has applied.
//!
//! A read shard applies the entry of version `n + 1` only when it has applied
//! exactly `n` entries. Whatever arrives out of turn is dropped, and asked
//! for again on a later tick. So its log is at all times a prefix of the log
//! it follows.

use crate::io::router::{taken, HandlerError, RouterHandler};
use crate::messages::payload::PayloadView;
use crate::messages::requests::announce_shard_request::{AnnounceShardRequest, ShardType};
use crate::messages::requests::get_client_shard_info_request::GetClientShardInfoRequest;
use crate::messages::requests::get_shared_peers_request::GetSharedPeersRequest;
use crate::messages::requests::get_version_request::GetVersionRequest;
use crate::messages::requests::query_version_request::QueryVersionRequest;
use crate::messages::requests::read_request::ReadRequest;
use crate::messages::requests::write_request::WriteRequest;
use crate::messages::responses::announce_shard_response::AnnounceShardResponse;
use crate::messages::responses::get_client_shard_info_response::GetClientShardInfoResponse;
use crate::messages::responses::get_shared_peers_response::GetSharedPeersResponse;
use crate::messages::responses::get_version_response::{
    GetVersionResponse, GetVersionResponseError, GetVersionResponseView,
};
use crate::messages::responses::query_version_response::QueryVersionResponse;
use crate::messages::responses::read_response::{
    ReadResponse, ReadResponseError, ReadResponseView,
};
use crate::messages::responses::write_response::WriteResponse;
use crate::store::{replay, spec_get_version, Entry, Store};
use crate::utils::random::choose_one;
use crate::utils::text::{bytes_of, parse_text};
use crate::wire::copy_endpoints;
use vstd::prelude::*;
use vstd::utf8::{
    decode_utf8, encode_utf8, encode_utf8_decode_utf8, encode_utf8_valid_utf8, valid_utf8,
};

verus! {

/// The state of a read shard.
pub struct ReadShard {
    writer_id: u16,
    peers: Vec<(u128, u16)>,
    requested_version: u64,
    current_version: u64,
    store: Store,
}

/// A read shard, as contracts see it. Its applied version is the length of
/// `log`.
pub struct ReadShardView {
    pub writer_slot: u16,
    pub peers: Seq<(u128, u16)>,
    pub requested_version: u64,
    pub log: Seq<Entry>,
}

impl ReadShardView {
    /// How many entries the shard has applied.
    pub open spec fn applied_version(self) -> nat {
        self.log.len()
    }

    /// The latest value of every key, as far as the shard has applied.
    pub open spec fn data(self) -> Map<Seq<char>, Seq<char>> {
        replay(self.log)
    }

    /// The shard, come to know that a peer holds `version`.
    pub open spec fn with_requested(self, version: u64) -> ReadShardView {
        ReadShardView { requested_version: version, ..self }
    }
}

impl View for ReadShard {
    type V = ReadShardView;

    closed spec fn view(&self) -> ReadShardView {
        ReadShardView {
            writer_slot: self.writer_id,
            peers: self.peers@,
            requested_version: self.requested_version,
            log: self.store.log(),
        }
    }
}

/// The answer to a read: the value under the key, or a miss that echoes the
/// key and carries no value. A key that is not text is under no entry.
pub open spec fn spec_read(log: Seq<Entry>, key: Seq<u8>) -> ReadResponseView {
    if valid_utf8(key) && replay(log).contains_key(decode_utf8(key)) {
        ReadResponseView {
            key,
            value: encode_utf8(replay(log)[decode_utf8(key)]),
            error: ReadResponseError::NoError.code(),
        }
    } else {
        ReadResponseView { key, value: Seq::empty(), error: ReadResponseError::KeyNotFound.code() }
    }
}

/// A key is read as it was last written: a shard whose newest entry is
/// `value` under `key` answers a read of the key with that value, whatever
/// the log held before.
pub proof fn lemma_read_after_apply(log: Seq<Entry>, key: Seq<char>, value: Seq<char>)
    ensures
        spec_read(log.push((key, value)), encode_utf8(key)) == (ReadResponseView {
            key: encode_utf8(key),
            value: encode_utf8(value),
            error: ReadResponseError::NoError.code(),
        }),
{
    let after = log.push((key, value));
    encode_utf8_valid_utf8(key);
    encode_utf8_decode_utf8(key);
    assert(after.drop_last() =~= log);
}

/// A version response is the one the shard waits for: it carries no error,
/// and its version is the next to apply.
pub open spec fn is_next(state: ReadShardView, res: GetVersionResponseView) -> bool {
    res.error == GetVersionResponseError::NoError.code() && res.version == state.log.len() + 1
}

/// The shard after a version response, and what the callback returns.
///
/// A response that is not the next one is dropped. The next one is appended
/// to the log, and the version asked for falls back to the version applied.
/// The next one with a key or a value that is not text is refused, and
/// changes nothing.
pub open spec fn spec_apply(state: ReadShardView, res: GetVersionResponseView) -> (
    ReadShardView,
    Result<(), HandlerError>,
) {
    if !is_next(state, res) {
        (state, Ok(()))
    } else if !valid_utf8(res.key) || !valid_utf8(res.value) {
        (state, Err(HandlerError::InvalidUtf8))
    } else {
        (
            ReadShardView {
                requested_version: res.version,
                log: state.log.push((decode_utf8(res.key), decode_utf8(res.value))),
                ..state
            },
            Ok(()),
        )
    }
}

/// What a catch-up tick sends: a version query to a peer, and with it the
/// request for the next version if the shard knows that it lags.
#[derive(Debug, Clone, Copy, PartialEq, Eq)]
pub struct CatchUp {
    pub peer: (u128, u16),
    pub query: QueryVersionRequest,
    pub fetch: Option<GetVersionRequest>,
}

/// The request for the next version, if a higher one than the applied is
/// known of.
pub open spec fn spec_fetch(state: ReadShardView) -> Option<GetVersionRequest> {
    if state.requested_version > state.log.len() {
        Some(GetVersionRequest { version: (state.log.len() + 1) as u64 })
    } else {
        None
    }
}

/// What a tick sends once the peer is picked; nothing without a peer.
pub open spec fn spec_plan(state: ReadShardView, picked: Option<(u128, u16)>) -> Option<CatchUp> {
    match picked {
        None => None,
        Some(peer) => Some(
            CatchUp { peer, query: QueryVersionRequest {  }, fetch: spec_fetch(state) },
        ),
    }
}

impl ReadShard {
    /// A shard that has applied nothing and knows no peer.
    pub fn new() -> (shard: Self)
        ensures
            shard.inv(),
            shard@ == (ReadShardView {
                writer_slot: 0,
                peers: Seq::empty(),
                requested_version: 0,
                log: Seq::empty(),
            }),
    {
        ReadShard {
            writer_id: 0,
            peers: Vec::new(),
            requested_version: 0,
            current_version: 0,
            store: Store::new(),
        }
    }

    /// The slot that the info server assigned.
    pub fn writer_slot(&self) -> (slot: u16)
        ensures
            slot == self@.writer_slot,
    {
        self.writer_id
    }

    /// The peers that the info server last listed, the writer first.
    pub fn peers(&self) -> (peers: Vec<(u128, u16)>)
        ensures
            peers@ == self@.peers,
    {
        copy_endpoints(&self.peers)
    }

    /// How many entries the shard has applied.
    pub fn applied_version(&self) -> (v: u64)
        requires
            self.inv(),
        ensures
            v == self@.applied_version(),
    {
        self.current_version
    }

    /// The highest version that a peer is known to hold.
    pub fn requested_version(&self) -> (v: u64)
        ensures
            v == self@.requested_version,
    {
        self.requested_version
    }

    /// The announce that a read shard sends to the info server.
    pub fn announce_request(shard_id: u128, ip: u128, port: u16) -> (req: AnnounceShardRequest)
        ensures
            req == (AnnounceShardRequest { shard_type: ShardType::ReadShard, shard_id, ip, port }),
    {
        AnnounceShardRequest { shard_type: ShardType::ReadShard, shard_id, ip, port }
    }

    /// The request for the peers of the shard's slot.
    pub fn peers_request(&self) -> (req: GetSharedPeersRequest)
        ensures
            req.writer_number == self@.writer_slot,
    {
        GetSharedPeersRequest { writer_number: self.writer_id }
    }

    /// What a catch-up tick sends to the peer that was picked for it.
    pub fn plan_catch_up(&self, picked: Option<&(u128, u16)>) -> (plan: Option<CatchUp>)
        requires
            self.inv(),
        ensures
            plan == spec_plan(
                self@,
                match picked {
                    Some(peer) => Some(*peer),
                    None => None,
                },
            ),
    {
        match picked {
            None => None,
            Some(peer) => {
                let fetch = if self.requested_version > self.current_version {
                    Some(GetVersionRequest { version: self.current_version + 1 })
                } else {
                    None
                };
                Some(CatchUp { peer: *peer, query: QueryVersionRequest {  }, fetch })
            },
        }
    }

    /// One catch-up tick: picks a peer at random and says what to send it.
    ///
    /// Whichever peer is picked, it is one of the shard's peers, and what is
    /// sent is the plan for that peer. A shard without peers sends nothing.
    pub fn catch_up(&self) -> (plan: Option<CatchUp>)
        requires
            self.inv(),
        ensures
            plan is None <==> self@.peers.len() == 0,
            plan matches Some(p) ==> self@.peers.contains(p.peer) && plan == spec_plan(
                self@,
                Some(p.peer),
            ),
    {
        let picked = choose_one(self.peers.as_slice());
        self.plan_catch_up(picked)
    }
}


impl RouterHandler for ReadShard {
    /// The applied version is the log's length, and the map is the log
    /// replayed.
    closed spec fn inv(&self) -> bool {
        self.store.wf() && self.current_version == self.store.log().len()
    }

    /// A version response is handled as `spec_apply` says. The answers to
    /// the shard's announce, to its request for peers and to its version
    /// query leave the slot, the peers and the version asked for with the
    /// shard. Reads and requests for versions are answered from what has
    /// been applied and change nothing. A read shard has no use for any
    /// other message.
    open spec fn handles(
        pre: Self,
        message: PayloadView,
        post: Self,
        outcome: Result<Option<PayloadView>, HandlerError>,
    ) -> bool {
        match message {
            PayloadView::GetVersionResponse(res) => {
                &&& post@ == spec_apply(pre@, res).0
                &&& outcome == taken(spec_apply(pre@, res).1)
            },
            PayloadView::AnnounceShardResponse(res) => {
                &&& post@ == (ReadShardView { writer_slot: res.writer_number, ..pre@ })
                &&& outcome == Ok::<Option<PayloadView>, HandlerError>(None)
            },
            PayloadView::GetSharedPeersResponse(res) => {
                &&& post@ == (ReadShardView { peers: res.peer_ips, ..pre@ })
                &&& outcome == Ok::<Option<PayloadView>, HandlerError>(None)
            },
            PayloadView::QueryVersionResponse(res) => {
                &&& post@ == pre@.with_requested(res.version)
                &&& outcome == Ok::<Option<PayloadView>, HandlerError>(None)
            },
            PayloadView::ReadRequest(req) => {
                &&& post@ == pre@
                &&& outcome == Ok::<Option<PayloadView>, HandlerError>(
                    Some(PayloadView::ReadResponse(spec_read(pre@.log, req.key))),
                )
            },
            PayloadView::GetVersionRequest(req) => {
                &&& post@ == pre@
                &&& outcome == Ok::<Option<PayloadView>, HandlerError>(
                    Some(PayloadView::GetVersionResponse(spec_get_version(pre@.log, req.version))),
                )
            },
            PayloadView::QueryVersionRequest(_) => {
                &&& post@ == pre@
                &&& outcome matches Ok(Some(PayloadView::QueryVersionResponse(res)))
                &&& res.version == pre@.applied_version()
            },
            _ => post@ == pre@ && outcome == Err::<Option<PayloadView>, HandlerError>(
                HandlerError::NotImplemented,
            ),
        }
    }

    /// Keeps the slot that the info server assigned.
    fn handle_announce_shard_response(&mut self, res: &AnnounceShardResponse) -> (r: Result<
        (),
        HandlerError,
    >)
        ensures
            final(self)@ == (ReadShardView { writer_slot: res.writer_number, ..old(self)@ }),
            r is Ok,
    {
        self.writer_id = res.writer_number;
        Ok(())
    }

    /// Looks the key up in what has been applied.
    fn handle_read_request(&mut self, req: &ReadRequest) -> (r: Result<ReadResponse, HandlerError>)
        ensures
            final(self)@ == old(self)@,
            r matches Ok(res) && res@ == spec_read(old(self)@.log, req@.key),
    {
        let echo = crate::wire::copy_range(req.key.as_slice(), 0, req.key.len());
        assert(echo@ =~= req@.key);
        let found = match parse_text(req.key.as_slice()) {
            Some(key) => match self.store.get(key.as_str()) {
                Some(value) => Some(bytes_of(value)),
                None => None,
            },
            None => None,
        };
        match found {
            Some(value) => Ok(
                ReadResponse { key: echo, value, error: ReadResponseError::NoError.as_u8() },
            ),
            None => Ok(
                ReadResponse {
                    key: echo,
                    value: Vec::new(),
                    error: ReadResponseError::KeyNotFound.as_u8(),
                },
            ),
        }
    }

    /// Replaces the peers with the ones the info server lists.
    fn handle_get_shared_peers_response(&mut self, res: &GetSharedPeersResponse) -> (r: Result<
        (),
        HandlerError,
    >)
        ensures
            final(self)@ == (ReadShardView { peers: res@.peer_ips, ..old(self)@ }),
            r is Ok,
    {
        self.peers = copy_endpoints(&res.peer_ips);
        Ok(())
    }

    /// Takes note of the version that a peer holds.
    fn handle_query_version_response(&mut self, res: &QueryVersionResponse) -> (r: Result<
        (),
        HandlerError,
    >)
        ensures
            final(self)@ == old(self)@.with_requested(res.version),
            r is Ok,
    {
        self.requested_version = res.version;
        Ok(())
    }

    /// Applies the entry of the next version, and drops any other.
    ///
    /// The log grows by the entry of version `applied + 1` or not at all:
    /// entry `i + 1` is never applied before entry `i`.
    fn handle_get_version_response(&mut self, res: &GetVersionResponse) -> (r: Result<
        (),
        HandlerError,
    >)
        ensures
            final(self)@ == spec_apply(old(self)@, res@).0,
            r == spec_apply(old(self)@, res@).1,
    {
        if res.error != GetVersionResponseError::NoError.as_u8() || self.current_version
            == u64::MAX || res.version != self.current_version + 1 {
            return Ok(());
        }
        let key = match parse_text(res.key.as_slice()) {
            Some(key) => key,
            None => {
                return Err(HandlerError::InvalidUtf8);
            },
        };
        let value = match parse_text(res.value.as_slice()) {
            Some(value) => value,
            None => {
                return Err(HandlerError::InvalidUtf8);
            },
        };
        self.current_version = res.version;
        self.store.append(key, value);
        self.requested_version = self.current_version;
        Ok(())
    }

    /// Answers with the version applied.
    fn handle_query_version_request(&mut self, _req: &QueryVersionRequest) -> (r: Result<
        QueryVersionResponse,
        HandlerError,
    >)
        ensures
            final(self)@ == old(self)@,
            r matches Ok(res) && res.version == old(self)@.applied_version(),
    {
        Ok(QueryVersionResponse { version: self.current_version })
    }

    /// Answers as a write shard does, from the shard's own log.
    fn handle_get_version_request(&mut self, req: &GetVersionRequest) -> (r: Result<
        GetVersionResponse,
        HandlerError,
    >)
        ensures
            final(self)@ == old(self)@,
            r matches Ok(res) && res@ == spec_get_version(old(self)@.log, req.version),
    {
        Ok(self.store.get_version(req.version))
    }

    fn handle_announce_shard_request(&mut self, _req: &AnnounceShardRequest) -> (r: Result<
        AnnounceShardResponse,
        HandlerError,
    >)
        ensures
            final(self)@ == old(self)@,
            r == Err::<AnnounceShardResponse, HandlerError>(HandlerError::NotImplemented),
    {
        Err(HandlerError::NotImplemented)
    }

    fn handle_get_client_shard_info_request(&mut self, _req: &GetClientShardInfoRequest) -> (r:
        Result<GetClientShardInfoResponse, HandlerError>)
        ensures
            final(self)@ == old(self)@,
            r is Err && r->Err_0 == HandlerError::NotImplemented,
    {
        Err(HandlerError::NotImplemented)
    }

    fn handle_write_request(&mut self, _req: &WriteRequest) -> (r: Result<
        WriteResponse,
        HandlerError,
    >)
        ensures
            final(self)@ == old(self)@,
            r == Err::<WriteResponse, HandlerError>(HandlerError::NotImplemented),
    {
        Err(HandlerError::NotImplemented)
    }

    fn handle_get_shared_peers_request(&mut self, _req: &GetSharedPeersRequest) -> (r: Result<
        GetSharedPeersResponse,
        HandlerError,
    >)
        ensures
            final(self)@ == old(self)@,
            r is Err && r->Err_0 == HandlerError::NotImplemented,
    {
        Err(HandlerError::NotImplemented)
    }

    fn handle_get_client_shard_info_response(&mut self, _res: &GetClientShardInfoResponse) -> (r:
        Result<(), HandlerError>)
        ensures
            final(self)@ == old(self)@,
            r == Err::<(), HandlerError>(HandlerError::NotImplemented),
    {
        Err(HandlerError::NotImplemented)
    }

    fn handle_read_response(&mut self, _res: &ReadResponse) -> (r: Result<(), HandlerError>)
        ensures
            final(self)@ == old(self)@,
            r == Err::<(), HandlerError>(HandlerError::NotImplemented),
    {
        Err(HandlerError::NotImplemented)
    }

    fn handle_write_response(&mut self, _res: &WriteResponse) -> (r: Result<(), HandlerError>)
        ensures
            final(self)@ == old(self)@,
            r == Err::<(), HandlerError>(HandlerError::NotImplemented),
    {
        Err(HandlerError::NotImplemented)
    }
}


/// Reader apply order: a version response leaves the log as it was or
/// appends one entry to it, and it appends only the entry of the version
/// that follows the last one applied.
pub proof fn lemma_apply_in_order(state: ReadShardView, res: GetVersionResponseView)
    ensures
        ({
            let after = spec_apply(state, res).0;
            &&& after.log == state.log || after.log == state.log.push(after.log.last())
            &&& after.log != state.log ==> res.error == 0 && res.version == state.applied_version()
                + 1 && after.applied_version() == res.version
            &&& after.log.take(state.log.len() as int) == state.log
        }),
{
    let after = spec_apply(state, res).0;
    assert(after.log.take(state.log.len() as int) =~= state.log);
    if after.log != state.log {
        assert(after.log =~= state.log.push(after.log.last()));
    }
}

/// Whatever a peer answers to a request for a version, a shard that applies
/// it has a prefix of the writer's log if it had one before and the peer has
/// one: readers that follow the writer, or each other, never part from it.
pub proof fn lemma_apply_keeps_prefix(
    state: ReadShardView,
    peer: Seq<Entry>,
    version: u64,
    source: Seq<Entry>,
)
    requires
        is_prefix(state.log, source),
        is_prefix(peer, source),
    ensures
        is_prefix(spec_apply(state, spec_get_version(peer, version)).0.log, source),
{
    let res = spec_get_version(peer, version);
    let after = spec_apply(state, res).0;
    if after.log != state.log {
        let n = state.log.len() as int;
        assert(peer[n] == source[n]);
        encode_utf8_decode_utf8(peer[n].0);
        encode_utf8_decode_utf8(peer[n].1);
        assert(after.log =~= source.take(n + 1));
    }
}

/// One round of catch-up against a peer whose log is `source`: the shard
/// takes note of the peer's version and, if it lags, applies the peer's
/// answer to its request for the next version.
pub open spec fn spec_catch_up_round(state: ReadShardView, source: Seq<Entry>) -> ReadShardView {
    let asked = state.with_requested(source.len() as u64);
    match spec_fetch(asked) {
        Some(req) => spec_apply(asked, spec_get_version(source, req.version)).0,
        None => asked,
    }
}

/// The shard after `rounds` rounds of catch-up against one peer.
pub open spec fn spec_catch_up(state: ReadShardView, source: Seq<Entry>, rounds: nat)
    -> ReadShardView
    decreases rounds,
{
    if rounds == 0 {
        state
    } else {
        spec_catch_up_round(spec_catch_up(state, source, (rounds - 1) as nat), source)
    }
}

/// `log` is the beginning of `source`.
pub open spec fn is_prefix(log: Seq<Entry>, source: Seq<Entry>) -> bool {
    log.len() <= source.len() && log == source.take(log.len() as int)
}

/// A round of catch-up against a log that the shard's own is a prefix of
/// brings the shard one entry further, if it lags, and keeps its log a
/// prefix.
pub proof fn lemma_catch_up_round(state: ReadShardView, source: Seq<Entry>)
    requires
        is_prefix(state.log, source),
        source.len() <= u64::MAX,
    ensures
        ({
            let after = spec_catch_up_round(state, source);
            &&& is_prefix(after.log, source)
            &&& after.log.len() == if state.log.len() < source.len() {
                state.log.len() + 1
            } else {
                state.log.len()
            }
        }),
{
    let n = state.log.len() as int;
    if n < source.len() {
        let asked = state.with_requested(source.len() as u64);
        let res = spec_get_version(source, (n + 1) as u64);
        encode_utf8_valid_utf8(source[n].0);
        encode_utf8_valid_utf8(source[n].1);
        encode_utf8_decode_utf8(source[n].0);
        encode_utf8_decode_utf8(source[n].1);
        let after = spec_apply(asked, res).0;
        assert(after.log =~= source.take(n + 1));
    }
}

/// Reader convergence: a shard whose log is a prefix of a peer's log, and
/// that keeps exchanging with that peer while the peer's log stands still,
/// gains one entry per round until it has them all. After as many rounds as
/// it lagged by, and from then on, its applied version is the peer's version
/// and its log is the peer's log.
pub proof fn lemma_reader_converges(state: ReadShardView, source: Seq<Entry>, rounds: nat)
    requires
        is_prefix(state.log, source),
        source.len() <= u64::MAX,
    ensures
        ({
            let after = spec_catch_up(state, source, rounds);
            &&& is_prefix(after.log, source)
            &&& after.applied_version() == if state.log.len() + rounds < source.len() {
                state.log.len() + rounds
            } else {
                source.len()
            }
            &&& state.log.len() + rounds >= source.len() ==> after.log == source
        }),
    decreases rounds,
{
    if rounds > 0 {
        lemma_reader_converges(state, source, (rounds - 1) as nat);
        lemma_catch_up_round(spec_catch_up(state, source, (rounds - 1) as nat), source);
    }
    let after = spec_catch_up(state, source, rounds);
    if state.log.len() + rounds >= source.len() {
        assert(source.take(source.len() as int) =~= source);
    }
}

} // verus!
