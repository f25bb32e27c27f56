//! The client: it keeps the view of the shards that the info server gave it,
//! and sends each key to the shards of one slot.
//!
//! A key's slot is its hash modulo the number of write shards. A `set` goes
//! to the writer of that slot and a `get` to its reader, so a key is read
//! where it was written.

use crate::io::router::{HandlerError, RouterHandler};
use crate::messages::payload::PayloadView;
use crate::messages::requests::announce_shard_request::AnnounceShardRequest;
use crate::messages::requests::get_client_shard_info_request::GetClientShardInfoRequest;
use crate::messages::requests::get_shared_peers_request::GetSharedPeersRequest;
use crate::messages::requests::get_version_request::GetVersionRequest;
use crate::messages::requests::query_version_request::QueryVersionRequest;
use crate::messages::requests::read_request::{ReadRequest, ReadRequestView};
use crate::messages::requests::write_request::{WriteRequest, WriteRequestView};
use crate::messages::responses::announce_shard_response::AnnounceShardResponse;
use crate::messages::responses::get_client_shard_info_response::GetClientShardInfoResponse;
use crate::messages::responses::get_shared_peers_response::GetSharedPeersResponse;
use crate::messages::responses::get_version_response::GetVersionResponse;
use crate::messages::responses::query_version_response::QueryVersionResponse;
use crate::messages::responses::read_response::{ReadResponse, ReadResponseView};
use crate::messages::responses::write_response::WriteResponse;
use crate::utils::text::same_text;
use crate::wire::{copy_endpoints, copy_range};
use std::collections::hash_map::DefaultHasher;
use std::hash::Hasher;
use vstd::prelude::*;
use vstd::slice::slice_to_vec;
use vstd::std_specs::hash::DefaultHasherAdditionalSpecFns;
use vstd::utf8::encode_utf8;

verus! {

/// The hash of a key: what the standard library's default hasher makes of
/// the key's bytes, written to it in one piece.
pub open spec fn spec_key_hash(key: Seq<char>) -> u64 {
    DefaultHasher::spec_finish(seq![encode_utf8(key)])
}

/// The slot of a key among `num_shards` slots.
pub open spec fn spec_shard_index(key: Seq<char>, num_shards: usize) -> int {
    (spec_key_hash(key) as usize) as int % num_shards as int
}

/// The slot of a key among `num_shards` slots.
///
/// It depends on the key and the number alone, so the same key goes to the
/// same slot each time.
pub fn hash_key_to_shard(key: &str, num_shards: usize) -> (index: usize)
    requires
        num_shards > 0,
    ensures
        index == spec_shard_index(key@, num_shards),
        index < num_shards,
{
    let mut hasher = DefaultHasher::new();
    hasher.write(key.as_bytes());
    let hash = hasher.finish();
    assert(hasher@ =~= seq![encode_utf8(key@)]);
    (hash as usize) % num_shards
}

/// The shards that the client knows: for each slot a writer and a reader.
#[derive(Debug, Clone)]
pub struct ClientState {
    pub num_write_shards: usize,
    pub write_shard_info: Vec<(u128, u16)>,
    pub read_shard_info: Vec<(u128, u16)>,
}

pub struct ClientStateView {
    pub num_write_shards: usize,
    pub write_shard_info: Seq<(u128, u16)>,
    pub read_shard_info: Seq<(u128, u16)>,
}

impl View for ClientState {
    type V = ClientStateView;

    open spec fn view(&self) -> ClientStateView {
        ClientStateView {
            num_write_shards: self.num_write_shards,
            write_shard_info: self.write_shard_info@,
            read_shard_info: self.read_shard_info@,
        }
    }
}

impl ClientStateView {
    /// The slot that a key goes to, if the client knows of any shard.
    pub open spec fn slot_for(self, key: Seq<char>) -> Option<int> {
        if self.num_write_shards == 0 {
            None
        } else {
            Some(spec_shard_index(key, self.num_write_shards))
        }
    }

    /// The writer that a key is set at: the one of the key's slot.
    pub open spec fn write_target(self, key: Seq<char>) -> Option<(u128, u16)> {
        match self.slot_for(key) {
            Some(slot) if slot < self.write_shard_info.len() => Some(self.write_shard_info[slot]),
            _ => None,
        }
    }

    /// The reader that a key is got from: the one of the key's slot.
    pub open spec fn read_target(self, key: Seq<char>) -> Option<(u128, u16)> {
        match self.slot_for(key) {
            Some(slot) if slot < self.read_shard_info.len() => Some(self.read_shard_info[slot]),
            _ => None,
        }
    }
}

/// Hash-routing determinism: the writer that a key is set at and the reader
/// that it is got from are those of one slot, the slot of the key.
pub proof fn lemma_set_and_get_share_a_slot(state: ClientStateView, key: Seq<char>)
    requires
        state.write_target(key) is Some,
        state.read_target(key) is Some,
    ensures
        state.slot_for(key) is Some,
        state.write_target(key) == Some(state.write_shard_info[state.slot_for(key).unwrap()]),
        state.read_target(key) == Some(state.read_shard_info[state.slot_for(key).unwrap()]),
{
}

impl Default for ClientState {
    /// The state of a client that knows no shard.
    fn default() -> (state: Self)
        ensures
            state@ == (ClientStateView {
                num_write_shards: 0,
                write_shard_info: Seq::empty(),
                read_shard_info: Seq::empty(),
            }),
    {
        ClientState {
            num_write_shards: 0,
            write_shard_info: Vec::new(),
            read_shard_info: Vec::new(),
        }
    }
}

impl ClientState {
    /// The slot that a key goes to, if the client knows of any shard.
    pub fn slot_for(&self, key: &str) -> (slot: Option<usize>)
        ensures
            match slot {
                Some(i) => self@.slot_for(key@) == Some(i as int),
                None => self@.slot_for(key@) is None,
            },
    {
        if self.num_write_shards == 0 {
            None
        } else {
            Some(hash_key_to_shard(key, self.num_write_shards))
        }
    }

    /// The writer that a key is set at.
    pub fn write_target(&self, key: &str) -> (target: Option<(u128, u16)>)
        ensures
            target == self@.write_target(key@),
    {
        match self.slot_for(key) {
            Some(slot) => if slot < self.write_shard_info.len() {
                Some(self.write_shard_info[slot])
            } else {
                None
            },
            None => None,
        }
    }

    /// The reader that a key is got from.
    pub fn read_target(&self, key: &str) -> (target: Option<(u128, u16)>)
        ensures
            target == self@.read_target(key@),
    {
        match self.slot_for(key) {
            Some(slot) => if slot < self.read_shard_info.len() {
                Some(self.read_shard_info[slot])
            } else {
                None
            },
            None => None,
        }
    }

    /// What `set key value` sends, and where: nothing while no shard is
    /// known.
    pub fn plan_set(&self, key: &str, value: &str) -> (plan: Option<((u128, u16), WriteRequest)>)
        ensures
            match plan {
                Some((target, req)) => self@.write_target(key@) == Some(target) && req@
                    == (WriteRequestView { key: encode_utf8(key@), value: encode_utf8(value@) }),
                None => self@.write_target(key@) is None,
            },
    {
        match self.write_target(key) {
            Some(target) => Some(
                (
                    target,
                    WriteRequest {
                        key: slice_to_vec(key.as_bytes()),
                        value: slice_to_vec(value.as_bytes()),
                    },
                ),
            ),
            None => None,
        }
    }

    /// What `get key` sends, and where: nothing while no shard is known.
    pub fn plan_get(&self, key: &str) -> (plan: Option<((u128, u16), ReadRequest)>)
        ensures
            match plan {
                Some((target, req)) => self@.read_target(key@) == Some(target) && req@
                    == (ReadRequestView { key: encode_utf8(key@) }),
                None => self@.read_target(key@) is None,
            },
    {
        match self.read_target(key) {
            Some(target) => Some((target, ReadRequest { key: slice_to_vec(key.as_bytes()) })),
            None => None,
        }
    }
}


/// What a line at the client's prompt asks for.
#[derive(Debug, Clone, PartialEq, Eq)]
pub enum Command {
    /// `set <key> <value>`: store the value under the key.
    SetKey { key: String, value: String },
    /// `get <key>`: ask for the value under the key.
    GetKey { key: String },
    /// `exit`: leave.
    Exit,
    /// `wait`: pause for a moment.
    Wait,
    /// `set` without a key or without a value.
    SetUsage,
    /// `get` without a key.
    GetUsage,
    /// Anything else.
    Unknown,
}

pub enum CommandView {
    SetKey { key: Seq<char>, value: Seq<char> },
    GetKey { key: Seq<char> },
    Exit,
    Wait,
    SetUsage,
    GetUsage,
    Unknown,
}

impl View for Command {
    type V = CommandView;

    open spec fn view(&self) -> CommandView {
        match self {
            Command::SetKey { key, value } => CommandView::SetKey { key: key@, value: value@ },
            Command::GetKey { key } => CommandView::GetKey { key: key@ },
            Command::Exit => CommandView::Exit,
            Command::Wait => CommandView::Wait,
            Command::SetUsage => CommandView::SetUsage,
            Command::GetUsage => CommandView::GetUsage,
            Command::Unknown => CommandView::Unknown,
        }
    }
}

/// What a line asks for, from its first word and the two parts that may
/// follow it.
pub open spec fn spec_interpret(
    word: Seq<char>,
    key: Option<Seq<char>>,
    value: Option<Seq<char>>,
) -> CommandView {
    if word == "set"@ {
        match (key, value) {
            (Some(key), Some(value)) => CommandView::SetKey { key, value },
            _ => CommandView::SetUsage,
        }
    } else if word == "get"@ {
        match key {
            Some(key) => CommandView::GetKey { key },
            None => CommandView::GetUsage,
        }
    } else if word == "exit"@ {
        CommandView::Exit
    } else if word == "wait"@ {
        CommandView::Wait
    } else {
        CommandView::Unknown
    }
}

/// The text behind an optional part of a line.
pub open spec fn part_view(part: Option<&str>) -> Option<Seq<char>> {
    match part {
        Some(text) => Some(text@),
        None => None,
    }
}

/// Reads a line of the prompt that has been split at its first two spaces:
/// `word` is the first part, in lower case, `key` the second and `value` the
/// rest, where there are any.
pub fn interpret(word: &str, key: Option<&str>, value: Option<&str>) -> (command: Command)
    ensures
        command@ == spec_interpret(word@, part_view(key), part_view(value)),
{
    if same_text(word, "set") {
        match (key, value) {
            (Some(key), Some(value)) => Command::SetKey {
                key: key.to_owned(),
                value: value.to_owned(),
            },
            _ => Command::SetUsage,
        }
    } else if same_text(word, "get") {
        match key {
            Some(key) => Command::GetKey { key: key.to_owned() },
            None => Command::GetUsage,
        }
    } else if same_text(word, "exit") {
        Command::Exit
    } else if same_text(word, "wait") {
        Command::Wait
    } else {
        Command::Unknown
    }
}

/// What the client has to tell its user about an answer that came in.
#[derive(Debug, Clone, PartialEq, Eq)]
pub enum ClientNotice {
    /// A write was stored.
    WriteSucceeded,
    /// A write was answered with an error code.
    WriteFailed { code: u8 },
    /// A read was answered with the error code for a miss.
    ReadFailed { key: Vec<u8> },
    /// A read came back without a value.
    ReadEmpty,
    /// A read came back with a value.
    ReadSucceeded { key: Vec<u8>, value: Vec<u8> },
}

pub enum ClientNoticeView {
    WriteSucceeded,
    WriteFailed { code: u8 },
    ReadFailed { key: Seq<u8> },
    ReadEmpty,
    ReadSucceeded { key: Seq<u8>, value: Seq<u8> },
}

impl View for ClientNotice {
    type V = ClientNoticeView;

    open spec fn view(&self) -> ClientNoticeView {
        match self {
            ClientNotice::WriteSucceeded => ClientNoticeView::WriteSucceeded,
            ClientNotice::WriteFailed { code } => ClientNoticeView::WriteFailed { code: *code },
            ClientNotice::ReadFailed { key } => ClientNoticeView::ReadFailed { key: key@ },
            ClientNotice::ReadEmpty => ClientNoticeView::ReadEmpty,
            ClientNotice::ReadSucceeded { key, value } => ClientNoticeView::ReadSucceeded {
                key: key@,
                value: value@,
            },
        }
    }
}

/// What a write response tells the user.
pub open spec fn spec_write_notice(res: WriteResponse) -> ClientNoticeView {
    if res.error == 0 {
        ClientNoticeView::WriteSucceeded
    } else {
        ClientNoticeView::WriteFailed { code: res.error }
    }
}

/// What a read response tells the user: that it failed, if its error code is
/// 1, and, whatever the code, either that the value is empty or the key and
/// its value.
pub open spec fn spec_read_notices(res: ReadResponseView) -> Seq<ClientNoticeView> {
    let failed = if res.error == 1 {
        seq![ClientNoticeView::ReadFailed { key: res.key }]
    } else {
        Seq::empty()
    };
    if res.value.len() == 0 {
        failed.push(ClientNoticeView::ReadEmpty)
    } else {
        failed.push(ClientNoticeView::ReadSucceeded { key: res.key, value: res.value })
    }
}

/// The client's handler: the shards it knows, and the notices that its user
/// has not yet taken.
#[derive(Debug, Clone)]
pub struct Client {
    shard_state: ClientState,
    notices: Vec<ClientNotice>,
}

pub struct ClientView {
    pub shard_state: ClientStateView,
    pub notices: Seq<ClientNoticeView>,
}

impl View for Client {
    type V = ClientView;

    closed spec fn view(&self) -> ClientView {
        ClientView {
            shard_state: self.shard_state@,
            notices: Seq::new(self.notices@.len(), |i: int| self.notices@[i]@),
        }
    }
}

impl Client {
    /// A client that starts from `shard_state` and has nothing to tell.
    pub fn new(shard_state: ClientState) -> (client: Self)
        ensures
            client.inv(),
            client@.shard_state == shard_state@,
            client@.notices == Seq::<ClientNoticeView>::empty(),
    {
        let client = Client { shard_state, notices: Vec::new() };
        assert(client@.notices =~= Seq::<ClientNoticeView>::empty());
        client
    }

    /// The shards that the client knows.
    pub fn shard_state(&self) -> (state: &ClientState)
        ensures
            state@ == self@.shard_state,
    {
        &self.shard_state
    }

    /// Hands over the notices that have come in, oldest first, and keeps
    /// none.
    pub fn take_notices(&mut self) -> (taken: Vec<ClientNotice>)
        ensures
            Seq::new(taken@.len(), |i: int| taken@[i]@) == old(self)@.notices,
            final(self)@ == (ClientView { notices: Seq::empty(), ..old(self)@ }),
    {
        let mut taken: Vec<ClientNotice> = Vec::new();
        std::mem::swap(&mut taken, &mut self.notices);
        assert(self@.notices =~= Seq::<ClientNoticeView>::empty());
        assert(Seq::new(taken@.len(), |i: int| taken@[i]@) =~= old(self)@.notices);
        taken
    }
}

impl RouterHandler for Client {
    /// A view of the shards that comes in replaces the client's own, and a
    /// list of peers its writers. The answers to writes and reads become
    /// notices. A client has no use for any other message.
    open spec fn handles(
        pre: Self,
        message: PayloadView,
        post: Self,
        outcome: Result<Option<PayloadView>, HandlerError>,
    ) -> bool {
        match message {
            PayloadView::GetClientShardInfoResponse(res) => {
                &&& post@ == (ClientView {
                    shard_state: ClientStateView {
                        num_write_shards: res.num_write_shards as usize,
                        write_shard_info: res.write_shard_info,
                        read_shard_info: res.read_shard_info,
                    },
                    ..pre@
                })
                &&& outcome == Ok::<Option<PayloadView>, HandlerError>(None)
            },
            PayloadView::GetSharedPeersResponse(res) => {
                &&& post@ == (ClientView {
                    shard_state: ClientStateView {
                        write_shard_info: res.peer_ips,
                        ..pre@.shard_state
                    },
                    ..pre@
                })
                &&& outcome == Ok::<Option<PayloadView>, HandlerError>(None)
            },
            PayloadView::WriteResponse(res) => {
                &&& post@ == (ClientView {
                    notices: pre@.notices.push(spec_write_notice(res)),
                    ..pre@
                })
                &&& outcome == Ok::<Option<PayloadView>, HandlerError>(None)
            },
            PayloadView::ReadResponse(res) => {
                &&& post@ == (ClientView {
                    notices: pre@.notices + spec_read_notices(res),
                    ..pre@
                })
                &&& outcome == Ok::<Option<PayloadView>, HandlerError>(None)
            },
            _ => post@ == pre@ && outcome == Err::<Option<PayloadView>, HandlerError>(
                HandlerError::NotImplemented,
            ),
        }
    }

    /// Replaces the client's view of the shards with the one that came.
    fn handle_get_client_shard_info_response(&mut self, res: &GetClientShardInfoResponse) -> (r:
        Result<(), HandlerError>)
        ensures
            final(self)@ == (ClientView {
                shard_state: ClientStateView {
                    num_write_shards: res.num_write_shards as usize,
                    write_shard_info: res@.write_shard_info,
                    read_shard_info: res@.read_shard_info,
                },
                ..old(self)@
            }),
            r is Ok,
    {
        self.shard_state.num_write_shards = res.num_write_shards as usize;
        self.shard_state.write_shard_info = copy_endpoints(&res.write_shard_info);
        self.shard_state.read_shard_info = copy_endpoints(&res.read_shard_info);
        Ok(())
    }

    /// Notes whether the write was stored.
    fn handle_write_response(&mut self, res: &WriteResponse) -> (r: Result<(), HandlerError>)
        ensures
            final(self)@ == (ClientView {
                notices: old(self)@.notices.push(spec_write_notice(*res)),
                ..old(self)@
            }),
            r is Ok,
    {
        let notice = if res.error == 0 {
            ClientNotice::WriteSucceeded
        } else {
            ClientNotice::WriteFailed { code: res.error }
        };
        self.notices.push(notice);
        assert(self@.notices =~= old(self)@.notices.push(spec_write_notice(*res)));
        Ok(())
    }

    /// Notes what the read brought.
    fn handle_read_response(&mut self, res: &ReadResponse) -> (r: Result<(), HandlerError>)
        ensures
            final(self)@ == (ClientView {
                notices: old(self)@.notices + spec_read_notices(res@),
                ..old(self)@
            }),
            r is Ok,
    {
        if res.error == 1 {
            let key = copy_range(res.key.as_slice(), 0, res.key.len());
            assert(key@ =~= res@.key);
            self.notices.push(ClientNotice::ReadFailed { key });
        }
        if res.value.len() == 0 {
            self.notices.push(ClientNotice::ReadEmpty);
        } else {
            let key = copy_range(res.key.as_slice(), 0, res.key.len());
            let value = copy_range(res.value.as_slice(), 0, res.value.len());
            assert(key@ =~= res@.key);
            assert(value@ =~= res@.value);
            self.notices.push(ClientNotice::ReadSucceeded { key, value });
        }
        assert(self@.notices =~= old(self)@.notices + spec_read_notices(res@));
        Ok(())
    }

    /// Takes the peers that came for the writers the client knows.
    fn handle_get_shared_peers_response(&mut self, res: &GetSharedPeersResponse) -> (r: Result<
        (),
        HandlerError,
    >)
        ensures
            final(self)@ == (ClientView {
                shard_state: ClientStateView {
                    write_shard_info: res@.peer_ips,
                    ..old(self)@.shard_state
                },
                ..old(self)@
            }),
            r is Ok,
    {
        self.shard_state.write_shard_info = copy_endpoints(&res.peer_ips);
        Ok(())
    }

    fn handle_write_request(&mut self, _req: &WriteRequest) -> (r: Result<
        WriteResponse,
        HandlerError,
    >)
        ensures
            final(self)@ == old(self)@,
            r == Err::<WriteResponse, HandlerError>(HandlerError::NotImplemented),
    {
        Err(HandlerError::NotImplemented)
    }

    fn handle_read_request(&mut self, _req: &ReadRequest) -> (r: Result<ReadResponse, HandlerError>)
        ensures
            final(self)@ == old(self)@,
            r is Err && r->Err_0 == HandlerError::NotImplemented,
    {
        Err(HandlerError::NotImplemented)
    }

    fn handle_query_version_request(&mut self, _req: &QueryVersionRequest) -> (r: Result<
        QueryVersionResponse,
        HandlerError,
    >)
        ensures
            final(self)@ == old(self)@,
            r == Err::<QueryVersionResponse, HandlerError>(HandlerError::NotImplemented),
    {
        Err(HandlerError::NotImplemented)
    }

    fn handle_get_version_request(&mut self, _req: &GetVersionRequest) -> (r: Result<
        GetVersionResponse,
        HandlerError,
    >)
        ensures
            final(self)@ == old(self)@,
            r is Err && r->Err_0 == HandlerError::NotImplemented,
    {
        Err(HandlerError::NotImplemented)
    }

    fn handle_announce_shard_request(&mut self, _req: &AnnounceShardRequest) -> (r: Result<
        AnnounceShardResponse,
        HandlerError,
    >)
        ensures
            final(self)@ == old(self)@,
            r == Err::<AnnounceShardResponse, HandlerError>(HandlerError::NotImplemented),
    {
        Err(HandlerError::NotImplemented)
    }

    fn handle_get_client_shard_info_request(&mut self, _req: &GetClientShardInfoRequest) -> (r:
        Result<GetClientShardInfoResponse, HandlerError>)
        ensures
            final(self)@ == old(self)@,
            r is Err && r->Err_0 == HandlerError::NotImplemented,
    {
        Err(HandlerError::NotImplemented)
    }

    fn handle_get_shared_peers_request(&mut self, _req: &GetSharedPeersRequest) -> (r: Result<
        GetSharedPeersResponse,
        HandlerError,
    >)
        ensures
            final(self)@ == old(self)@,
            r is Err && r->Err_0 == HandlerError::NotImplemented,
    {
        Err(HandlerError::NotImplemented)
    }

    fn handle_announce_shard_response(&mut self, _res: &AnnounceShardResponse) -> (r: Result<
        (),
        HandlerError,
    >)
        ensures
            final(self)@ == old(self)@,
            r == Err::<(), HandlerError>(HandlerError::NotImplemented),
    {
        Err(HandlerError::NotImplemented)
    }

    fn handle_query_version_response(&mut self, _res: &QueryVersionResponse) -> (r: Result<
        (),
        HandlerError,
    >)
        ensures
            final(self)@ == old(self)@,
            r == Err::<(), HandlerError>(HandlerError::NotImplemented),
    {
        Err(HandlerError::NotImplemented)
    }

    fn handle_get_version_response(&mut self, _res: &GetVersionResponse) -> (r: Result<
        (),
        HandlerError,
    >)
        ensures
            final(self)@ == old(self)@,
            r == Err::<(), HandlerError>(HandlerError::NotImplemented),
    {
        Err(HandlerError::NotImplemented)
    }
}

} // verus!
