//! The write shard: it takes writes, numbers them and keeps them in order.
//!
//! Every accepted write gets the next version and goes to the end of the
//! log, so the version is the log's length at all times and entry `i` of the
//! log is the `i`-th accepted write.

use crate::io::router::{HandlerError, RouterHandler};
use crate::messages::payload::PayloadView;
use crate::messages::requests::announce_shard_request::{AnnounceShardRequest, ShardType};
use crate::messages::requests::get_client_shard_info_request::GetClientShardInfoRequest;
use crate::messages::requests::get_shared_peers_request::GetSharedPeersRequest;
use crate::messages::requests::get_version_request::GetVersionRequest;
use crate::messages::requests::query_version_request::QueryVersionRequest;
use crate::messages::requests::read_request::ReadRequest;
use crate::messages::requests::write_request::{WriteRequest, WriteRequestView};
use crate::messages::responses::announce_shard_response::AnnounceShardResponse;
use crate::messages::responses::get_client_shard_info_response::GetClientShardInfoResponse;
use crate::messages::responses::get_shared_peers_response::GetSharedPeersResponse;
use crate::messages::responses::get_version_response::GetVersionResponse;
use crate::messages::responses::query_version_response::QueryVersionResponse;
use crate::messages::responses::read_response::ReadResponse;
use crate::messages::responses::write_response::{WriteResponse, WriteResponseError};
use crate::store::{replay, spec_get_version, Entry, Store};
use crate::utils::text::parse_text;
use vstd::prelude::*;
use vstd::utf8::{decode_utf8, valid_utf8};

verus! {

/// The state of a write shard.
pub struct WriteShard {
    store: Store,
    current_version: u64,
    writer_slot: u16,
}

/// A write shard, as contracts see it. Its version is the length of `log`.
pub struct WriteShardView {
    pub log: Seq<Entry>,
    pub writer_slot: u16,
}

impl WriteShardView {
    /// The highest version the shard has given out.
    pub open spec fn version(self) -> nat {
        self.log.len()
    }

    /// The latest value of every key.
    pub open spec fn data(self) -> Map<Seq<char>, Seq<char>> {
        replay(self.log)
    }
}

impl View for WriteShard {
    type V = WriteShardView;

    closed spec fn view(&self) -> WriteShardView {
        WriteShardView { log: self.store.log(), writer_slot: self.writer_slot }
    }
}

/// A write can be stored: its key and its value are text.
pub open spec fn is_text(req: WriteRequestView) -> bool {
    valid_utf8(req.key) && valid_utf8(req.value)
}

/// The log entry that a write makes.
pub open spec fn entry_of(req: WriteRequestView) -> Entry {
    (decode_utf8(req.key), decode_utf8(req.value))
}

/// The shard after a write, and the answer to it.
///
/// A write whose key or value is not text is refused and changes nothing. A
/// write that would take the version past what a `u64` holds is answered
/// with the failure code and changes nothing. Any other write is appended
/// and answered with code 0.
pub open spec fn spec_write(state: WriteShardView, req: WriteRequestView) -> (
    WriteShardView,
    Result<WriteResponse, HandlerError>,
) {
    if !is_text(req) {
        (state, Err(HandlerError::InvalidUtf8))
    } else if state.log.len() >= u64::MAX {
        (state, Ok(WriteResponse { error: WriteResponseError::Error.code() }))
    } else {
        (
            WriteShardView { log: state.log.push(entry_of(req)), writer_slot: state.writer_slot },
            Ok(WriteResponse { error: WriteResponseError::NoError.code() }),
        )
    }
}

/// The shard after a row of writes, taken in order.
pub open spec fn spec_write_all(state: WriteShardView, reqs: Seq<WriteRequestView>)
    -> WriteShardView
    decreases reqs.len(),
{
    if reqs.len() == 0 {
        state
    } else {
        spec_write(spec_write_all(state, reqs.drop_last()), reqs.last()).0
    }
}

/// The entries of the writes in `reqs` that are text, in order.
pub open spec fn text_entries(reqs: Seq<WriteRequestView>) -> Seq<Entry>
    decreases reqs.len(),
{
    if reqs.len() == 0 {
        Seq::empty()
    } else if is_text(reqs.last()) {
        text_entries(reqs.drop_last()).push(entry_of(reqs.last()))
    } else {
        text_entries(reqs.drop_last())
    }
}

pub proof fn lemma_text_entries_len(reqs: Seq<WriteRequestView>)
    ensures
        text_entries(reqs).len() <= reqs.len(),
    decreases reqs.len(),
{
    if reqs.len() > 0 {
        lemma_text_entries_len(reqs.drop_last());
    }
}

/// Writer monotonicity: after any row of writes the log is what it was,
/// followed by the accepted writes in the order in which they came, and
/// nothing else. The version, being the log's length, has grown by their
/// number.
pub proof fn lemma_writes_are_logged(state: WriteShardView, reqs: Seq<WriteRequestView>)
    requires
        state.log.len() + reqs.len() <= u64::MAX,
    ensures
        spec_write_all(state, reqs).log == state.log + text_entries(reqs),
        spec_write_all(state, reqs).version() == state.version() + text_entries(reqs).len(),
        spec_write_all(state, reqs).writer_slot == state.writer_slot,
    decreases reqs.len(),
{
    if reqs.len() > 0 {
        let front = reqs.drop_last();
        lemma_writes_are_logged(state, front);
        lemma_text_entries_len(front);
        let mid = spec_write_all(state, front);
        if is_text(reqs.last()) {
            assert(mid.log.push(entry_of(reqs.last())) =~= state.log + text_entries(reqs));
        }
    } else {
        assert(state.log + text_entries(reqs) =~= state.log);
    }
}

impl WriteShard {
    /// A shard with an empty log, at version 0.
    pub fn new() -> (shard: Self)
        ensures
            shard.inv(),
            shard@.log == Seq::<Entry>::empty(),
            shard@.writer_slot == 0,
    {
        WriteShard { store: Store::new(), current_version: 0, writer_slot: 0 }
    }

    /// The highest version the shard has given out: the length of its log.
    pub fn version(&self) -> (v: u64)
        requires
            self.inv(),
        ensures
            v == self@.version(),
    {
        self.current_version
    }

    /// The slot that the info server last answered an announce with.
    pub fn writer_slot(&self) -> (slot: u16)
        ensures
            slot == self@.writer_slot,
    {
        self.writer_slot
    }

    /// The latest value written under a key.
    pub fn get(&self, key: &str) -> (value: Option<&String>)
        requires
            self.inv(),
        ensures
            match value {
                Some(v) => self@.data().contains_key(key@) && v@ == self@.data()[key@],
                None => !self@.data().contains_key(key@),
            },
    {
        self.store.get(key)
    }

    /// The announce that a write shard sends to the info server.
    pub fn announce_request(shard_id: u128, ip: u128, port: u16) -> (req: AnnounceShardRequest)
        ensures
            req == (AnnounceShardRequest { shard_type: ShardType::WriteShard, shard_id, ip, port }),
    {
        AnnounceShardRequest { shard_type: ShardType::WriteShard, shard_id, ip, port }
    }
}

impl RouterHandler for WriteShard {
    /// The version is the log's length, and the map is the log replayed.
    closed spec fn inv(&self) -> bool {
        self.store.wf() && self.current_version == self.store.log().len()
    }

    /// A write is handled as `spec_write` says. Requests for the version and
    /// for one version of the log are answered from the log and change
    /// nothing. The answer to the shard's announce leaves its slot with the
    /// shard. A write shard has no use for any other message.
    open spec fn handles(
        pre: Self,
        message: PayloadView,
        post: Self,
        outcome: Result<Option<PayloadView>, HandlerError>,
    ) -> bool {
        match message {
            PayloadView::WriteRequest(req) => {
                &&& post@ == spec_write(pre@, req).0
                &&& outcome == match spec_write(pre@, req).1 {
                    Ok(res) => Ok(Some(PayloadView::WriteResponse(res))),
                    Err(e) => Err(e),
                }
            },
            PayloadView::GetVersionRequest(req) => {
                &&& post@ == pre@
                &&& outcome == Ok::<Option<PayloadView>, HandlerError>(
                    Some(PayloadView::GetVersionResponse(spec_get_version(pre@.log, req.version))),
                )
            },
            PayloadView::QueryVersionRequest(_) => {
                &&& post@ == pre@
                &&& outcome matches Ok(Some(PayloadView::QueryVersionResponse(res)))
                &&& res.version == pre@.version()
            },
            PayloadView::AnnounceShardResponse(res) => {
                &&& post@ == (WriteShardView { log: pre@.log, writer_slot: res.writer_number })
                &&& outcome == Ok::<Option<PayloadView>, HandlerError>(None)
            },
            _ => post@ == pre@ && outcome == Err::<Option<PayloadView>, HandlerError>(
                HandlerError::NotImplemented,
            ),
        }
    }

    /// Gives the write the next version and appends it to the log.
    fn handle_write_request(&mut self, req: &WriteRequest) -> (r: Result<
        WriteResponse,
        HandlerError,
    >)
        ensures
            final(self)@ == spec_write(old(self)@, req@).0,
            r == spec_write(old(self)@, req@).1,
    {
        let key = match parse_text(req.key.as_slice()) {
            Some(key) => key,
            None => {
                return Err(HandlerError::InvalidUtf8);
            },
        };
        let value = match parse_text(req.value.as_slice()) {
            Some(value) => value,
            None => {
                return Err(HandlerError::InvalidUtf8);
            },
        };
        if self.current_version == u64::MAX {
            return Ok(WriteResponse { error: WriteResponseError::Error.as_u8() });
        }
        self.current_version = self.current_version + 1;
        self.store.append(key, value);
        Ok(WriteResponse { error: WriteResponseError::NoError.as_u8() })
    }

    /// Answers with the entry of a version from 1 to the current one, and
    /// with an error for any other.
    fn handle_get_version_request(&mut self, req: &GetVersionRequest) -> (r: Result<
        GetVersionResponse,
        HandlerError,
    >)
        ensures
            final(self)@ == old(self)@,
            r matches Ok(res) && res@ == spec_get_version(old(self)@.log, req.version),
    {
        Ok(self.store.get_version(req.version))
    }

    /// Answers with the current version, 0 for an empty log.
    fn handle_query_version_request(&mut self, _req: &QueryVersionRequest) -> (r: Result<
        QueryVersionResponse,
        HandlerError,
    >)
        ensures
            final(self)@ == old(self)@,
            r matches Ok(res) && res.version == old(self)@.version(),
    {
        Ok(QueryVersionResponse { version: self.current_version })
    }

    /// Keeps the slot that the info server assigned.
    fn handle_announce_shard_response(&mut self, res: &AnnounceShardResponse) -> (r: Result<
        (),
        HandlerError,
    >)
        ensures
            final(self)@ == (WriteShardView {
                log: old(self)@.log,
                writer_slot: res.writer_number,
            }),
            r is Ok,
    {
        self.writer_slot = res.writer_number;
        Ok(())
    }

    fn handle_announce_shard_request(&mut self, _req: &AnnounceShardRequest) -> (r: Result<
        AnnounceShardResponse,
        HandlerError,
    >)
        ensures
            final(self)@ == old(self)@,
            r == Err::<AnnounceShardResponse, HandlerError>(HandlerError::NotImplemented),
    {
        Err(HandlerError::NotImplemented)
    }

    fn handle_get_client_shard_info_request(&mut self, _req: &GetClientShardInfoRequest) -> (r:
        Result<GetClientShardInfoResponse, HandlerError>)
        ensures
            final(self)@ == old(self)@,
            r is Err && r->Err_0 == HandlerError::NotImplemented,
    {
        Err(HandlerError::NotImplemented)
    }

    fn handle_read_request(&mut self, _req: &ReadRequest) -> (r: Result<ReadResponse, HandlerError>)
        ensures
            final(self)@ == old(self)@,
            r is Err && r->Err_0 == HandlerError::NotImplemented,
    {
        Err(HandlerError::NotImplemented)
    }

    fn handle_get_shared_peers_request(&mut self, _req: &GetSharedPeersRequest) -> (r: Result<
        GetSharedPeersResponse,
        HandlerError,
    >)
        ensures
            final(self)@ == old(self)@,
            r is Err && r->Err_0 == HandlerError::NotImplemented,
    {
        Err(HandlerError::NotImplemented)
    }

    fn handle_get_client_shard_info_response(&mut self, _res: &GetClientShardInfoResponse) -> (r:
        Result<(), HandlerError>)
        ensures
            final(self)@ == old(self)@,
            r == Err::<(), HandlerError>(HandlerError::NotImplemented),
    {
        Err(HandlerError::NotImplemented)
    }

    fn handle_query_version_response(&mut self, _res: &QueryVersionResponse) -> (r: Result<
        (),
        HandlerError,
    >)
        ensures
            final(self)@ == old(self)@,
            r == Err::<(), HandlerError>(HandlerError::NotImplemented),
    {
        Err(HandlerError::NotImplemented)
    }

    fn handle_get_version_response(&mut self, _res: &GetVersionResponse) -> (r: Result<
        (),
        HandlerError,
    >)
        ensures
            final(self)@ == old(self)@,
            r == Err::<(), HandlerError>(HandlerError::NotImplemented),
    {
        Err(HandlerError::NotImplemented)
    }

    fn handle_read_response(&mut self, _res: &ReadResponse) -> (r: Result<(), HandlerError>)
        ensures
            final(self)@ == old(self)@,
            r == Err::<(), HandlerError>(HandlerError::NotImplemented),
    {
        Err(HandlerError::NotImplemented)
    }

    fn handle_write_response(&mut self, _res: &WriteResponse) -> (r: Result<(), HandlerError>)
        ensures
            final(self)@ == old(self)@,
            r == Err::<(), HandlerError>(HandlerError::NotImplemented),
    {
        Err(HandlerError::NotImplemented)
    }

    fn handle_get_shared_peers_response(&mut self, _res: &GetSharedPeersResponse) -> (r: Result<
        (),
        HandlerError,
    >)
        ensures
            final(self)@ == old(self)@,
            r == Err::<(), HandlerError>(HandlerError::NotImplemented),
    {
        Err(HandlerError::NotImplemented)
    }
}

} // verus!
