//! The info server: the directory of writer slots and of the readers
//! attached to each.
//!
//! The directory is a fixed row of slots, one per writer. A shard is known
//! by its id. An announce with a known id refreshes that shard's endpoint and
//! answers the slot it sits in; one with a new id takes the lowest empty slot
//! (a writer) or joins the slot with the fewest readers, the lowest of them
//! on a tie (a reader). Nothing ever leaves the directory, and nothing in it
//! moves.

use crate::io::router::{HandlerError, RouterHandler};
use crate::messages::payload::PayloadView;
use crate::messages::requests::announce_shard_request::{
    AnnounceMessageType, AnnounceShardRequest, ShardType,
};
use crate::messages::requests::get_client_shard_info_request::GetClientShardInfoRequest;
use crate::messages::requests::get_shared_peers_request::GetSharedPeersRequest;
use crate::messages::requests::get_version_request::GetVersionRequest;
use crate::messages::requests::query_version_request::QueryVersionRequest;
use crate::messages::requests::read_request::ReadRequest;
use crate::messages::requests::write_request::WriteRequest;
use crate::messages::responses::announce_shard_response::AnnounceShardResponse;
use crate::messages::responses::get_client_shard_info_response::{
    GetClientShardInfoResponse, GetClientShardInfoResponseView,
};
use crate::messages::responses::get_shared_peers_response::{
    GetSharedPeersResponse, GetSharedPeersResponseView,
};
use crate::messages::responses::get_version_response::GetVersionResponse;
use crate::messages::responses::query_version_response::QueryVersionResponse;
use crate::messages::responses::read_response::ReadResponse;
use crate::messages::responses::write_response::WriteResponse;
use crate::utils::random::choose_one;
use crate::utils::search::{
    first_least, first_true, lemma_first_least, lemma_first_least_is, lemma_first_true,
    lemma_first_true_is,
};
use vstd::prelude::*;

verus! {

/// What the directory keeps of a shard: where it is, and who it is.
#[derive(Debug, Clone, Copy, PartialEq, Eq, Structural)]
pub struct AnnounceInfo {
    pub ip: u128,
    pub port: u16,
    pub announce_id: u128,
}

impl AnnounceInfo {
    /// Where the shard listens.
    pub open spec fn endpoint(self) -> (u128, u16) {
        (self.ip, self.port)
    }

    /// The record that an announce asks for.
    pub open spec fn of(req: AnnounceShardRequest) -> AnnounceInfo {
        AnnounceInfo { ip: req.ip, port: req.port, announce_id: req.shard_id }
    }
}

/// One slot: at most one writer, and the readers attached to it in the order
/// in which they came.
#[derive(Debug, Clone)]
pub struct ReaderWriterBlock {
    pub writer: Option<AnnounceInfo>,
    pub readers: Vec<AnnounceInfo>,
}

pub struct BlockView {
    pub writer: Option<AnnounceInfo>,
    pub readers: Seq<AnnounceInfo>,
}

impl View for ReaderWriterBlock {
    type V = BlockView;

    open spec fn view(&self) -> BlockView {
        BlockView { writer: self.writer, readers: self.readers@ }
    }
}

impl BlockView {
    /// A slot that nobody has taken.
    pub open spec fn empty() -> BlockView {
        BlockView { writer: None, readers: Seq::empty() }
    }

    /// The slot's writer has the id.
    pub open spec fn writer_is(self, id: u128) -> bool {
        self.writer matches Some(w) && w.announce_id == id
    }

    /// Which readers have the id.
    pub open spec fn reader_flags(self, id: u128) -> Seq<bool> {
        Seq::new(self.readers.len(), |j: int| self.readers[j].announce_id == id)
    }

    /// The first reader with the id, or the number of readers if none has it.
    pub open spec fn reader_of(self, id: u128) -> int {
        first_true(self.reader_flags(id))
    }

    /// The id is the writer's or a reader's.
    pub open spec fn holds(self, id: u128) -> bool {
        self.writer_is(id) || self.reader_of(id) < self.readers.len()
    }

    /// The slot after an announce by a shard it holds: the writer's record is
    /// replaced if the id is the writer's, else that of the first reader with
    /// the id. A slot that does not hold the id stays as it is.
    pub open spec fn refresh(self, req: AnnounceShardRequest) -> BlockView {
        if self.writer_is(req.shard_id) {
            BlockView { writer: Some(AnnounceInfo::of(req)), readers: self.readers }
        } else if self.reader_of(req.shard_id) < self.readers.len() {
            BlockView {
                writer: self.writer,
                readers: self.readers.update(self.reader_of(req.shard_id), AnnounceInfo::of(req)),
            }
        } else {
            self
        }
    }

    /// The slot with `record` as its writer.
    pub open spec fn with_writer(self, record: AnnounceInfo) -> BlockView {
        BlockView { writer: Some(record), readers: self.readers }
    }

    /// The slot with `record` as its newest reader.
    pub open spec fn with_reader(self, record: AnnounceInfo) -> BlockView {
        BlockView { writer: self.writer, readers: self.readers.push(record) }
    }

    /// One of the slot's readers listens at `endpoint`.
    pub open spec fn has_reader_at(self, endpoint: (u128, u16)) -> bool {
        exists|j: int|
            0 <= j < self.readers.len() && #[trigger] self.readers[j].endpoint() == endpoint
    }

    /// The slot can serve a client: it has a writer and a reader.
    pub open spec fn complete(self) -> bool {
        self.writer is Some && self.readers.len() > 0
    }

    /// The endpoints of the slot: the writer's first, if there is one, then
    /// the readers' in the order in which they came.
    pub open spec fn peers(self) -> Seq<(u128, u16)> {
        let readers = Seq::new(self.readers.len(), |j: int| self.readers[j].endpoint());
        match self.writer {
            Some(w) => seq![w.endpoint()] + readers,
            None => readers,
        }
    }
}

/// Which slots hold the id.
pub open spec fn holder_flags(slots: Seq<BlockView>, id: u128) -> Seq<bool> {
    Seq::new(slots.len(), |i: int| slots[i].holds(id))
}

/// The first slot that holds the id, or the number of slots if none does.
pub open spec fn slot_of(slots: Seq<BlockView>, id: u128) -> int {
    first_true(holder_flags(slots, id))
}

/// The directory has a record with the id.
pub open spec fn knows(slots: Seq<BlockView>, id: u128) -> bool {
    slot_of(slots, id) < slots.len()
}

/// Whether an announce with the id is a shard's first or a repetition.
pub open spec fn announce_kind(slots: Seq<BlockView>, id: u128) -> AnnounceMessageType {
    if knows(slots, id) {
        AnnounceMessageType::ReAnnounce
    } else {
        AnnounceMessageType::NewAnnounce
    }
}

/// Which slots have no writer.
pub open spec fn vacancy_flags(slots: Seq<BlockView>) -> Seq<bool> {
    Seq::new(slots.len(), |i: int| slots[i].writer is None)
}

/// The first slot without a writer, or the number of slots if all have one.
pub open spec fn first_vacant(slots: Seq<BlockView>) -> int {
    first_true(vacancy_flags(slots))
}

/// How many readers each slot has.
pub open spec fn loads(slots: Seq<BlockView>) -> Seq<nat> {
    Seq::new(slots.len(), |i: int| slots[i].readers.len())
}

/// The first of the slots with the fewest readers.
pub open spec fn least_loaded(slots: Seq<BlockView>) -> int {
    first_least(loads(slots))
}

/// The directory after an announce, and the answer to it.
///
/// A known shard keeps its slot and has its endpoint refreshed. A new writer
/// takes the first slot without a writer and is refused when there is none.
/// A new reader joins the first of the slots with the fewest readers and is
/// refused when there is no slot. A refusal leaves the directory as it was.
pub open spec fn spec_announce(slots: Seq<BlockView>, req: AnnounceShardRequest) -> (
    Seq<BlockView>,
    Result<u16, HandlerError>,
) {
    if knows(slots, req.shard_id) {
        let i = slot_of(slots, req.shard_id);
        (slots.update(i, slots[i].refresh(req)), Ok(i as u16))
    } else {
        match req.shard_type {
            ShardType::WriteShard => {
                let i = first_vacant(slots);
                if i < slots.len() {
                    (slots.update(i, slots[i].with_writer(AnnounceInfo::of(req))), Ok(i as u16))
                } else {
                    (slots, Err(HandlerError::WriterSlotsExhausted))
                }
            },
            ShardType::ReadShard => {
                if slots.len() == 0 {
                    (slots, Err(HandlerError::NoWriterSlots))
                } else {
                    let i = least_loaded(slots);
                    (slots.update(i, slots[i].with_reader(AnnounceInfo::of(req))), Ok(i as u16))
                }
            },
        }
    }
}

/// The peers of a slot, and none for a slot that the directory does not have.
pub open spec fn spec_peers(slots: Seq<BlockView>, slot: u16) -> Seq<(u128, u16)> {
    if slot < slots.len() {
        slots[slot as int].peers()
    } else {
        Seq::empty()
    }
}

/// Every slot has a writer and a reader.
pub open spec fn all_complete(slots: Seq<BlockView>) -> bool {
    forall|i: int| 0 <= i < slots.len() ==> (#[trigger] slots[i]).complete()
}

/// One row of a client's view: a slot's writer and the reader chosen for it,
/// where there are both.
pub open spec fn spec_view_row(writer: Option<AnnounceInfo>, picked: Option<AnnounceInfo>)
    -> Option<((u128, u16), (u128, u16))> {
    match (writer, picked) {
        (Some(w), Some(r)) => Some((w.endpoint(), r.endpoint())),
        _ => None,
    }
}

/// `view` is a client's view of the directory: every slot's writer and one
/// of its readers, slot by slot, if every slot has both, and the empty view
/// if one lacks either.
pub open spec fn is_client_view(slots: Seq<BlockView>, view: GetClientShardInfoResponseView)
    -> bool {
    if all_complete(slots) {
        &&& view.num_write_shards == slots.len()
        &&& view.write_shard_info.len() == slots.len()
        &&& view.read_shard_info.len() == slots.len()
        &&& forall|i: int|
            0 <= i < slots.len() ==> #[trigger] view.write_shard_info[i]
                == slots[i].writer.unwrap().endpoint()
        &&& forall|i: int|
            0 <= i < slots.len() ==> slots[i].has_reader_at(#[trigger] view.read_shard_info[i])
    } else {
        view == GetClientShardInfoResponseView::empty()
    }
}


impl ReaderWriterBlock {
    /// A slot that nobody has taken.
    pub fn new() -> (block: Self)
        ensures
            block@ == BlockView::empty(),
    {
        ReaderWriterBlock { writer: None, readers: Vec::new() }
    }

    /// The place of the first reader with the id.
    pub fn find_reader(&self, id: u128) -> (found: Option<usize>)
        ensures
            match found {
                Some(j) => j < self@.readers.len() && j == self@.reader_of(id),
                None => self@.reader_of(id) == self@.readers.len(),
            },
    {
        let n = self.readers.len();
        let mut j: usize = 0;
        while j < n
            invariant
                j <= n == self@.readers.len(),
                forall|k: int| 0 <= k < j ==> !self@.reader_flags(id)[k],
            decreases n - j,
        {
            if self.readers[j].announce_id == id {
                proof {
                    lemma_first_true_is(self@.reader_flags(id), j as int);
                }
                return Some(j);
            }
            j = j + 1;
        }
        proof {
            lemma_first_true_is(self@.reader_flags(id), n as int);
        }
        None
    }

    /// Whether the slot holds the id.
    pub fn holds(&self, id: u128) -> (held: bool)
        ensures
            held == self@.holds(id),
    {
        match self.writer {
            Some(w) => if w.announce_id == id {
                return true;
            },
            None => {},
        }
        self.find_reader(id).is_some()
    }

    /// Takes the endpoint of an announce into the record of the shard that
    /// sent it, if the slot holds that shard.
    pub fn refresh(&mut self, req: &AnnounceShardRequest) -> (held: bool)
        ensures
            held == old(self)@.holds(req.shard_id),
            final(self)@ == old(self)@.refresh(*req),
    {
        let record = AnnounceInfo { ip: req.ip, port: req.port, announce_id: req.shard_id };
        match self.writer {
            Some(w) => if w.announce_id == req.shard_id {
                self.writer = Some(record);
                return true;
            },
            None => {},
        }
        match self.find_reader(req.shard_id) {
            Some(j) => {
                self.readers[j] = record;
                true
            },
            None => false,
        }
    }

    /// The endpoints of the slot, the writer's first.
    pub fn peers(&self) -> (list: Vec<(u128, u16)>)
        ensures
            list@ == self@.peers(),
    {
        let mut list: Vec<(u128, u16)> = Vec::new();
        match self.writer {
            Some(w) => {
                list.push((w.ip, w.port));
            },
            None => {},
        }
        let ghost head = list@;
        let n = self.readers.len();
        let mut j: usize = 0;
        while j < n
            invariant
                j <= n == self@.readers.len(),
                list@ == head + Seq::new(j as nat, |k: int| self@.readers[k].endpoint()),
            decreases n - j,
        {
            let r = self.readers[j];
            list.push((r.ip, r.port));
            assert(list@ =~= head + Seq::new((j + 1) as nat, |k: int| self@.readers[k].endpoint()));
            j = j + 1;
        }
        assert(list@ =~= self@.peers());
        list
    }

    /// One row of a client's view, from the slot's writer and the reader that
    /// was chosen for it: both endpoints, or nothing where either is missing.
    pub fn view_row(&self, picked: Option<&AnnounceInfo>) -> (row: Option<
        ((u128, u16), (u128, u16)),
    >)
        ensures
            row == spec_view_row(
                self@.writer,
                match picked {
                    Some(r) => Some(*r),
                    None => None,
                },
            ),
    {
        match self.writer {
            Some(w) => match picked {
                Some(r) => Some(((w.ip, w.port), (r.ip, r.port))),
                None => None,
            },
            None => None,
        }
    }
}


/// How many writer slots an info server has unless it is told otherwise.
pub const DEFAULT_WRITE_SHARDS: u16 = 4;

/// What an info server is started with.
#[derive(Debug, Clone, Copy, PartialEq, Eq, Structural)]
pub struct InfoArgs {
    pub write_shards: u16,
}

impl Default for InfoArgs {
    fn default() -> (args: Self)
        ensures
            args.write_shards == DEFAULT_WRITE_SHARDS,
    {
        InfoArgs { write_shards: DEFAULT_WRITE_SHARDS }
    }
}

/// The info server's state: the row of writer slots.
#[derive(Debug, Clone)]
pub struct InfoRouter {
    reader_writers: Vec<ReaderWriterBlock>,
}

impl View for InfoRouter {
    type V = Seq<BlockView>;

    closed spec fn view(&self) -> Seq<BlockView> {
        Seq::new(self.reader_writers@.len(), |i: int| self.reader_writers@[i]@)
    }
}

impl InfoRouter {
    /// A directory of `num_writers` empty slots.
    pub fn new(num_writers: u16) -> (router: Self)
        ensures
            router.inv(),
            router@ == Seq::new(num_writers as nat, |i: int| BlockView::empty()),
    {
        let mut reader_writers: Vec<ReaderWriterBlock> = Vec::new();
        let mut i: u16 = 0;
        while i < num_writers
            invariant
                i <= num_writers,
                reader_writers@.len() == i,
                forall|k: int|
                    0 <= k < i ==> (#[trigger] reader_writers@[k])@ == BlockView::empty(),
            decreases num_writers - i,
        {
            reader_writers.push(ReaderWriterBlock::new());
            i = i + 1;
        }
        let router = InfoRouter { reader_writers };
        assert(router@ =~= Seq::new(num_writers as nat, |i: int| BlockView::empty()));
        router
    }

    /// How many slots the directory has.
    pub fn num_writers(&self) -> (n: u16)
        requires
            self.inv(),
        ensures
            n == self@.len(),
    {
        self.reader_writers.len() as u16
    }

    /// Whether an announce with the id would be a first or a repetition.
    pub fn announce_kind(&self, shard_id: u128) -> (kind: AnnounceMessageType)
        ensures
            kind == announce_kind(self@, shard_id),
    {
        let n = self.reader_writers.len();
        let mut i: usize = 0;
        while i < n
            invariant
                i <= n == self@.len(),
                forall|k: int| 0 <= k < i ==> !holder_flags(self@, shard_id)[k],
            decreases n - i,
        {
            if self.reader_writers[i].holds(shard_id) {
                proof {
                    lemma_first_true_is(holder_flags(self@, shard_id), i as int);
                }
                return AnnounceMessageType::ReAnnounce;
            }
            i = i + 1;
        }
        proof {
            lemma_first_true_is(holder_flags(self@, shard_id), n as int);
        }
        AnnounceMessageType::NewAnnounce
    }
}


/// What an announce is answered with.
pub open spec fn announce_answer(outcome: Result<u16, HandlerError>) -> Result<
    AnnounceShardResponse,
    HandlerError,
> {
    match outcome {
        Ok(slot) => Ok(AnnounceShardResponse { writer_number: slot }),
        Err(e) => Err(e),
    }
}

impl RouterHandler for InfoRouter {
    /// The row of slots is short enough for a slot's index to be a `u16`.
    closed spec fn inv(&self) -> bool {
        self.reader_writers@.len() <= u16::MAX
    }

    /// An announce is handled as `spec_announce` says. A request for the
    /// clients' view is answered with a view of the directory, and one for
    /// the peers of a slot with those peers; neither changes the directory.
    /// The info server has no use for any other message.
    open spec fn handles(
        pre: Self,
        message: PayloadView,
        post: Self,
        outcome: Result<Option<PayloadView>, HandlerError>,
    ) -> bool {
        match message {
            PayloadView::AnnounceShardRequest(req) => {
                &&& post@ == spec_announce(pre@, req).0
                &&& outcome == match spec_announce(pre@, req).1 {
                    Ok(slot) => Ok(
                        Some(
                            PayloadView::AnnounceShardResponse(
                                AnnounceShardResponse { writer_number: slot },
                            ),
                        ),
                    ),
                    Err(e) => Err(e),
                }
            },
            PayloadView::GetClientShardInfoRequest(_) => {
                &&& post@ == pre@
                &&& outcome matches Ok(Some(PayloadView::GetClientShardInfoResponse(view)))
                &&& is_client_view(pre@, view)
            },
            PayloadView::GetSharedPeersRequest(req) => {
                &&& post@ == pre@
                &&& outcome == Ok::<Option<PayloadView>, HandlerError>(
                    Some(
                        PayloadView::GetSharedPeersResponse(
                            GetSharedPeersResponseView {
                                peer_ips: spec_peers(pre@, req.writer_number),
                            },
                        ),
                    ),
                )
            },
            _ => post@ == pre@ && outcome == Err::<Option<PayloadView>, HandlerError>(
                HandlerError::NotImplemented,
            ),
        }
    }

    /// Registers a shard, or refreshes the endpoint of one that is known.
    fn handle_announce_shard_request(&mut self, req: &AnnounceShardRequest) -> (r: Result<
        AnnounceShardResponse,
        HandlerError,
    >)
        ensures
            final(self)@ == spec_announce(old(self)@, *req).0,
            r == announce_answer(spec_announce(old(self)@, *req).1),
    {
        let n = self.reader_writers.len();
        let ghost before = self@;
        let mut i: usize = 0;
        while i < n
            invariant
                i <= n == before.len() <= u16::MAX,
                self.reader_writers@.len() == n,
                self@ == before,
                before == old(self)@,
                forall|k: int| 0 <= k < i ==> !holder_flags(before, req.shard_id)[k],
            decreases n - i,
        {
            let held = self.reader_writers[i].refresh(req);
            if held {
                proof {
                    lemma_first_true_is(holder_flags(before, req.shard_id), i as int);
                    assert(self@ =~= before.update(i as int, before[i as int].refresh(*req)));
                }
                return Ok(AnnounceShardResponse { writer_number: i as u16 });
            }
            assert(self@ =~= before);
            i = i + 1;
        }
        proof {
            lemma_first_true_is(holder_flags(before, req.shard_id), n as int);
        }
        let record = AnnounceInfo { ip: req.ip, port: req.port, announce_id: req.shard_id };
        match req.shard_type {
            ShardType::WriteShard => {
                let mut i: usize = 0;
                while i < n
                    invariant
                        i <= n == before.len() <= u16::MAX,
                        self.reader_writers@.len() == n,
                        self@ == before,
                        before == old(self)@,
                        !knows(before, req.shard_id),
                        req.shard_type == ShardType::WriteShard,
                        record == AnnounceInfo::of(*req),
                        forall|k: int| 0 <= k < i ==> !vacancy_flags(before)[k],
                    decreases n - i,
                {
                    if self.reader_writers[i].writer.is_none() {
                        self.reader_writers[i].writer = Some(record);
                        proof {
                            lemma_first_true_is(vacancy_flags(before), i as int);
                            assert(self@ =~= before.update(
                                i as int,
                                before[i as int].with_writer(record),
                            ));
                        }
                        return Ok(AnnounceShardResponse { writer_number: i as u16 });
                    }
                    i = i + 1;
                }
                proof {
                    lemma_first_true_is(vacancy_flags(before), n as int);
                }
                Err(HandlerError::WriterSlotsExhausted)
            },
            ShardType::ReadShard => {
                if n == 0 {
                    return Err(HandlerError::NoWriterSlots);
                }
                let mut best: usize = 0;
                let mut i: usize = 1;
                while i < n
                    invariant
                        1 <= i <= n == before.len() <= u16::MAX,
                        self.reader_writers@.len() == n,
                        self@ == before,
                        best < i,
                        forall|k: int|
                            0 <= k < i ==> loads(before)[best as int] <= loads(before)[k],
                        forall|k: int|
                            0 <= k < best ==> loads(before)[best as int] < loads(before)[k],
                    decreases n - i,
                {
                    let load = self.reader_writers[i].readers.len();
                    if load < self.reader_writers[best].readers.len() {
                        best = i;
                    }
                    i = i + 1;
                }
                proof {
                    lemma_first_least_is(loads(before), best as int);
                }
                self.reader_writers[best].readers.push(record);
                assert(self@ =~= before.update(
                    best as int,
                    before[best as int].with_reader(record),
                ));
                Ok(AnnounceShardResponse { writer_number: best as u16 })
            },
        }
    }

    /// Builds a client's view: every slot's writer and one of its readers,
    /// picked at random, or the empty view if a slot lacks either.
    ///
    /// A view with a shard in it is therefore a view of a directory in which
    /// every slot has a writer and at least one reader.
    fn handle_get_client_shard_info_request(&mut self, _req: &GetClientShardInfoRequest) -> (r:
        Result<GetClientShardInfoResponse, HandlerError>)
        ensures
            final(self)@ == old(self)@,
            r matches Ok(view) && is_client_view(old(self)@, view@),
            r matches Ok(view) && (view.num_write_shards > 0 ==> all_complete(old(self)@)),
    {
        let n = self.reader_writers.len();
        let mut writers: Vec<(u128, u16)> = Vec::new();
        let mut readers: Vec<(u128, u16)> = Vec::new();
        let mut i: usize = 0;
        while i < n
            invariant
                i <= n == self@.len() <= u16::MAX,
                self.reader_writers@.len() == n,
                self@ == old(self)@,
                *self == *old(self),
                writers@.len() == i,
                readers@.len() == i,
                forall|k: int| 0 <= k < i ==> (#[trigger] self@[k]).complete(),
                forall|k: int|
                    0 <= k < i ==> #[trigger] writers@[k] == self@[k].writer.unwrap().endpoint(),
                forall|k: int| 0 <= k < i ==> self@[k].has_reader_at(#[trigger] readers@[k]),
            decreases n - i,
        {
            let block = &self.reader_writers[i];
            let picked = choose_one(block.readers.as_slice());
            match block.view_row(picked) {
                Some((writer, reader)) => {
                    proof {
                        let r = *picked.unwrap();
                        let j = choose|j: int|
                            0 <= j < block@.readers.len() && block@.readers[j] == r;
                        assert(block@.readers[j].endpoint() == reader);
                        assert(self@[i as int] == block@);
                    }
                    writers.push(writer);
                    readers.push(reader);
                },
                None => {
                    proof {
                        assert(self@[i as int] == block@);
                        assert(!self@[i as int].complete());
                    }
                    return Ok(
                        GetClientShardInfoResponse {
                            num_write_shards: 0,
                            write_shard_info: Vec::new(),
                            read_shard_info: Vec::new(),
                        },
                    );
                },
            }
            i = i + 1;
        }
        Ok(
            GetClientShardInfoResponse {
                num_write_shards: n as u16,
                write_shard_info: writers,
                read_shard_info: readers,
            },
        )
    }

    /// Lists the peers of a slot: its writer first, if it has one, then its
    /// readers in the order in which they came. A slot that the directory
    /// does not have has no peers.
    fn handle_get_shared_peers_request(&mut self, req: &GetSharedPeersRequest) -> (r: Result<
        GetSharedPeersResponse,
        HandlerError,
    >)
        ensures
            final(self)@ == old(self)@,
            r matches Ok(res) && res.peer_ips@ == spec_peers(old(self)@, req.writer_number),
    {
        let slot = req.writer_number as usize;
        if slot < self.reader_writers.len() {
            let peer_ips = self.reader_writers[slot].peers();
            Ok(GetSharedPeersResponse { peer_ips })
        } else {
            Ok(GetSharedPeersResponse { peer_ips: Vec::new() })
        }
    }

    fn handle_query_version_request(&mut self, _req: &QueryVersionRequest) -> (r: Result<
        QueryVersionResponse,
        HandlerError,
    >)
        ensures
            final(self)@ == old(self)@,
            r == Err::<QueryVersionResponse, HandlerError>(HandlerError::NotImplemented),
    {
        Err(HandlerError::NotImplemented)
    }

    fn handle_read_request(&mut self, _req: &ReadRequest) -> (r: Result<ReadResponse, HandlerError>)
        ensures
            final(self)@ == old(self)@,
            r is Err && r->Err_0 == HandlerError::NotImplemented,
    {
        Err(HandlerError::NotImplemented)
    }

    fn handle_write_request(&mut self, _req: &WriteRequest) -> (r: Result<
        WriteResponse,
        HandlerError,
    >)
        ensures
            final(self)@ == old(self)@,
            r == Err::<WriteResponse, HandlerError>(HandlerError::NotImplemented),
    {
        Err(HandlerError::NotImplemented)
    }

    fn handle_get_version_request(&mut self, _req: &GetVersionRequest) -> (r: Result<
        GetVersionResponse,
        HandlerError,
    >)
        ensures
            final(self)@ == old(self)@,
            r is Err && r->Err_0 == HandlerError::NotImplemented,
    {
        Err(HandlerError::NotImplemented)
    }

    fn handle_announce_shard_response(&mut self, _res: &AnnounceShardResponse) -> (r: Result<
        (),
        HandlerError,
    >)
        ensures
            final(self)@ == old(self)@,
            r == Err::<(), HandlerError>(HandlerError::NotImplemented),
    {
        Err(HandlerError::NotImplemented)
    }

    fn handle_get_client_shard_info_response(&mut self, _res: &GetClientShardInfoResponse) -> (r:
        Result<(), HandlerError>)
        ensures
            final(self)@ == old(self)@,
            r == Err::<(), HandlerError>(HandlerError::NotImplemented),
    {
        Err(HandlerError::NotImplemented)
    }

    fn handle_query_version_response(&mut self, _res: &QueryVersionResponse) -> (r: Result<
        (),
        HandlerError,
    >)
        ensures
            final(self)@ == old(self)@,
            r == Err::<(), HandlerError>(HandlerError::NotImplemented),
    {
        Err(HandlerError::NotImplemented)
    }

    fn handle_get_version_response(&mut self, _res: &GetVersionResponse) -> (r: Result<
        (),
        HandlerError,
    >)
        ensures
            final(self)@ == old(self)@,
            r == Err::<(), HandlerError>(HandlerError::NotImplemented),
    {
        Err(HandlerError::NotImplemented)
    }

    fn handle_read_response(&mut self, _res: &ReadResponse) -> (r: Result<(), HandlerError>)
        ensures
            final(self)@ == old(self)@,
            r == Err::<(), HandlerError>(HandlerError::NotImplemented),
    {
        Err(HandlerError::NotImplemented)
    }

    fn handle_write_response(&mut self, _res: &WriteResponse) -> (r: Result<(), HandlerError>)
        ensures
            final(self)@ == old(self)@,
            r == Err::<(), HandlerError>(HandlerError::NotImplemented),
    {
        Err(HandlerError::NotImplemented)
    }

    fn handle_get_shared_peers_response(&mut self, _res: &GetSharedPeersResponse) -> (r: Result<
        (),
        HandlerError,
    >)
        ensures
            final(self)@ == old(self)@,
            r == Err::<(), HandlerError>(HandlerError::NotImplemented),
    {
        Err(HandlerError::NotImplemented)
    }
}


/// The directory after a row of announces, taken in order.
pub open spec fn spec_announce_all(slots: Seq<BlockView>, reqs: Seq<AnnounceShardRequest>) -> Seq<
    BlockView,
>
    decreases reqs.len(),
{
    if reqs.len() == 0 {
        slots
    } else {
        spec_announce(spec_announce_all(slots, reqs.drop_last()), reqs.last()).0
    }
}

/// A slot holds the id exactly if its writer or one of its readers has it.
pub proof fn lemma_holds(block: BlockView, id: u128)
    ensures
        block.holds(id) <==> block.writer_is(id) || exists|j: int|
            0 <= j < block.readers.len() && #[trigger] block.readers[j].announce_id == id,
{
    let flags = block.reader_flags(id);
    lemma_first_true(flags);
    if block.reader_of(id) < block.readers.len() {
        assert(flags[block.reader_of(id)]);
        assert(block.readers[block.reader_of(id)].announce_id == id);
    }
    if exists|j: int|
        0 <= j < block.readers.len() && #[trigger] block.readers[j].announce_id == id {
        let j = choose|j: int|
            0 <= j < block.readers.len() && #[trigger] block.readers[j].announce_id == id;
        assert(flags[j]);
    }
}

/// The directory knows the id exactly if one of its slots holds it, and
/// `slot_of` is the first that does.
pub proof fn lemma_slot_of(slots: Seq<BlockView>, id: u128)
    ensures
        0 <= slot_of(slots, id) <= slots.len(),
        knows(slots, id) ==> slots[slot_of(slots, id)].holds(id),
        forall|k: int| 0 <= k < slot_of(slots, id) ==> !(#[trigger] slots[k]).holds(id),
{
    let flags = holder_flags(slots, id);
    lemma_first_true(flags);
    assert forall|k: int| 0 <= k < slot_of(slots, id) implies !(#[trigger] slots[k]).holds(id) by {
        assert(!flags[k]);
    }
    if knows(slots, id) {
        assert(flags[slot_of(slots, id)]);
    }
}

/// A refresh changes endpoints and no id.
proof fn lemma_refresh_keeps_ids(block: BlockView, req: AnnounceShardRequest, id: u128)
    ensures
        block.refresh(req).holds(id) == block.holds(id),
{
    let after = block.refresh(req);
    if block.writer_is(req.shard_id) {
        assert(after.reader_flags(id) =~= block.reader_flags(id));
    } else if block.reader_of(req.shard_id) < block.readers.len() {
        let at = block.reader_of(req.shard_id);
        lemma_first_true(block.reader_flags(req.shard_id));
        assert(block.reader_flags(req.shard_id)[at]);
        assert(after.reader_flags(id) =~= block.reader_flags(id));
    }
}

/// A new record changes nothing for the ids of other shards.
proof fn lemma_new_record_keeps_others(block: BlockView, record: AnnounceInfo, id: u128)
    requires
        record.announce_id != id,
    ensures
        block.writer is None ==> block.with_writer(record).holds(id) == block.holds(id),
        block.with_reader(record).holds(id) == block.holds(id),
{
    lemma_holds(block, id);
    lemma_holds(block.with_reader(record), id);
    let after = block.with_reader(record);
    if block.holds(id) && !block.writer_is(id) {
        let j = choose|j: int|
            0 <= j < block.readers.len() && #[trigger] block.readers[j].announce_id == id;
        assert(after.readers[j].announce_id == id);
    }
    if after.holds(id) && !after.writer_is(id) {
        let j = choose|j: int|
            0 <= j < after.readers.len() && #[trigger] after.readers[j].announce_id == id;
        assert(block.readers[j].announce_id == id);
    }
    if block.writer is None {
        assert(block.with_writer(record).reader_flags(id) =~= block.reader_flags(id));
    }
}

/// Slot stability, one step: a shard that the directory knows stays in its
/// slot through any announce, and its own announce is answered with that
/// slot.
pub proof fn lemma_slot_is_stable(slots: Seq<BlockView>, id: u128, req: AnnounceShardRequest)
    requires
        knows(slots, id),
    ensures
        spec_announce(slots, req).0.len() == slots.len(),
        knows(spec_announce(slots, req).0, id),
        slot_of(spec_announce(slots, req).0, id) == slot_of(slots, id),
        req.shard_id == id ==> spec_announce(slots, req).1 == Ok::<u16, HandlerError>(
            slot_of(slots, id) as u16,
        ),
{
    let after = spec_announce(slots, req).0;
    lemma_slot_of(slots, req.shard_id);
    lemma_first_true(vacancy_flags(slots));
    if slots.len() > 0 {
        lemma_first_least(loads(slots));
    }
    assert(after.len() == slots.len());
    assert forall|k: int| 0 <= k < slots.len() implies after[k].holds(id) == slots[k].holds(id) by {
        if knows(slots, req.shard_id) {
            lemma_refresh_keeps_ids(slots[k], req, id);
        } else {
            lemma_new_record_keeps_others(slots[k], AnnounceInfo::of(req), id);
            if req.shard_type == ShardType::WriteShard && k == first_vacant(slots) {
                assert(vacancy_flags(slots)[k]);
            }
        }
    }
    assert(holder_flags(after, id) =~= holder_flags(slots, id));
}

/// An announce that is answered leaves its shard in the slot of the answer.
pub proof fn lemma_announce_registers(slots: Seq<BlockView>, req: AnnounceShardRequest)
    requires
        slots.len() <= u16::MAX,
        spec_announce(slots, req).1 is Ok,
    ensures
        knows(spec_announce(slots, req).0, req.shard_id),
        slot_of(spec_announce(slots, req).0, req.shard_id) == spec_announce(slots, req).1->Ok_0,
{
    let id = req.shard_id;
    let after = spec_announce(slots, req).0;
    if knows(slots, id) {
        lemma_slot_is_stable(slots, id, req);
        lemma_slot_of(slots, id);
    } else {
        lemma_slot_of(slots, id);
        let record = AnnounceInfo::of(req);
        let i = spec_announce(slots, req).1->Ok_0 as int;
        match req.shard_type {
            ShardType::WriteShard => {
                lemma_first_true(vacancy_flags(slots));
                assert(i == first_vacant(slots));
                assert(after[i].writer_is(id));
            },
            ShardType::ReadShard => {
                lemma_first_least(loads(slots));
                assert(i == least_loaded(slots));
                lemma_holds(after[i], id);
                assert(after[i].readers[slots[i].readers.len() as int].announce_id == id);
            },
        }
        assert(after[i].holds(id));
        assert forall|k: int| 0 <= k < i implies !holder_flags(after, id)[k] by {
            assert(after[k] == slots[k]);
        }
        lemma_first_true_is(holder_flags(after, id), i);
    }
}

/// A known shard stays known, in its slot, through any row of announces.
pub proof fn lemma_slot_survives(slots: Seq<BlockView>, id: u128, reqs: Seq<AnnounceShardRequest>)
    requires
        knows(slots, id),
    ensures
        spec_announce_all(slots, reqs).len() == slots.len(),
        knows(spec_announce_all(slots, reqs), id),
        slot_of(spec_announce_all(slots, reqs), id) == slot_of(slots, id),
    decreases reqs.len(),
{
    if reqs.len() > 0 {
        lemma_slot_survives(slots, id, reqs.drop_last());
        lemma_slot_is_stable(spec_announce_all(slots, reqs.drop_last()), id, reqs.last());
    }
}

/// Slot stability: once an announce of a shard has been answered with a
/// slot, every later announce with the same shard id is answered with the
/// same slot, whatever was announced in between.
pub proof fn lemma_reannounce_returns_slot(
    slots: Seq<BlockView>,
    first: AnnounceShardRequest,
    between: Seq<AnnounceShardRequest>,
    again: AnnounceShardRequest,
)
    requires
        slots.len() <= u16::MAX,
        spec_announce(slots, first).1 is Ok,
        again.shard_id == first.shard_id,
    ensures
        spec_announce(spec_announce_all(spec_announce(slots, first).0, between), again).1
            == spec_announce(slots, first).1,
{
    let registered = spec_announce(slots, first).0;
    lemma_announce_registers(slots, first);
    lemma_slot_survives(registered, first.shard_id, between);
    lemma_slot_is_stable(spec_announce_all(registered, between), first.shard_id, again);
}

/// View completeness: a client's view that names a shard is a view of a
/// directory in which every slot has a writer and at least one reader.
pub proof fn lemma_view_is_complete(slots: Seq<BlockView>, view: GetClientShardInfoResponseView)
    requires
        is_client_view(slots, view),
        view.num_write_shards > 0 || view.write_shard_info.len() > 0 || view.read_shard_info.len()
            > 0,
    ensures
        all_complete(slots),
        view.consistent(),
{
}

} // verus!
