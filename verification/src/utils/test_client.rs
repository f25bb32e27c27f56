//! A handler that keeps every response it is handed, for a test to look at.

use crate::io::router::{HandlerError, RouterHandler};
use crate::messages::payload::PayloadView;
use crate::messages::requests::announce_shard_request::AnnounceShardRequest;
use crate::messages::requests::get_client_shard_info_request::GetClientShardInfoRequest;
use crate::messages::requests::get_shared_peers_request::GetSharedPeersRequest;
use crate::messages::requests::get_version_request::GetVersionRequest;
use crate::messages::requests::query_version_request::QueryVersionRequest;
use crate::messages::requests::read_request::ReadRequest;
use crate::messages::requests::write_request::WriteRequest;
use crate::messages::responses::announce_shard_response::AnnounceShardResponse;
use crate::messages::responses::get_client_shard_info_response::{
    GetClientShardInfoResponse, GetClientShardInfoResponseView,
};
use crate::messages::responses::get_shared_peers_response::{
    GetSharedPeersResponse, GetSharedPeersResponseView,
};
use crate::messages::responses::get_version_response::GetVersionResponse;
use crate::messages::responses::query_version_response::QueryVersionResponse;
use crate::messages::responses::read_response::{ReadResponse, ReadResponseView};
use crate::messages::responses::write_response::WriteResponse;
use crate::wire::{copy_endpoints, copy_range};
use vstd::prelude::*;

verus! {

/// The responses that came, each kind in the order of arrival.
#[derive(Debug, Clone)]
pub struct TestRouterClientHandler {
    pub query_version_responses: Vec<QueryVersionResponse>,
    pub announce_shard_responses: Vec<AnnounceShardResponse>,
    pub get_client_shard_info_responses: Vec<GetClientShardInfoResponse>,
    pub get_shared_peers_responses: Vec<GetSharedPeersResponse>,
    pub read_responses: Vec<ReadResponse>,
    pub write_responses: Vec<WriteResponse>,
}

pub struct TestRouterClientHandlerView {
    pub query_version_responses: Seq<QueryVersionResponse>,
    pub announce_shard_responses: Seq<AnnounceShardResponse>,
    pub get_client_shard_info_responses: Seq<GetClientShardInfoResponseView>,
    pub get_shared_peers_responses: Seq<GetSharedPeersResponseView>,
    pub read_responses: Seq<ReadResponseView>,
    pub write_responses: Seq<WriteResponse>,
}

impl View for TestRouterClientHandler {
    type V = TestRouterClientHandlerView;

    open spec fn view(&self) -> TestRouterClientHandlerView {
        TestRouterClientHandlerView {
            query_version_responses: self.query_version_responses@,
            announce_shard_responses: self.announce_shard_responses@,
            get_client_shard_info_responses: Seq::new(
                self.get_client_shard_info_responses@.len(),
                |i: int| self.get_client_shard_info_responses@[i]@,
            ),
            get_shared_peers_responses: Seq::new(
                self.get_shared_peers_responses@.len(),
                |i: int| self.get_shared_peers_responses@[i]@,
            ),
            read_responses: Seq::new(
                self.read_responses@.len(),
                |i: int| self.read_responses@[i]@,
            ),
            write_responses: self.write_responses@,
        }
    }
}

impl TestRouterClientHandler {
    /// A handler that has been handed nothing.
    pub fn new() -> (handler: Self)
        ensures
            handler@ == (TestRouterClientHandlerView {
                query_version_responses: Seq::empty(),
                announce_shard_responses: Seq::empty(),
                get_client_shard_info_responses: Seq::empty(),
                get_shared_peers_responses: Seq::empty(),
                read_responses: Seq::empty(),
                write_responses: Seq::empty(),
            }),
    {
        let handler = TestRouterClientHandler {
            query_version_responses: Vec::new(),
            announce_shard_responses: Vec::new(),
            get_client_shard_info_responses: Vec::new(),
            get_shared_peers_responses: Vec::new(),
            read_responses: Vec::new(),
            write_responses: Vec::new(),
        };
        assert(handler@.get_client_shard_info_responses =~= Seq::empty());
        assert(handler@.get_shared_peers_responses =~= Seq::empty());
        assert(handler@.read_responses =~= Seq::empty());
        handler
    }
}

impl RouterHandler for TestRouterClientHandler {
    /// A response of one of six kinds is kept behind the others of its kind.
    /// The handler has no use for a version response, nor for any request.
    open spec fn handles(
        pre: Self,
        message: PayloadView,
        post: Self,
        outcome: Result<Option<PayloadView>, HandlerError>,
    ) -> bool {
        let kept = Ok::<Option<PayloadView>, HandlerError>(None);
        match message {
            PayloadView::AnnounceShardResponse(res) => post@ == (TestRouterClientHandlerView {
                announce_shard_responses: pre@.announce_shard_responses.push(res),
                ..pre@
            }) && outcome == kept,
            PayloadView::GetClientShardInfoResponse(res) => post@ == (TestRouterClientHandlerView {
                get_client_shard_info_responses: pre@.get_client_shard_info_responses.push(res),
                ..pre@
            }) && outcome == kept,
            PayloadView::QueryVersionResponse(res) => post@ == (TestRouterClientHandlerView {
                query_version_responses: pre@.query_version_responses.push(res),
                ..pre@
            }) && outcome == kept,
            PayloadView::ReadResponse(res) => post@ == (TestRouterClientHandlerView {
                read_responses: pre@.read_responses.push(res),
                ..pre@
            }) && outcome == kept,
            PayloadView::WriteResponse(res) => post@ == (TestRouterClientHandlerView {
                write_responses: pre@.write_responses.push(res),
                ..pre@
            }) && outcome == kept,
            PayloadView::GetSharedPeersResponse(res) => post@ == (TestRouterClientHandlerView {
                get_shared_peers_responses: pre@.get_shared_peers_responses.push(res),
                ..pre@
            }) && outcome == kept,
            _ => post@ == pre@ && outcome == Err::<Option<PayloadView>, HandlerError>(
                HandlerError::NotImplemented,
            ),
        }
    }

    fn handle_announce_shard_response(&mut self, res: &AnnounceShardResponse) -> (r: Result<
        (),
        HandlerError,
    >)
        ensures
            final(self)@ == (TestRouterClientHandlerView {
                announce_shard_responses: old(self)@.announce_shard_responses.push(*res),
                ..old(self)@
            }),
            r is Ok,
    {
        self.announce_shard_responses.push(*res);
        Ok(())
    }

    fn handle_get_client_shard_info_response(&mut self, res: &GetClientShardInfoResponse) -> (r:
        Result<(), HandlerError>)
        ensures
            final(self)@ == (TestRouterClientHandlerView {
                get_client_shard_info_responses: old(self)@.get_client_shard_info_responses.push(
                    res@,
                ),
                ..old(self)@
            }),
            r is Ok,
    {
        let copy = GetClientShardInfoResponse {
            num_write_shards: res.num_write_shards,
            write_shard_info: copy_endpoints(&res.write_shard_info),
            read_shard_info: copy_endpoints(&res.read_shard_info),
        };
        self.get_client_shard_info_responses.push(copy);
        assert(self@.get_client_shard_info_responses =~= old(
            self,
        )@.get_client_shard_info_responses.push(res@));
        Ok(())
    }

    fn handle_query_version_response(&mut self, res: &QueryVersionResponse) -> (r: Result<
        (),
        HandlerError,
    >)
        ensures
            final(self)@ == (TestRouterClientHandlerView {
                query_version_responses: old(self)@.query_version_responses.push(*res),
                ..old(self)@
            }),
            r is Ok,
    {
        self.query_version_responses.push(*res);
        Ok(())
    }

    fn handle_read_response(&mut self, res: &ReadResponse) -> (r: Result<(), HandlerError>)
        ensures
            final(self)@ == (TestRouterClientHandlerView {
                read_responses: old(self)@.read_responses.push(res@),
                ..old(self)@
            }),
            r is Ok,
    {
        let copy = ReadResponse {
            key: copy_range(res.key.as_slice(), 0, res.key.len()),
            value: copy_range(res.value.as_slice(), 0, res.value.len()),
            error: res.error,
        };
        assert(copy.key@ =~= res.key@ && copy.value@ =~= res.value@);
        self.read_responses.push(copy);
        assert(self@.read_responses =~= old(self)@.read_responses.push(res@));
        Ok(())
    }

    fn handle_write_response(&mut self, res: &WriteResponse) -> (r: Result<(), HandlerError>)
        ensures
            final(self)@ == (TestRouterClientHandlerView {
                write_responses: old(self)@.write_responses.push(*res),
                ..old(self)@
            }),
            r is Ok,
    {
        self.write_responses.push(*res);
        Ok(())
    }

    fn handle_get_shared_peers_response(&mut self, res: &GetSharedPeersResponse) -> (r: Result<
        (),
        HandlerError,
    >)
        ensures
            final(self)@ == (TestRouterClientHandlerView {
                get_shared_peers_responses: old(self)@.get_shared_peers_responses.push(res@),
                ..old(self)@
            }),
            r is Ok,
    {
        let copy = GetSharedPeersResponse { peer_ips: copy_endpoints(&res.peer_ips) };
        self.get_shared_peers_responses.push(copy);
        assert(self@.get_shared_peers_responses =~= old(self)@.get_shared_peers_responses.push(
            res@,
        ));
        Ok(())
    }

    fn handle_get_version_response(&mut self, _res: &GetVersionResponse) -> (r: Result<
        (),
        HandlerError,
    >)
        ensures
            final(self)@ == old(self)@,
            r == Err::<(), HandlerError>(HandlerError::NotImplemented),
    {
        Err(HandlerError::NotImplemented)
    }

    fn handle_announce_shard_request(&mut self, _req: &AnnounceShardRequest) -> (r: Result<
        AnnounceShardResponse,
        HandlerError,
    >)
        ensures
            final(self)@ == old(self)@,
            r == Err::<AnnounceShardResponse, HandlerError>(HandlerError::NotImplemented),
    {
        Err(HandlerError::NotImplemented)
    }

    fn handle_get_client_shard_info_request(&mut self, _req: &GetClientShardInfoRequest) -> (r:
        Result<GetClientShardInfoResponse, HandlerError>)
        ensures
            final(self)@ == old(self)@,
            r is Err && r->Err_0 == HandlerError::NotImplemented,
    {
        Err(HandlerError::NotImplemented)
    }

    fn handle_query_version_request(&mut self, _req: &QueryVersionRequest) -> (r: Result<
        QueryVersionResponse,
        HandlerError,
    >)
        ensures
            final(self)@ == old(self)@,
            r == Err::<QueryVersionResponse, HandlerError>(HandlerError::NotImplemented),
    {
        Err(HandlerError::NotImplemented)
    }

    fn handle_read_request(&mut self, _req: &ReadRequest) -> (r: Result<ReadResponse, HandlerError>)
        ensures
            final(self)@ == old(self)@,
            r is Err && r->Err_0 == HandlerError::NotImplemented,
    {
        Err(HandlerError::NotImplemented)
    }

    fn handle_write_request(&mut self, _req: &WriteRequest) -> (r: Result<
        WriteResponse,
        HandlerError,
    >)
        ensures
            final(self)@ == old(self)@,
            r == Err::<WriteResponse, HandlerError>(HandlerError::NotImplemented),
    {
        Err(HandlerError::NotImplemented)
    }

    fn handle_get_shared_peers_request(&mut self, _req: &GetSharedPeersRequest) -> (r: Result<
        GetSharedPeersResponse,
        HandlerError,
    >)
        ensures
            final(self)@ == old(self)@,
            r is Err && r->Err_0 == HandlerError::NotImplemented,
    {
        Err(HandlerError::NotImplemented)
    }

    fn handle_get_version_request(&mut self, _req: &GetVersionRequest) -> (r: Result<
        GetVersionResponse,
        HandlerError,
    >)
        ensures
            final(self)@ == old(self)@,
            r is Err && r->Err_0 == HandlerError::NotImplemented,
    {
        Err(HandlerError::NotImplemented)
    }
}

} // verus!
