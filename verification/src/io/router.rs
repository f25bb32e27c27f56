//! The dispatch of inbound messages to a handler.
//!
//! A router owns the connections; this module owns the decisions. For each
//! frame that a connection delivers, `handle_frame` decodes it, hands it to
//! the callback of its kind and direction, and encodes the reply. A request
//! is answered with the response of its own kind; a response is answered with
//! nothing. Any error ends the connection it arose on.

use crate::messages::message::{encode_frame, spec_encode_frame, CodecError, MessagePayload};
use crate::messages::payload::{
    bytes_as_message_with_limit, spec_bytes_as_message, Payload, PayloadView,
};
use crate::messages::requests::announce_shard_request::AnnounceShardRequest;
use crate::messages::requests::get_client_shard_info_request::GetClientShardInfoRequest;
use crate::messages::requests::get_shared_peers_request::GetSharedPeersRequest;
use crate::messages::requests::get_version_request::GetVersionRequest;
use crate::messages::requests::query_version_request::QueryVersionRequest;
use crate::messages::requests::read_request::ReadRequest;
use crate::messages::requests::write_request::WriteRequest;
use crate::messages::responses::announce_shard_response::AnnounceShardResponse;
use crate::messages::responses::get_client_shard_info_response::GetClientShardInfoResponse;
use crate::messages::responses::get_shared_peers_response::GetSharedPeersResponse;
use crate::messages::responses::get_version_response::GetVersionResponse;
use crate::messages::responses::query_version_response::QueryVersionResponse;
use crate::messages::responses::read_response::ReadResponse;
use crate::messages::responses::write_response::WriteResponse;
use vstd::prelude::*;

verus! {

/// Why a handler did not answer.
#[derive(Debug, Clone, Copy, PartialEq, Eq, Structural)]
pub enum HandlerError {
    /// The handler has no callback for this kind of message.
    NotImplemented,
    /// A writer announced itself and every writer slot is taken.
    WriterSlotsExhausted,
    /// A reader announced itself to a directory that has no slot at all.
    NoWriterSlots,
    /// A key or a value is not UTF-8.
    InvalidUtf8,
}

/// Why a connection is closed.
#[derive(Debug, Clone, Copy, PartialEq, Eq, Structural)]
pub enum RouterError {
    /// The bytes that came, or the reply to send, could not be coded.
    Codec(CodecError),
    /// The handler refused the message.
    Handler(HandlerError),
}

/// What a request callback returned, as the dispatcher sees it: the
/// response to send, or the error.
pub open spec fn answered<R>(r: Result<R, HandlerError>, wrap: spec_fn(R) -> PayloadView) -> Result<
    Option<PayloadView>,
    HandlerError,
> {
    match r {
        Ok(res) => Ok(Some(wrap(res))),
        Err(e) => Err(e),
    }
}

/// What a response callback returned, as the dispatcher sees it: nothing to
/// send, or the error.
pub open spec fn taken(r: Result<(), HandlerError>) -> Result<Option<PayloadView>, HandlerError> {
    match r {
        Ok(_) => Ok(None),
        Err(e) => Err(e),
    }
}

/// The callbacks of a node: one per request kind, which returns the matching
/// response, and one per response kind, which returns nothing.
///
/// A handler says two things of itself. In `inv` it says what must hold of it
/// between calls: every callback may rely on it and must keep it. In
/// `handles` it says what its callbacks do: which states and outcomes a
/// message may lead to. A handler that says neither asks for nothing and
/// promises nothing. A node that has no use for a message answers
/// `HandlerError::NotImplemented`.
pub trait RouterHandler: Sized {
    /// What holds of the handler between two callbacks.
    open spec fn inv(&self) -> bool {
        true
    }

    /// Handling `message` may take the handler from `pre` to `post` with
    /// `outcome`: the response to send back, nothing, or an error.
    open spec fn handles(
        pre: Self,
        message: PayloadView,
        post: Self,
        outcome: Result<Option<PayloadView>, HandlerError>,
    ) -> bool {
        true
    }

    fn handle_announce_shard_request(&mut self, req: &AnnounceShardRequest) -> (r: Result<
        AnnounceShardResponse,
        HandlerError,
    >)
        requires
            old(self).inv(),
        ensures
            final(self).inv(),
            Self::handles(
                *old(self),
                PayloadView::AnnounceShardRequest(req@),
                *final(self),
                answered(
                    r,
                    |res: AnnounceShardResponse| PayloadView::AnnounceShardResponse(res@),
                ),
            ),
    ;

    fn handle_get_client_shard_info_request(&mut self, req: &GetClientShardInfoRequest) -> (r:
        Result<GetClientShardInfoResponse, HandlerError>)
        requires
            old(self).inv(),
        ensures
            final(self).inv(),
            Self::handles(
                *old(self),
                PayloadView::GetClientShardInfoRequest(req@),
                *final(self),
                answered(
                    r,
                    |res: GetClientShardInfoResponse| PayloadView::GetClientShardInfoResponse(res@),
                ),
            ),
    ;

    fn handle_query_version_request(&mut self, req: &QueryVersionRequest) -> (r: Result<
        QueryVersionResponse,
        HandlerError,
    >)
        requires
            old(self).inv(),
        ensures
            final(self).inv(),
            Self::handles(
                *old(self),
                PayloadView::QueryVersionRequest(req@),
                *final(self),
                answered(
                    r,
                    |res: QueryVersionResponse| PayloadView::QueryVersionResponse(res@),
                ),
            ),
    ;

    fn handle_read_request(&mut self, req: &ReadRequest) -> (r: Result<
        ReadResponse,
        HandlerError,
    >)
        requires
            old(self).inv(),
        ensures
            final(self).inv(),
            Self::handles(
                *old(self),
                PayloadView::ReadRequest(req@),
                *final(self),
                answered(
                    r,
                    |res: ReadResponse| PayloadView::ReadResponse(res@),
                ),
            ),
    ;

    fn handle_write_request(&mut self, req: &WriteRequest) -> (r: Result<
        WriteResponse,
        HandlerError,
    >)
        requires
            old(self).inv(),
        ensures
            final(self).inv(),
            Self::handles(
                *old(self),
                PayloadView::WriteRequest(req@),
                *final(self),
                answered(
                    r,
                    |res: WriteResponse| PayloadView::WriteResponse(res@),
                ),
            ),
    ;

    fn handle_get_shared_peers_request(&mut self, req: &GetSharedPeersRequest) -> (r: Result<
        GetSharedPeersResponse,
        HandlerError,
    >)
        requires
            old(self).inv(),
        ensures
            final(self).inv(),
            Self::handles(
                *old(self),
                PayloadView::GetSharedPeersRequest(req@),
                *final(self),
                answered(
                    r,
                    |res: GetSharedPeersResponse| PayloadView::GetSharedPeersResponse(res@),
                ),
            ),
    ;

    fn handle_get_version_request(&mut self, req: &GetVersionRequest) -> (r: Result<
        GetVersionResponse,
        HandlerError,
    >)
        requires
            old(self).inv(),
        ensures
            final(self).inv(),
            Self::handles(
                *old(self),
                PayloadView::GetVersionRequest(req@),
                *final(self),
                answered(
                    r,
                    |res: GetVersionResponse| PayloadView::GetVersionResponse(res@),
                ),
            ),
    ;

    fn handle_announce_shard_response(&mut self, res: &AnnounceShardResponse) -> (r: Result<
        (),
        HandlerError,
    >)
        requires
            old(self).inv(),
        ensures
            final(self).inv(),
            Self::handles(
                *old(self),
                PayloadView::AnnounceShardResponse(res@),
                *final(self),
                taken(r),
            ),
    ;

    fn handle_get_client_shard_info_response(&mut self, res: &GetClientShardInfoResponse) -> (r:
        Result<(), HandlerError>)
        requires
            old(self).inv(),
        ensures
            final(self).inv(),
            Self::handles(
                *old(self),
                PayloadView::GetClientShardInfoResponse(res@),
                *final(self),
                taken(r),
            ),
    ;

    fn handle_query_version_response(&mut self, res: &QueryVersionResponse) -> (r: Result<
        (),
        HandlerError,
    >)
        requires
            old(self).inv(),
        ensures
            final(self).inv(),
            Self::handles(
                *old(self),
                PayloadView::QueryVersionResponse(res@),
                *final(self),
                taken(r),
            ),
    ;

    fn handle_get_version_response(&mut self, res: &GetVersionResponse) -> (r: Result<
        (),
        HandlerError,
    >)
        requires
            old(self).inv(),
        ensures
            final(self).inv(),
            Self::handles(
                *old(self),
                PayloadView::GetVersionResponse(res@),
                *final(self),
                taken(r),
            ),
    ;

    fn handle_read_response(&mut self, res: &ReadResponse) -> (r: Result<(), HandlerError>)
        requires
            old(self).inv(),
        ensures
            final(self).inv(),
            Self::handles(
                *old(self),
                PayloadView::ReadResponse(res@),
                *final(self),
                taken(r),
            ),
    ;

    fn handle_write_response(&mut self, res: &WriteResponse) -> (r: Result<(), HandlerError>)
        requires
            old(self).inv(),
        ensures
            final(self).inv(),
            Self::handles(
                *old(self),
                PayloadView::WriteResponse(res@),
                *final(self),
                taken(r),
            ),
    ;

    fn handle_get_shared_peers_response(&mut self, res: &GetSharedPeersResponse) -> (r: Result<
        (),
        HandlerError,
    >)
        requires
            old(self).inv(),
        ensures
            final(self).inv(),
            Self::handles(
                *old(self),
                PayloadView::GetSharedPeersResponse(res@),
                *final(self),
                taken(r),
            ),
    ;
}

/// `reply` may answer `message`: a response of the same kind to a request,
/// nothing to a response.
pub open spec fn answers(message: PayloadView, reply: Option<PayloadView>) -> bool {
    match reply {
        Some(p) => message.is_request() && !p.is_request() && p.message_type()
            == message.message_type(),
        None => !message.is_request(),
    }
}

/// Hands a message to the callback of its kind and direction.
///
/// What comes of it is what the handler says of itself in `handles`.
/// Whatever that is, a request that is answered is answered with the
/// response of its own kind, and a response that is taken is answered with
/// nothing.
pub fn dispatch<H: RouterHandler>(handler: &mut H, message: &Payload) -> (r: Result<
    Option<Payload>,
    HandlerError,
>)
    requires
        old(handler).inv(),
    ensures
        final(handler).inv(),
        H::handles(*old(handler), message@, *final(handler), outcome_view(r)),
        match r {
            Ok(Some(reply)) => answers(message@, Some(reply@)),
            Ok(None) => answers(message@, None),
            Err(_) => true,
        },
{
    match message {
        Payload::AnnounceShardRequest(req) => match handler.handle_announce_shard_request(req) {
            Ok(res) => Ok(Some(Payload::AnnounceShardResponse(res))),
            Err(e) => Err(e),
        },
        Payload::GetClientShardInfoRequest(req) => {
            match handler.handle_get_client_shard_info_request(req) {
                Ok(res) => Ok(Some(Payload::GetClientShardInfoResponse(res))),
                Err(e) => Err(e),
            }
        },
        Payload::QueryVersionRequest(req) => match handler.handle_query_version_request(req) {
            Ok(res) => Ok(Some(Payload::QueryVersionResponse(res))),
            Err(e) => Err(e),
        },
        Payload::ReadRequest(req) => match handler.handle_read_request(req) {
            Ok(res) => Ok(Some(Payload::ReadResponse(res))),
            Err(e) => Err(e),
        },
        Payload::WriteRequest(req) => match handler.handle_write_request(req) {
            Ok(res) => Ok(Some(Payload::WriteResponse(res))),
            Err(e) => Err(e),
        },
        Payload::GetSharedPeersRequest(req) => match handler.handle_get_shared_peers_request(req) {
            Ok(res) => Ok(Some(Payload::GetSharedPeersResponse(res))),
            Err(e) => Err(e),
        },
        Payload::GetVersionRequest(req) => match handler.handle_get_version_request(req) {
            Ok(res) => Ok(Some(Payload::GetVersionResponse(res))),
            Err(e) => Err(e),
        },
        Payload::AnnounceShardResponse(res) => match handler.handle_announce_shard_response(res) {
            Ok(()) => Ok(None),
            Err(e) => Err(e),
        },
        Payload::GetClientShardInfoResponse(res) => {
            match handler.handle_get_client_shard_info_response(res) {
                Ok(()) => Ok(None),
                Err(e) => Err(e),
            }
        },
        Payload::QueryVersionResponse(res) => match handler.handle_query_version_response(res) {
            Ok(()) => Ok(None),
            Err(e) => Err(e),
        },
        Payload::ReadResponse(res) => match handler.handle_read_response(res) {
            Ok(()) => Ok(None),
            Err(e) => Err(e),
        },
        Payload::WriteResponse(res) => match handler.handle_write_response(res) {
            Ok(()) => Ok(None),
            Err(e) => Err(e),
        },
        Payload::GetVersionResponse(res) => match handler.handle_get_version_response(res) {
            Ok(()) => Ok(None),
            Err(e) => Err(e),
        },
        Payload::GetSharedPeersResponse(res) => {
            match handler.handle_get_shared_peers_response(res) {
                Ok(()) => Ok(None),
                Err(e) => Err(e),
            }
        },
    }
}

/// What goes back on the connection after a dispatch.
pub open spec fn spec_reply_frame(outcome: Result<Option<PayloadView>, HandlerError>) -> Result<
    Option<Seq<u8>>,
    RouterError,
> {
    match outcome {
        Err(e) => Err(RouterError::Handler(e)),
        Ok(None) => Ok(None),
        Ok(Some(reply)) => match reply.frame() {
            Ok(bytes) => Ok(Some(bytes)),
            Err(e) => Err(RouterError::Codec(e)),
        },
    }
}

/// The view of a dispatch's outcome.
pub open spec fn outcome_view(outcome: Result<Option<Payload>, HandlerError>) -> Result<
    Option<PayloadView>,
    HandlerError,
> {
    match outcome {
        Err(e) => Err(e),
        Ok(None) => Ok(None),
        Ok(Some(p)) => Ok(Some(p@)),
    }
}

/// The view of what `handle_frame` returns.
pub open spec fn sent_view(sent: Result<Option<Vec<u8>>, RouterError>) -> Result<
    Option<Seq<u8>>,
    RouterError,
> {
    match sent {
        Err(e) => Err(e),
        Ok(None) => Ok(None),
        Ok(Some(bytes)) => Ok(Some(bytes@)),
    }
}

/// Turns the outcome of a dispatch into what goes back on the connection:
/// the reply's frame, nothing, or the error that closes the connection.
pub fn reply_frame(outcome: Result<Option<Payload>, HandlerError>) -> (r: Result<
    Option<Vec<u8>>,
    RouterError,
>)
    ensures
        sent_view(r) == spec_reply_frame(outcome_view(outcome)),
{
    match outcome {
        Err(e) => Err(RouterError::Handler(e)),
        Ok(None) => Ok(None),
        Ok(Some(reply)) => match reply.serialize() {
            Ok(bytes) => Ok(Some(bytes)),
            Err(e) => Err(RouterError::Codec(e)),
        },
    }
}

/// `sent` is the frame of a response that may answer `message`.
pub open spec fn is_reply_to(sent: Seq<u8>, message: PayloadView) -> bool {
    exists|reply: PayloadView| #[trigger]
        answers(message, Some(reply)) && reply.frame() == Ok::<Seq<u8>, CodecError>(sent)
}

/// Handling `message` may take the handler from `pre` to `post` and put
/// `sent` on the connection: some outcome that the handler allows is sent as
/// `spec_reply_frame` says.
pub open spec fn may_send<H: RouterHandler>(
    pre: H,
    message: PayloadView,
    post: H,
    sent: Result<Option<Seq<u8>>, RouterError>,
) -> bool {
    exists|outcome: Result<Option<PayloadView>, HandlerError>| #[trigger]
        H::handles(pre, message, post, outcome) && spec_reply_frame(outcome) == sent
}

/// One turn of a connection's inbound loop: decode the frame, dispatch it,
/// encode the reply.
///
/// A frame that does not decode leaves the handler as it was and returns the
/// decoder's error. One that decodes goes to the handler, and what the
/// handler allows as an outcome is what is sent. Whatever the handler did,
/// that is the frame of a response of the request's kind, or nothing for a
/// response, or an error.
pub fn handle_frame<H: RouterHandler>(handler: &mut H, buffer: &[u8], max_payload: usize) -> (r:
    Result<Option<Vec<u8>>, RouterError>)
    requires
        old(handler).inv(),
    ensures
        final(handler).inv(),
        match spec_bytes_as_message(buffer@, max_payload as nat) {
            Err(e) => r == Err::<Option<Vec<u8>>, RouterError>(RouterError::Codec(e))
                && *final(handler) == *old(handler),
            Ok(message) => may_send(*old(handler), message, *final(handler), sent_view(r))
                && match r {
                Ok(Some(sent)) => is_reply_to(sent@, message),
                Ok(None) => !message.is_request(),
                Err(_) => true,
            },
        },
{
    match bytes_as_message_with_limit(buffer, max_payload) {
        Err(e) => Err(RouterError::Codec(e)),
        Ok(message) => {
            let outcome = dispatch(handler, &message);
            let ghost reply = outcome_view(outcome);
            let r = reply_frame(outcome);
            proof {
                assert(H::handles(*old(handler), message@, *handler, reply) && spec_reply_frame(
                    reply,
                ) == sent_view(r));
                if let Ok(Some(sent)) = sent_view(r) {
                    let p = reply->Ok_0->Some_0;
                    assert(answers(message@, Some(p)) && p.frame() == Ok::<Seq<u8>, CodecError>(
                        sent,
                    ));
                }
            }
            r
        },
    }
}

/// The frame that carries `req` as a request.
pub fn request_frame<M: MessagePayload>(req: &M) -> (r: Result<Vec<u8>, CodecError>)
    ensures
        match r {
            Ok(bytes) => spec_encode_frame(
                M::spec_message_type(),
                true,
                M::spec_serialize(req@),
            ) == Ok::<Seq<u8>, CodecError>(bytes@),
            Err(e) => spec_encode_frame(M::spec_message_type(), true, M::spec_serialize(req@))
                == Err::<Seq<u8>, CodecError>(e),
        },
{
    match req.serialize() {
        Err(e) => Err(e),
        Ok(payload) => encode_frame(req.get_message_type(), true, payload.as_slice()),
    }
}

/// The frame that carries `res` as a response.
pub fn response_frame<M: MessagePayload>(res: &M) -> (r: Result<Vec<u8>, CodecError>)
    ensures
        match r {
            Ok(bytes) => spec_encode_frame(
                M::spec_message_type(),
                false,
                M::spec_serialize(res@),
            ) == Ok::<Seq<u8>, CodecError>(bytes@),
            Err(e) => spec_encode_frame(M::spec_message_type(), false, M::spec_serialize(res@))
                == Err::<Seq<u8>, CodecError>(e),
        },
{
    match res.serialize() {
        Err(e) => Err(e),
        Ok(payload) => encode_frame(res.get_message_type(), false, payload.as_slice()),
    }
}

} // verus!
