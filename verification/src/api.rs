//! The request/response contract of the registry.
//!
//! Each registry operation is mapped onto a response with a status code;
//! the module is otherwise stateless.  The failure of the shared-state
//! primitive that guards the registry cannot happen here — the process
//! that holds the lock builds that response with
//! [`internal_error_response`].

use vstd::prelude::*;

verus! {

use crate::record::{Peer, Client, WebRtc};
use crate::registry::{App, lookup, lookup_client, StoreError};
use crate::ident::{is_valid_id, str_val};

/// Protocol-level outcome of one request.
#[derive(Clone, Copy, PartialEq, Eq, Structural, Debug)]
pub enum Status {
    /// The operation applied.
    Success,
    /// The operation referenced an identifier absent from the registry.
    NotFound,
    /// The shared-state primitive itself failed.
    ServerError,
}

impl Status {
    /// The HTTP-style code of this status.
    pub open spec fn spec_code(self) -> u16 {
        match self {
            Status::Success => 200,
            Status::NotFound => 404,
            Status::ServerError => 500,
        }
    }

    /// Translates the status into its response code.
    pub fn code(&self) -> (c: u16)
        ensures
            c == self.spec_code(),
    {
        match self {
            Status::Success => 200,
            Status::NotFound => 404,
            Status::ServerError => 500,
        }
    }
}

/// Body of a successful `createPeer`: the allocated identifier.
pub struct CreateResponse {
    pub identifier: String,
}

/// Body of a successful `getPeer`: a copy of the record.
pub struct PeerGetResponse {
    pub peer: Peer,
}

/// Body of a `getPeerClient`: the reply sub-record, absent both for an
/// unknown identifier and for a record without a reply yet.
pub struct PeerClientGetResponse {
    pub client: Option<Client>,
}

/// Body of a response that carries no data.
pub struct EmptyResponse {}

/// Body of a failed request: a diagnostic message.
pub struct InternalError {
    pub message: String,
}

/// A `createPeer` request: the record to register.
pub struct PeerCreateRequest {
    pub peer: Peer,
}

impl PeerCreateRequest {
    /// Builds the request from what the wire carries: a public key and the
    /// negotiation payloads.  The creation time is stamped by the store and
    /// the reply sub-record can only be attached later, so both start out
    /// empty here.
    pub fn from_wire(public_key: String, offer: Option<String>, answer: Option<String>) -> (r:
        Self)
        ensures
            r.peer.public_key == public_key,
            r.peer.web_rtc.offer == offer,
            r.peer.web_rtc.answer == answer,
            r.peer.client is None,
            r.peer.created == 0,
    {
        PeerCreateRequest {
            peer: Peer {
                created: 0,
                public_key,
                web_rtc: WebRtc { offer, answer },
                client: None,
            },
        }
    }
}

/// A `setPeerClient` request: the reply sub-record to attach.
pub struct PeerClientCreateRequest {
    pub client: Client,
}

/// The body of a response.
pub enum Reply {
    Created(CreateResponse),
    Fetched(PeerGetResponse),
    FetchedClient(PeerClientGetResponse),
    Empty(EmptyResponse),
    Failed(InternalError),
}

/// One response: a status and a body.
pub struct ApiResponse {
    pub status: Status,
    pub reply: Reply,
}

/// Serves `createPeer` at time `now`: registers the submitted record and
/// answers with the allocated identifier, or with a server error when the
/// keyspace is exhausted.
pub fn peer_create_handler(app: &mut App, req: PeerCreateRequest, now: u64) -> (r: ApiResponse)
    requires
        old(app).inv(),
    ensures
        final(app).inv(),
        final(app).spec_ttl() == old(app).spec_ttl(),
        r.status != Status::NotFound,
        r.status == Status::Success ==> (r.reply matches Reply::Created(body) && {
            let n = str_val(body.identifier@) as u64;
            &&& is_valid_id(body.identifier@)
            &&& !old(app)@.contains_key(n)
            &&& final(app)@ == old(app)@.insert(n, (Peer {
                created: now,
                public_key: req.peer.public_key,
                web_rtc: req.peer.web_rtc,
                client: req.peer.client,
            }))
        }),
        r.status == Status::ServerError ==> {
            &&& final(app)@ == old(app)@
            &&& r.reply is Failed
            &&& forall|n: u64| n < crate::ID_KEYSPACE ==> #[trigger] old(app)@.contains_key(n)
        },
{
    match app.peer_create(req.peer, now) {
        Ok(identifier) => ApiResponse {
            status: Status::Success,
            reply: Reply::Created(CreateResponse { identifier }),
        },
        Err(_) => ApiResponse {
            status: Status::ServerError,
            reply: Reply::Failed(InternalError {
                message: String::from_str("identifier keyspace exhausted"),
            }),
        },
    }
}

/// Serves `getPeer`: a copy of the record with status 200, or 404 with an
/// empty body when the identifier names no current record.
pub fn peer_get_handler(app: &App, id: &str) -> (r: ApiResponse)
    ensures
        match lookup(app@, id@) {
            Some(p) => r.status == Status::Success && (r.reply matches Reply::Fetched(body)
                && body.peer == p),
            None => r.status == Status::NotFound && r.reply is Empty,
        },
{
    match app.peer_get(id) {
        Some(peer) => ApiResponse {
            status: Status::Success,
            reply: Reply::Fetched(PeerGetResponse { peer }),
        },
        None => ApiResponse { status: Status::NotFound, reply: Reply::Empty(EmptyResponse {}) },
    }
}

/// Serves `getPeerClient`: always a success at the protocol level; absence
/// of the record and absence of the reply are folded into an empty client
/// field.
pub fn peer_client_get_handler(app: &App, id: &str) -> (r: ApiResponse)
    ensures
        r.status == Status::Success,
        r.reply matches Reply::FetchedClient(body) && body.client == lookup_client(app@, id@),
{
    let client = app.peer_client_get(id);
    ApiResponse {
        status: Status::Success,
        reply: Reply::FetchedClient(PeerClientGetResponse { client }),
    }
}

/// Serves `setPeerClient`: attaches the reply sub-record, or answers 404,
/// leaving the registry unchanged, when the identifier names no current
/// record.
pub fn peer_client_set_handler(app: &mut App, id: &str, req: PeerClientCreateRequest) -> (r:
    ApiResponse)
    requires
        old(app).inv(),
    ensures
        final(app).inv(),
        final(app).spec_ttl() == old(app).spec_ttl(),
        r.reply is Empty,
        match lookup(old(app)@, id@) {
            Some(p) => {
                let n = str_val(id@) as u64;
                &&& r.status == Status::Success
                &&& final(app)@ == old(app)@.insert(n, (Peer {
                    created: p.created,
                    public_key: p.public_key,
                    web_rtc: p.web_rtc,
                    client: Some(req.client),
                }))
            },
            None => r.status == Status::NotFound && final(app)@ == old(app)@,
        },
{
    match app.peer_client_set(id, req.client) {
        Ok(()) => ApiResponse { status: Status::Success, reply: Reply::Empty(EmptyResponse {}) },
        Err(_) => ApiResponse { status: Status::NotFound, reply: Reply::Empty(EmptyResponse {}) },
    }
}

/// The response for a request on which the shared-state primitive guarding
/// the registry failed: a server error carrying the diagnostic message.
pub fn internal_error_response(message: String) -> (r: ApiResponse)
    ensures
        r.status == Status::ServerError,
        r.reply matches Reply::Failed(body) && body.message == message,
{
    ApiResponse { status: Status::ServerError, reply: Reply::Failed(InternalError { message }) }
}

} // verus!
