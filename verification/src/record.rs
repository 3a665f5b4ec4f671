//! The data carried by one rendezvous session.
//!
//! Offer and answer payloads are opaque to the registry: they are stored and
//! handed back verbatim, never inspected.  The reply sub-record ([`Client`])
//! is attached by the responder after the session was created.

use vstd::prelude::*;

verus! {

/// The pair of opaque transport-negotiation payloads of a session side.
pub struct WebRtc {
    pub offer: Option<String>,
    pub answer: Option<String>,
}

/// The responder's reply sub-record: its answer payload.
pub struct Client {
    pub web_rtc: WebRtc,
}

/// One rendezvous session record, keyed in the registry by its identifier.
///
/// `created` is the server-assigned creation timestamp in milliseconds; it
/// and the identifier are set once, at creation, and never change.
pub struct Peer {
    pub created: u64,
    pub public_key: String,
    pub web_rtc: WebRtc,
    pub client: Option<Client>,
}

fn clone_opt_string(o: &Option<String>) -> (r: Option<String>)
    ensures
        r == *o,
{
    match o {
        Some(s) => Some(s.clone()),
        None => None,
    }
}

impl Clone for WebRtc {
    fn clone(&self) -> (r: Self)
        ensures
            r == *self,
    {
        WebRtc { offer: clone_opt_string(&self.offer), answer: clone_opt_string(&self.answer) }
    }
}

impl Clone for Client {
    fn clone(&self) -> (r: Self)
        ensures
            r == *self,
    {
        Client { web_rtc: self.web_rtc.clone() }
    }
}

fn clone_opt_client(o: &Option<Client>) -> (r: Option<Client>)
    ensures
        r == *o,
{
    match o {
        Some(c) => Some(c.clone()),
        None => None,
    }
}

impl Clone for Peer {
    fn clone(&self) -> (r: Self)
        ensures
            r == *self,
    {
        Peer {
            created: self.created,
            public_key: self.public_key.clone(),
            web_rtc: self.web_rtc.clone(),
            client: clone_opt_client(&self.client),
        }
    }
}

} // verus!
