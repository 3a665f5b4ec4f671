//! The wire shapes and paths of the exchange-protocol client.
//!
//! The HTTP transport itself lives outside the library; what is verified
//! here is everything the client computes: the request bodies it posts and
//! the paths it posts them to.  Session descriptions are opaque payloads
//! and are carried as their serialized text.

use vstd::prelude::*;

verus! {

/// Body of a posted offer.
pub struct OfferTo {
    pub peer: OfferPeerTo,
}

/// The record part of a posted offer.
pub struct OfferPeerTo {
    pub public_key: String,
    pub web_rtc: OfferPeerWebRTCTo,
}

/// The negotiation part of a posted offer: the serialized session
/// description.
pub struct OfferPeerWebRTCTo {
    pub offer: String,
}

/// Answer to a posted offer: the identifier the registry allocated.
pub struct OfferResponse {
    pub identifier: String,
}

/// Body of a posted answer.
pub struct AnswerTo {
    pub client: AnswerPeerTo,
}

/// The reply part of a posted answer.
pub struct AnswerPeerTo {
    pub public_key: Option<String>,
    pub web_rtc: AnswerPeerWebRTCTo,
}

/// The negotiation part of a posted answer: the serialized session
/// description.
pub struct AnswerPeerWebRTCTo {
    pub answer: String,
}

/// The body an initiator posts for its offer.  The exchange does not
/// authenticate callers, so the public key is the fixed placeholder
/// `"none"`.
pub fn offer_request(offer: String) -> (r: OfferTo)
    ensures
        r.peer.public_key@ == "none"@,
        r.peer.web_rtc.offer == offer,
{
    OfferTo {
        peer: OfferPeerTo {
            public_key: String::from_str("none"),
            web_rtc: OfferPeerWebRTCTo { offer },
        },
    }
}

/// The body a responder posts for its answer, with the same placeholder
/// public key as the offer.
pub fn answer_request(answer: String) -> (r: AnswerTo)
    ensures
        r.client.public_key matches Some(k) && k@ == "none"@,
        r.client.web_rtc.answer == answer,
{
    AnswerTo {
        client: AnswerPeerTo {
            public_key: Some(String::from_str("none")),
            web_rtc: AnswerPeerWebRTCTo { answer },
        },
    }
}

/// The path offers are posted to.
pub fn peer_path(base_url: &str) -> (r: String)
    ensures
        r@ == base_url@ + "/api/peer"@,
{
    String::from_str(base_url).concat("/api/peer")
}

/// The path one session's offer is fetched from.
pub fn peer_id_path(base_url: &str, id: &str) -> (r: String)
    ensures
        r@ == base_url@ + "/api/peer/"@ + id@,
{
    String::from_str(base_url).concat("/api/peer/").concat(id)
}

/// The path one session's answer is posted to and fetched from.
pub fn peer_client_path(base_url: &str, id: &str) -> (r: String)
    ensures
        r@ == base_url@ + "/api/peer/"@ + id@ + "/client"@,
{
    String::from_str(base_url).concat("/api/peer/").concat(id).concat("/client")
}

} // verus!
