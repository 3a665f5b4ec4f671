use rendezvous::api::{
    internal_error_response, peer_client_get_handler, peer_client_set_handler,
    peer_create_handler, peer_get_handler, PeerClientCreateRequest, PeerCreateRequest, Reply,
    Status,
};
use rendezvous::record::{Client, WebRtc};
use rendezvous::registry::App;

fn create_request(public_key: &str, offer: &str) -> PeerCreateRequest {
    PeerCreateRequest::from_wire(public_key.to_string(), Some(offer.to_string()), None)
}

fn reply_request(answer: &str) -> PeerClientCreateRequest {
    PeerClientCreateRequest {
        client: Client { web_rtc: WebRtc { offer: None, answer: Some(answer.to_string()) } },
    }
}

#[test]
fn status_codes_follow_the_mapping() {
    assert_eq!(Status::Success.code(), 200);
    assert_eq!(Status::NotFound.code(), 404);
    assert_eq!(Status::ServerError.code(), 500);
}

#[test]
fn end_to_end_exchange_scenario() {
    let mut app = App::new();

    let created = peer_create_handler(&mut app, create_request("pk1", "O"), 0);
    assert_eq!(created.status, Status::Success);
    let id = match created.reply {
        Reply::Created(body) => body.identifier,
        _ => panic!("create must answer with the identifier"),
    };

    let fetched = peer_get_handler(&app, id.as_str());
    assert_eq!(fetched.status, Status::Success);
    match fetched.reply {
        Reply::Fetched(body) => {
            assert_eq!(body.peer.public_key.as_str(), "pk1");
            assert_eq!(body.peer.web_rtc.offer.as_deref(), Some("O"));
            assert!(body.peer.client.is_none());
        },
        _ => panic!("get must answer with the record"),
    }

    let set = peer_client_set_handler(&mut app, id.as_str(), reply_request("A"));
    assert_eq!(set.status, Status::Success);
    assert!(matches!(set.reply, Reply::Empty(_)));

    let polled = peer_client_get_handler(&app, id.as_str());
    assert_eq!(polled.status, Status::Success);
    match polled.reply {
        Reply::FetchedClient(body) => {
            let client = body.client.expect("the attached reply must be served");
            assert_eq!(client.web_rtc.answer.as_deref(), Some("A"));
        },
        _ => panic!("getClient must answer with the client field"),
    }

    let unknown = if id.as_str() == "9999" { "9998" } else { "9999" };
    let folded = peer_client_get_handler(&app, unknown);
    assert_eq!(folded.status, Status::Success, "an unknown id is folded, not an error");
    match folded.reply {
        Reply::FetchedClient(body) => assert!(body.client.is_none()),
        _ => panic!("getClient must answer with the client field"),
    }
}

#[test]
fn get_handler_answers_not_found_for_unknown_identifier() {
    let app = App::new();
    let r = peer_get_handler(&app, "4821");
    assert_eq!(r.status, Status::NotFound);
    assert_eq!(r.status.code(), 404);
    assert!(matches!(r.reply, Reply::Empty(_)));
}

#[test]
fn set_handler_answers_not_found_for_unknown_identifier() {
    let mut app = App::new();
    let r = peer_client_set_handler(&mut app, "17", reply_request("A"));
    assert_eq!(r.status, Status::NotFound);
    assert!(matches!(r.reply, Reply::Empty(_)));
    assert!(app.peer_get("17").is_none());
}

#[test]
fn create_handler_reports_exhaustion_as_server_error() {
    let mut app = App::new();
    for _ in 0..10000 {
        let r = peer_create_handler(&mut app, create_request("pk", "O"), 0);
        assert_eq!(r.status, Status::Success);
    }
    let r = peer_create_handler(&mut app, create_request("pk", "O"), 0);
    assert_eq!(r.status, Status::ServerError);
    assert_eq!(r.status.code(), 500);
    assert!(matches!(r.reply, Reply::Failed(_)));
}

#[test]
fn internal_error_response_carries_the_message() {
    let r = internal_error_response("poisoned lock".to_string());
    assert_eq!(r.status, Status::ServerError);
    match r.reply {
        Reply::Failed(body) => assert_eq!(body.message.as_str(), "poisoned lock"),
        _ => panic!("an internal error must carry its message"),
    }
}

#[test]
fn from_wire_starts_without_reply() {
    let req = PeerCreateRequest::from_wire("pk".to_string(), Some("O".to_string()), None);
    assert!(req.peer.client.is_none());
    assert_eq!(req.peer.created, 0);
    assert_eq!(req.peer.public_key.as_str(), "pk");
    assert_eq!(req.peer.web_rtc.offer.as_deref(), Some("O"));
    assert_eq!(req.peer.web_rtc.answer, None);
}
