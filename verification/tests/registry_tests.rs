use rendezvous::record::{Client, Peer, WebRtc};
use rendezvous::registry::{App, StoreError};

fn sample_peer(public_key: &str, offer: &str) -> Peer {
    Peer {
        created: 0,
        public_key: public_key.to_string(),
        web_rtc: WebRtc { offer: Some(offer.to_string()), answer: None },
        client: None,
    }
}

fn sample_client(answer: &str) -> Client {
    Client { web_rtc: WebRtc { offer: None, answer: Some(answer.to_string()) } }
}

#[test]
fn create_then_get_returns_submitted_record() {
    let mut app = App::new();
    let id = app.peer_create(sample_peer("pk1", "O"), 1000).unwrap();
    let peer = app.peer_get(id.as_str()).expect("record must be visible right after create");
    assert_eq!(peer.public_key.as_str(), "pk1");
    assert_eq!(peer.web_rtc.offer.as_deref(), Some("O"));
    assert_eq!(peer.web_rtc.answer, None);
    assert_eq!(peer.created, 1000);
    assert!(peer.client.is_none());
}

#[test]
fn get_unknown_identifier_returns_nothing() {
    let app = App::new();
    assert!(app.peer_get("4821").is_none());
    assert!(app.peer_get("0").is_none());
    assert!(app.peer_get("not-an-id").is_none());
}

#[test]
fn set_client_on_unknown_identifier_fails_and_creates_nothing() {
    let mut app = App::new();
    let r = app.peer_client_set("1234", sample_client("A"));
    assert!(matches!(r, Err(StoreError::NotFound)));
    assert!(app.peer_get("1234").is_none());
    assert!(app.peer_client_get("1234").is_none());
}

#[test]
fn set_client_then_get_client_returns_exactly_the_reply() {
    let mut app = App::new();
    let id = app.peer_create(sample_peer("pk1", "O"), 0).unwrap();
    app.peer_client_set(id.as_str(), sample_client("A")).unwrap();
    let client = app.peer_client_get(id.as_str()).expect("reply must be visible after set");
    assert_eq!(client.web_rtc.answer.as_deref(), Some("A"));
    assert_eq!(client.web_rtc.offer, None);
}

#[test]
fn set_client_overwrites_previous_reply() {
    let mut app = App::new();
    let id = app.peer_create(sample_peer("pk1", "O"), 0).unwrap();
    app.peer_client_set(id.as_str(), sample_client("first")).unwrap();
    app.peer_client_set(id.as_str(), sample_client("second")).unwrap();
    let client = app.peer_client_get(id.as_str()).unwrap();
    assert_eq!(client.web_rtc.answer.as_deref(), Some("second"));
}

#[test]
fn get_client_folds_unknown_and_missing_reply() {
    let mut app = App::new();
    let id = app.peer_create(sample_peer("pk1", "O"), 0).unwrap();
    assert!(app.peer_client_get(id.as_str()).is_none());
    assert!(app.peer_client_get("3333").is_none() || id.as_str() == "3333");
}

#[test]
fn many_creates_return_pairwise_distinct_identifiers() {
    let mut app = App::new();
    let mut ids: Vec<String> = Vec::new();
    for _ in 0..1000 {
        ids.push(app.peer_create(sample_peer("pk", "O"), 0).unwrap());
    }
    let mut sorted = ids.clone();
    sorted.sort();
    sorted.dedup();
    assert_eq!(sorted.len(), ids.len());
}

#[test]
fn record_lives_until_ttl_and_not_longer() {
    let mut app = App::with_ttl(1000);
    let id = app.peer_create(sample_peer("pk1", "O"), 5000).unwrap();

    app.cleanup(5000);
    assert!(app.peer_get(id.as_str()).is_some());

    app.cleanup(5999);
    assert!(app.peer_get(id.as_str()).is_some(), "a sweep before the TTL must keep the record");

    app.cleanup(6000);
    assert!(app.peer_get(id.as_str()).is_none(), "a sweep at the TTL must evict the record");
}

#[test]
fn cleanup_keeps_young_records_unchanged() {
    let mut app = App::with_ttl(1000);
    let id_old = app.peer_create(sample_peer("old", "O1"), 100).unwrap();
    let id_new = app.peer_create(sample_peer("new", "O2"), 900).unwrap();
    app.peer_client_set(id_new.as_str(), sample_client("A")).unwrap();

    app.cleanup(1200);
    assert!(app.peer_get(id_old.as_str()).is_none());
    let survivor = app.peer_get(id_new.as_str()).unwrap();
    assert_eq!(survivor.public_key.as_str(), "new");
    assert_eq!(survivor.created, 900);
    let client = app.peer_client_get(id_new.as_str()).unwrap();
    assert_eq!(client.web_rtc.answer.as_deref(), Some("A"));
}

#[test]
fn cleanup_of_empty_registry_does_nothing() {
    let mut app = App::with_ttl(0);
    app.cleanup(0);
    app.cleanup(u64::MAX);
    assert!(app.peer_get("0").is_none());
}

#[test]
fn writes_to_one_identifier_leave_others_untouched() {
    let mut app = App::new();
    let id_a = app.peer_create(sample_peer("a", "OA"), 10).unwrap();
    let id_b = app.peer_create(sample_peer("b", "OB"), 20).unwrap();
    app.peer_client_set(id_b.as_str(), sample_client("AB")).unwrap();

    let a = app.peer_get(id_a.as_str()).unwrap();
    assert_eq!(a.public_key.as_str(), "a");
    assert_eq!(a.created, 10);
    assert!(app.peer_client_get(id_a.as_str()).is_none());
}

#[test]
fn create_fails_only_when_keyspace_is_exhausted() {
    let mut app = App::new();
    for _ in 0..10000 {
        app.peer_create(sample_peer("pk", "O"), 0).unwrap();
    }
    let r = app.peer_create(sample_peer("pk", "O"), 0);
    assert!(matches!(r, Err(StoreError::Exhausted)));
}
