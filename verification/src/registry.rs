//! The rendezvous registry: a map of session records keyed by numeric
//! identifiers, with identifier allocation and time-based expiry.
//!
//! The registry itself is a sequential structure; the process that serves
//! requests wraps one instance in a readers-writer lock and serializes all
//! mutations through it.  Time is injected: every operation that reads the
//! clock takes the current time in milliseconds as an argument, so expiry
//! can be exercised with any clock.

use vstd::prelude::*;

verus! {

use std::collections::HashMap;

use crate::{ID_KEYSPACE, DEFAULT_TTL_MILLIS};
use crate::ident::{is_valid_id, str_val, format_id, parse_id};
use crate::record::{Peer, Client};
use crate::entropy::random_u64;

/// Number of random draws the identifier allocator makes before it falls
/// back to a deterministic scan of the keyspace.
pub const MAX_RANDOM_TRIES: u64 = 64;

/// Failures of the store itself.
#[derive(Debug)]
pub enum StoreError {
    /// The identifier named by the caller is not in the registry.
    NotFound,
    /// Every identifier of the keyspace is taken; no record was inserted.
    Exhausted,
}

/// A record is expired at `now` when its age has reached the lifetime `ttl`.
pub open spec fn expired(created: u64, now: u64, ttl: u64) -> bool {
    created + ttl <= now
}

/// The record a registry with model `m` serves for the identifier string
/// `id`: `None` unless `id` is a well-formed identifier naming a current
/// record.
pub open spec fn lookup(m: Map<u64, Peer>, id: Seq<char>) -> Option<Peer> {
    if is_valid_id(id) && m.contains_key(str_val(id) as u64) {
        Some(m[str_val(id) as u64])
    } else {
        None
    }
}

/// The reply sub-record served for `id`.  An unknown identifier and a known
/// record without a reply are deliberately indistinguishable: both give
/// `None`.
pub open spec fn lookup_client(m: Map<u64, Peer>, id: Seq<char>) -> Option<Client> {
    match lookup(m, id) {
        Some(p) => p.client,
        None => None,
    }
}

/// The registry of session records.
///
/// Its model is the map from numeric identifiers to records; every key lies
/// inside the keyspace ([`App::inv`]).
pub struct App {
    peers: HashMap<u64, Peer>,
    ttl_millis: u64,
}

impl View for App {
    type V = Map<u64, Peer>;

    closed spec fn view(&self) -> Map<u64, Peer> {
        self.peers@
    }
}

impl App {
    /// The record lifetime this registry evicts at, in milliseconds.
    pub closed spec fn spec_ttl(&self) -> u64 {
        self.ttl_millis
    }

    /// Every identifier in the registry lies inside the keyspace.
    pub open spec fn inv(&self) -> bool {
        forall|k: u64| #[trigger] self@.contains_key(k) ==> k < ID_KEYSPACE
    }

    /// An empty registry with the reference record lifetime.
    pub fn new() -> (app: App)
        ensures
            app@ == Map::<u64, Peer>::empty(),
            app.spec_ttl() == DEFAULT_TTL_MILLIS,
            app.inv(),
    {
        App { peers: HashMap::new(), ttl_millis: DEFAULT_TTL_MILLIS }
    }

    /// An empty registry that evicts records once they are `ttl_millis` old.
    pub fn with_ttl(ttl_millis: u64) -> (app: App)
        ensures
            app@ == Map::<u64, Peer>::empty(),
            app.spec_ttl() == ttl_millis,
            app.inv(),
    {
        App { peers: HashMap::new(), ttl_millis }
    }

    /// Draws random keys until one is found that is not in the registry;
    /// after [`MAX_RANDOM_TRIES`] draws it falls back to scanning the
    /// keyspace for the first free key, so it fails only when every
    /// identifier is taken.
    fn find_random_id(&self) -> (r: Result<u64, StoreError>)
        ensures
            match r {
                Ok(n) => n < ID_KEYSPACE && !self@.contains_key(n),
                Err(e) => e is Exhausted && (forall|n: u64|
                    n < ID_KEYSPACE ==> #[trigger] self@.contains_key(n)),
            },
    {
        let mut tries: u64 = 0;
        while tries < MAX_RANDOM_TRIES
            decreases MAX_RANDOM_TRIES - tries,
        {
            let candidate = random_u64() % ID_KEYSPACE;
            if !self.peers.contains_key(&candidate) {
                return Ok(candidate);
            }
            tries += 1;
        }
        let mut i: u64 = 0;
        while i < ID_KEYSPACE
            invariant
                i <= ID_KEYSPACE,
                forall|j: u64| j < i ==> #[trigger] self@.contains_key(j),
            decreases ID_KEYSPACE - i,
        {
            if !self.peers.contains_key(&i) {
                return Ok(i);
            }
            i += 1;
        }
        Err(StoreError::Exhausted)
    }

    /// Allocates a fresh identifier, stamps the record with the creation
    /// time `now`, and inserts it.  Returns the identifier string.
    ///
    /// Fails only when every identifier of the keyspace is taken; the
    /// registry is then unchanged.
    pub fn peer_create(&mut self, peer: Peer, now: u64) -> (r: Result<String, StoreError>)
        requires
            old(self).inv(),
        ensures
            final(self).inv(),
            final(self).spec_ttl() == old(self).spec_ttl(),
            match r {
                Ok(s) => {
                    let n = str_val(s@) as u64;
                    &&& is_valid_id(s@)
                    &&& !old(self)@.contains_key(n)
                    &&& final(self)@ == old(self)@.insert(n, (Peer {
                        created: now,
                        public_key: peer.public_key,
                        web_rtc: peer.web_rtc,
                        client: peer.client,
                    }))
                },
                Err(e) => {
                    &&& e is Exhausted
                    &&& final(self)@ == old(self)@
                    &&& forall|n: u64| n < ID_KEYSPACE ==> #[trigger] old(self)@.contains_key(n)
                },
            },
    {
        let n = match self.find_random_id() {
            Ok(n) => n,
            Err(e) => {
                return Err(e);
            },
        };
        let mut stamped = peer;
        stamped.created = now;
        self.peers.insert(n, stamped);
        let s = format_id(n);
        proof {
            assert(str_val(s@) == n as int);
        }
        Ok(s)
    }

    /// Returns a copy of the record under the identifier, or `None` when the
    /// identifier names no current record.
    pub fn peer_get(&self, id: &str) -> (r: Option<Peer>)
        ensures
            r == lookup(self@, id@),
    {
        let n = match parse_id(id) {
            Some(n) => n,
            None => {
                return None;
            },
        };
        match self.peers.get(&n) {
            Some(p) => Some(p.clone()),
            None => None,
        }
    }

    /// Returns a copy of the reply sub-record under the identifier.
    ///
    /// An unknown identifier and a known record without a reply both give
    /// `None`: the two cases are deliberately indistinguishable here.
    pub fn peer_client_get(&self, id: &str) -> (r: Option<Client>)
        ensures
            r == lookup_client(self@, id@),
    {
        let n = match parse_id(id) {
            Some(n) => n,
            None => {
                return None;
            },
        };
        match self.peers.get(&n) {
            Some(p) => match &p.client {
                Some(c) => Some(c.clone()),
                None => None,
            },
            None => None,
        }
    }

    /// Overwrites the reply sub-record of the identified record.
    ///
    /// Fails with `NotFound`, leaving the registry unchanged, when the
    /// identifier names no current record; never creates a record.
    pub fn peer_client_set(&mut self, id: &str, client: Client) -> (r: Result<(), StoreError>)
        requires
            old(self).inv(),
        ensures
            final(self).inv(),
            final(self).spec_ttl() == old(self).spec_ttl(),
            match r {
                Ok(()) => {
                    let n = str_val(id@) as u64;
                    &&& is_valid_id(id@)
                    &&& old(self)@.contains_key(n)
                    &&& final(self)@ == old(self)@.insert(n, (Peer {
                        created: old(self)@[n].created,
                        public_key: old(self)@[n].public_key,
                        web_rtc: old(self)@[n].web_rtc,
                        client: Some(client),
                    }))
                },
                Err(e) => {
                    &&& e is NotFound
                    &&& final(self)@ == old(self)@
                    &&& lookup(old(self)@, id@) is None
                },
            },
    {
        let n = match parse_id(id) {
            Some(n) => n,
            None => {
                return Err(StoreError::NotFound);
            },
        };
        let existing = match self.peers.get(&n) {
            Some(p) => Some(p.clone()),
            None => None,
        };
        match existing {
            Some(mut updated) => {
                updated.client = Some(client);
                self.peers.insert(n, updated);
                Ok(())
            },
            None => Err(StoreError::NotFound),
        }
    }

    /// One expiry sweep at time `now`: evicts exactly the records whose age
    /// has reached the record lifetime, complete or not, and leaves every
    /// younger record unchanged.
    pub fn cleanup(&mut self, now: u64)
        requires
            old(self).inv(),
        ensures
            final(self).inv(),
            final(self).spec_ttl() == old(self).spec_ttl(),
            forall|k: u64| #[trigger] final(self)@.contains_key(k) <==> (
                old(self)@.contains_key(k)
                    && !expired(old(self)@[k].created, now, old(self).spec_ttl())),
            forall|k: u64| #[trigger] final(self)@.contains_key(k)
                ==> final(self)@[k] == old(self)@[k],
    {
        let ttl = self.ttl_millis;
        let mut i: u64 = 0;
        while i < ID_KEYSPACE
            invariant
                i <= ID_KEYSPACE,
                self.spec_ttl() == old(self).spec_ttl(),
                ttl == old(self).spec_ttl(),
                old(self).inv(),
                forall|k: u64| #[trigger] self@.contains_key(k)
                    ==> old(self)@.contains_key(k) && self@[k] == old(self)@[k],
                forall|k: u64| k < i ==> (#[trigger] self@.contains_key(k) <==> (
                    old(self)@.contains_key(k)
                        && !expired(old(self)@[k].created, now, ttl))),
                forall|k: u64| i <= k ==> (#[trigger] self@.contains_key(k)
                    <==> old(self)@.contains_key(k)),
            decreases ID_KEYSPACE - i,
        {
            let ghost prev = self@;
            let expire = match self.peers.get(&i) {
                Some(p) => p.created <= now && now - p.created >= ttl,
                None => false,
            };
            proof {
                if expire {
                    assert(prev.contains_key(i));
                    assert(old(self)@.contains_key(i));
                    assert(expired(old(self)@[i].created, now, ttl));
                } else {
                    if prev.contains_key(i) {
                        assert(!expired(old(self)@[i].created, now, ttl));
                    }
                }
            }
            if expire {
                self.peers.remove(&i);
                proof {
                    assert(self@ == prev.remove(i));
                    assert(!self@.contains_key(i));
                    assert(forall|k: u64| #[trigger] self@.contains_key(k)
                        ==> prev.contains_key(k) && self@[k] == prev[k]);
                }
            }
            proof {
                assert forall|k: u64| k < i + 1 implies (#[trigger] self@.contains_key(k) <==> (
                    old(self)@.contains_key(k)
                        && !expired(old(self)@[k].created, now, ttl))) by {
                    if k < i {
                    } else {
                        if expire {
                            assert(!self@.contains_key(i));
                        } else {
                            assert(self@ == prev);
                            if old(self)@.contains_key(i) {
                                assert(prev.contains_key(i) ==> !expired(
                                    old(self)@[i].created, now, ttl));
                            }
                        }
                    }
                }
            }
            i += 1;
        }
    }
}

} // verus!
