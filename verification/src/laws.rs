//! The cross-operation guarantees of the registry, proved over its model.
//!
//! Each law is stated against the same spec functions the operations'
//! contracts use: the registry model `Map<u64, Peer>`, [`lookup`] and
//! [`lookup_client`], and the identifier form [`is_valid_id`].  The
//! premises of each law are exactly what the corresponding operations
//! ensure, so the law composes with any sequence of verified calls.

use vstd::prelude::*;

verus! {

use crate::record::{Peer, Client};
use crate::registry::{lookup, lookup_client, expired};
use crate::ident::{is_valid_id, str_val};

/// After a successful `create` that returned the identifier `s`, a `get`
/// with `s` on the new registry state returns the submitted public key and
/// payloads unchanged, stamped with the creation time — and, when the
/// record was submitted without a reply, the reply is still absent.
pub proof fn lemma_create_then_get(m: Map<u64, Peer>, p: Peer, s: Seq<char>, now: u64)
    requires
        is_valid_id(s),
        !m.contains_key(str_val(s) as u64),
    ensures
        lookup(m.insert(str_val(s) as u64, (Peer {
            created: now,
            public_key: p.public_key,
            web_rtc: p.web_rtc,
            client: p.client,
        })), s) == Some((Peer {
            created: now,
            public_key: p.public_key,
            web_rtc: p.web_rtc,
            client: p.client,
        })),
{
}

/// A `get` with an identifier that names no record — one never created,
/// malformed, or already reaped — returns nothing.
pub proof fn lemma_get_absent(m: Map<u64, Peer>, s: Seq<char>)
    requires
        !is_valid_id(s) || !m.contains_key(str_val(s) as u64),
    ensures
        lookup(m, s) is None,
{
}

/// After a successful `setClient` with the reply `c`, a `getClient` with
/// the same identifier on the new registry state returns exactly `c`.
pub proof fn lemma_set_then_get_client(m: Map<u64, Peer>, s: Seq<char>, c: Client)
    requires
        is_valid_id(s),
        m.contains_key(str_val(s) as u64),
    ensures
        lookup_client(m.insert(str_val(s) as u64, (Peer {
            created: m[str_val(s) as u64].created,
            public_key: m[str_val(s) as u64].public_key,
            web_rtc: m[str_val(s) as u64].web_rtc,
            client: Some(c),
        })), s) == Some(c),
{
}

/// Two successful `create` calls return distinct identifiers, as long as
/// the first record is still registered when the second call runs.  Since
/// `create` and `setClient` never remove a record, this covers every pair
/// among a series of `create` calls with no expiry sweep in between: all
/// the identifiers handed out are pairwise distinct.
pub proof fn lemma_distinct_identifiers(
    m0: Map<u64, Peer>,
    m1: Map<u64, Peer>,
    inserted: Peer,
    s1: Seq<char>,
    s2: Seq<char>,
)
    requires
        is_valid_id(s1),
        is_valid_id(s2),
        !m0.contains_key(str_val(s1) as u64),
        m1 == m0.insert(str_val(s1) as u64, inserted),
        !m1.contains_key(str_val(s2) as u64),
    ensures
        s1 != s2,
{
    assert(m1.contains_key(str_val(s1) as u64));
}

/// Per-identifier isolation: writing a record under one numeric key — a
/// `create` or a `setClient` — changes nothing that is served for any
/// identifier string with a different value.  A record is therefore
/// visible to every query between its creation and the sweep that evicts
/// it, whatever traffic other identifiers see.
pub proof fn lemma_other_identifiers_unaffected(m: Map<u64, Peer>, n: u64, p: Peer, s: Seq<char>)
    requires
        str_val(s) != n,
    ensures
        lookup(m.insert(n, p), s) == lookup(m, s),
        lookup_client(m.insert(n, p), s) == lookup_client(m, s),
{
}

/// The expiry boundary of one sweep: a record created at time `t` survives
/// a sweep run at any time before `t + ttl` unchanged, and is gone after a
/// sweep run at or past `t + ttl`.  The two premises are exactly what
/// `cleanup` ensures of the registry states before and after the sweep.
pub proof fn lemma_expiry_boundary(
    m_pre: Map<u64, Peer>,
    m_post: Map<u64, Peer>,
    k: u64,
    now: u64,
    ttl: u64,
)
    requires
        forall|j: u64| #[trigger] m_post.contains_key(j) <==> (m_pre.contains_key(j)
            && !expired(m_pre[j].created, now, ttl)),
        forall|j: u64| #[trigger] m_post.contains_key(j) ==> m_post[j] == m_pre[j],
        m_pre.contains_key(k),
    ensures
        now < m_pre[k].created + ttl ==> m_post.contains_key(k) && m_post[k] == m_pre[k],
        now >= m_pre[k].created + ttl ==> !m_post.contains_key(k),
{
    assert(m_post.contains_key(k) <==> (m_pre.contains_key(k)
        && !expired(m_pre[k].created, now, ttl)));
}

} // verus!
