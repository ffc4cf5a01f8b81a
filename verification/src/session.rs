//! The session store: a process-wide registry from opaque session-token
//! strings to `(principal, expiration time)`, created at login, read by every
//! authenticated request, and lazily cleaned of expired entries by the
//! lookups themselves. The store holds no persistent state: a restart
//! invalidates every session.
//!
//! Concurrency discipline: the store exposes `&mut` operations only; the
//! boundary layer shares it behind one process-wide exclusive lock, so each
//! operation — including the read-then-maybe-delete of [`SessionStore::authenticate`]
//! — is a single atomic step, and no lock is held across blocking work.

use crate::guards::SessionType;
use vstd::hash_map::StringHashMap;
use vstd::prelude::*;

verus! {

/// When a session stops being valid, as a timestamp in seconds: set at login
/// to the creation time plus the fixed session lifetime.
pub type ExpirationTime = i64;

/// What a lookup of `token` at time `now` in store state `m` returns: the
/// principal, while the token is present and unexpired; nothing otherwise.
/// "Expired" and "never existed" are indistinguishable by design.
pub open spec fn lookup_result(
    m: Map<Seq<char>, (SessionType, ExpirationTime)>,
    token: Seq<char>,
    now: i64,
) -> Option<SessionType> {
    if m.contains_key(token) && now <= m[token].1 {
        Some(m[token].0)
    } else {
        None
    }
}

/// The store state after a lookup of `token` at time `now`: the entry is
/// removed exactly when the lookup found it expired.
pub open spec fn store_after_lookup(
    m: Map<Seq<char>, (SessionType, ExpirationTime)>,
    token: Seq<char>,
    now: i64,
) -> Map<Seq<char>, (SessionType, ExpirationTime)> {
    if m.contains_key(token) && now > m[token].1 {
        m.remove(token)
    } else {
        m
    }
}

/// Process-wide mapping from session tokens to `(principal, expiration)`.
pub struct SessionStore {
    tokens: StringHashMap<(SessionType, ExpirationTime)>,
}

impl View for SessionStore {
    type V = Map<Seq<char>, (SessionType, ExpirationTime)>;

    closed spec fn view(&self) -> Self::V {
        self.tokens@
    }
}

impl SessionStore {
    /// An empty store, as a fresh process starts with.
    pub fn new() -> (r: SessionStore)
        ensures
            r@ == Map::<Seq<char>, (SessionType, ExpirationTime)>::empty(),
    {
        SessionStore { tokens: StringHashMap::new() }
    }

    /// Registers a session. On the (never observed) token collision the last
    /// writer wins.
    pub fn insert(&mut self, token: String, session_type: SessionType, expires_at: ExpirationTime)
        ensures
            final(self)@ == old(self)@.insert(token@, (session_type, expires_at)),
    {
        self.tokens.insert(token, (session_type, expires_at));
    }

    /// Removes a session; a token not in the store leaves it unchanged.
    pub fn remove(&mut self, token: &str)
        ensures
            final(self)@ == old(self)@.remove(token@),
    {
        self.tokens.remove(token);
    }

    /// Resolves a token at time `now`: returns the principal while the token
    /// is present and unexpired; deletes the entry as a side effect when it
    /// is present but expired. An expired token is reported exactly like an
    /// unknown one.
    pub fn authenticate(&mut self, token: &str, now: i64) -> (r: Option<SessionType>)
        ensures
            r == lookup_result(old(self)@, token@, now),
            final(self)@ == store_after_lookup(old(self)@, token@, now),
    {
        match self.tokens.get(token) {
            Some(entry) => {
                let (session_type, expiration_time) = *entry;
                if now > expiration_time {
                    self.tokens.remove(token);
                    None
                } else {
                    Some(session_type)
                }
            },
            None => None,
        }
    }

    /// The principal a token is bound to, ignoring expiry: the
    /// session-introspection view, with which a client discovers its own
    /// role without triggering a guard rejection.
    pub fn session_type_of(&self, token: &str) -> (r: Option<SessionType>)
        ensures
            r == (if self@.contains_key(token@) {
                Some(self@[token@].0)
            } else {
                None::<SessionType>
            }),
    {
        match self.tokens.get(token) {
            Some(entry) => Some(entry.0),
            None => None,
        }
    }
}

/// Law: a token, once expired, is rejected by the resolving lookup, is absent
/// from the store immediately after that lookup, and a later lookup of the
/// same token finds nothing and changes nothing — expiry is idempotent and a
/// lookup can never resurrect a token. Every guard resolves tokens through
/// [`lookup_result`], so every guard rejects it.
pub proof fn lemma_expired_token_rejected(
    m: Map<Seq<char>, (SessionType, ExpirationTime)>,
    token: Seq<char>,
    now: i64,
    later: i64,
)
    requires
        m.contains_key(token),
        now > m[token].1,
    ensures
        lookup_result(m, token, now) is None,
        store_after_lookup(m, token, now) == m.remove(token),
        !store_after_lookup(m, token, now).contains_key(token),
        lookup_result(store_after_lookup(m, token, now), token, later) is None,
        store_after_lookup(store_after_lookup(m, token, now), token, later) == store_after_lookup(
            m,
            token,
            now,
        ),
{
}

/// Law: a session registered at time `now` with expiration `expires_at` is
/// accepted, and resolves to its own principal, at every time up to and
/// including `expires_at`.
pub proof fn lemma_fresh_session_accepted(
    m: Map<Seq<char>, (SessionType, ExpirationTime)>,
    token: Seq<char>,
    session_type: SessionType,
    expires_at: ExpirationTime,
    now: i64,
)
    requires
        now <= expires_at,
    ensures
        lookup_result(m.insert(token, (session_type, expires_at)), token, now) == Some(
            session_type,
        ),
{
}

/// Law: sessions with distinct tokens do not displace one another: after two
/// insertions under different tokens both entries are present with their own
/// principal and expiration, and each is accepted while unexpired.
pub proof fn lemma_distinct_tokens_coexist(
    m: Map<Seq<char>, (SessionType, ExpirationTime)>,
    token1: Seq<char>,
    entry1: (SessionType, ExpirationTime),
    token2: Seq<char>,
    entry2: (SessionType, ExpirationTime),
    now: i64,
)
    requires
        token1 != token2,
    ensures
        m.insert(token1, entry1).insert(token2, entry2)[token1] == entry1,
        m.insert(token1, entry1).insert(token2, entry2)[token2] == entry2,
        now <= entry1.1 ==> lookup_result(m.insert(token1, entry1).insert(token2, entry2), token1, now)
            == Some(entry1.0),
        now <= entry2.1 ==> lookup_result(m.insert(token1, entry1).insert(token2, entry2), token2, now)
            == Some(entry2.0),
{
}

} // verus!
