use crate::session::Session;
use std::collections::HashMap;
use vstd::prelude::*;

verus! {

broadcast use vstd::std_specs::hash::group_hash_axioms;

/// What a single join attempt observed, decided atomically under the
/// store's exclusive access:
/// - `Decremented(n)`: the session stays open with `n` slots left (`n >= 1`);
/// - `ClosedNow`: this attempt took the last slot and removed the session;
/// - `NotFound`: no session with that token exists (never created, already
///   closed, or already cancelled — indistinguishable by design).
#[derive(Clone, Copy, PartialEq, Eq, Structural, Debug)]
pub enum StoreOutcome {
    Decremented(i64),
    ClosedNow,
    NotFound,
}

/// The table after a join attempt on `token`: untouched when the token is
/// absent, the slot count lowered by one while at least one slot stays
/// open, and the whole entry gone when the attempt took the last slot
/// (or found a non-positive count, which a session created through the
/// lifecycle never has).
pub open spec fn store_after_join(m: Map<u64, Session>, token: u64) -> Map<u64, Session> {
    if !m.contains_key(token) {
        m
    } else if m[token].remaining >= 2 {
        m.insert(token, Session { title: m[token].title, remaining: (m[token].remaining - 1) as i64 })
    } else {
        m.remove(token)
    }
}

/// What a join attempt on `token` reports, in the same three cases as
/// `store_after_join`.
pub open spec fn join_outcome(m: Map<u64, Session>, token: u64) -> StoreOutcome {
    if !m.contains_key(token) {
        StoreOutcome::NotFound
    } else if m[token].remaining >= 2 {
        StoreOutcome::Decremented((m[token].remaining - 1) as i64)
    } else {
        StoreOutcome::ClosedNow
    }
}

/// True when a join attempt on `token` is the one that closes the session.
pub open spec fn join_closes(m: Map<u64, Session>, token: u64) -> bool {
    m.contains_key(token) && m[token].remaining <= 1
}

/// The table after a cancellation of `token`: the entry is gone if it was
/// present, and nothing changes if it was not.
pub open spec fn store_after_cancel(m: Map<u64, Session>, token: u64) -> Map<u64, Session> {
    if m.contains_key(token) {
        m.remove(token)
    } else {
        m
    }
}

/// What a cancellation of `token` gets back: the removed session, or
/// nothing when the token is absent.
pub open spec fn cancel_outcome(m: Map<u64, Session>, token: u64) -> Option<Session> {
    if m.contains_key(token) {
        Some(m[token])
    } else {
        None
    }
}

/// The shared table of in-flight recruitment sessions, keyed by token.
///
/// It exposes only compound operations that look up and mutate in one
/// step, so a caller never holds a read result across a write. The
/// abstract value is the map from token to session; keys are unique by
/// construction.
///
/// The store itself is a plain value: the component that drives it is
/// expected to keep it behind one mutual-exclusion lock and hold the
/// lock for a single operation at a time, never across I/O. Any set of
/// concurrent callers then observes some sequential order of these
/// operations, and the laws proved about sequences of them apply to
/// every such order.
pub struct SessionStore {
    table: HashMap<u64, Session>,
}

impl View for SessionStore {
    type V = Map<u64, Session>;

    closed spec fn view(&self) -> Map<u64, Session> {
        self.table@
    }
}

impl SessionStore {
    /// The empty table: no session is open.
    pub fn new() -> (store: SessionStore)
        ensures
            store@ == Map::<u64, Session>::empty(),
    {
        SessionStore { table: HashMap::new() }
    }

    /// Adds a fresh session under `token`. Fails, leaving the table as it
    /// was, exactly when the token is already taken; token generation is
    /// expected to make that impossible in practice.
    pub fn insert(&mut self, token: u64, session: Session) -> (inserted: bool)
        ensures
            inserted == !old(self)@.contains_key(token),
            inserted ==> final(self)@ == old(self)@.insert(token, session),
            !inserted ==> final(self)@ == old(self)@,
    {
        if self.table.contains_key(&token) {
            false
        } else {
            self.table.insert(token, session);
            true
        }
    }

    /// The atomic heart of the system: in one critical step, looks the
    /// session up, takes one slot, and removes the entry when the last
    /// slot went. Exactly one caller can ever observe `ClosedNow` for a
    /// given session; every later attempt finds the token absent.
    pub fn try_decrement_and_maybe_close(&mut self, token: u64) -> (outcome: StoreOutcome)
        ensures
            final(self)@ == store_after_join(old(self)@, token),
            outcome == join_outcome(old(self)@, token),
    {
        match self.table.remove(&token) {
            None => {
                proof {
                    assert(old(self)@.remove(token) =~= old(self)@);
                }
                StoreOutcome::NotFound
            },
            Some(session) => {
                if session.remaining >= 2 {
                    let slots_left: i64 = session.remaining - 1;
                    let reduced = Session { title: session.title, remaining: slots_left };
                    self.table.insert(token, reduced);
                    proof {
                        assert(old(self)@.remove(token).insert(token, reduced) =~= old(
                            self,
                        )@.insert(token, reduced));
                    }
                    StoreOutcome::Decremented(slots_left)
                } else {
                    StoreOutcome::ClosedNow
                }
            },
        }
    }

    /// Unconditionally removes the session under `token` and hands it
    /// back, or reports absence. Idempotent: a second removal of the same
    /// token finds nothing and changes nothing.
    pub fn remove(&mut self, token: u64) -> (removed: Option<Session>)
        ensures
            final(self)@ == store_after_cancel(old(self)@, token),
            removed == cancel_outcome(old(self)@, token),
    {
        let removed = self.table.remove(&token);
        proof {
            if !old(self)@.contains_key(token) {
                assert(old(self)@.remove(token) =~= old(self)@);
            }
        }
        removed
    }

    /// Whether a session with `token` is currently open.
    pub fn contains(&self, token: u64) -> (present: bool)
        ensures
            present == self@.contains_key(token),
    {
        self.table.contains_key(&token)
    }
}

} // verus!
