use crate::session::Session;
use crate::store::{
    join_closes, store_after_cancel, store_after_join, SessionStore, StoreOutcome,
};
use vstd::prelude::*;

verus! {

/// The render instruction handed back to the adapter for every inbound
/// event. The adapter turns it into a user-visible message; this core
/// never renders text itself.
///
/// `Announce` carries the two affordance keys of the new announcement:
/// `join_key` names the session for join attempts and `cancel_key` for
/// cancellation. The core keys both affordances by the session token and
/// leaves it to the adapter to encode them distinguishably on the wire
/// (for instance by a fixed suffix on the cancel key).
#[derive(Debug)]
pub enum Render {
    Announce { title: String, requested_count: i64, join_key: u64, cancel_key: u64 },
    JoinAck { actor: String, remaining: i64 },
    ClosedAck { actor: String },
    CancelledAck { title: String },
    NotFound,
}

impl Render {
    /// The instructions that carry the retire-announcement signal: the
    /// acknowledgements of the session's two terminal transitions.
    pub open spec fn spec_retires(&self) -> bool {
        self is ClosedAck || self is CancelledAck
    }

    /// Whether the adapter should also retire the original announcement
    /// when it delivers this instruction.
    pub fn retires_announcement(&self) -> (retire: bool)
        ensures
            retire == self.spec_retires(),
    {
        match self {
            Render::ClosedAck { .. } => true,
            Render::CancelledAck { .. } => true,
            _ => false,
        }
    }
}

/// Why a creation request was refused. Both refusals leave the store
/// untouched.
#[derive(Clone, Copy, PartialEq, Eq, Structural, Debug)]
pub enum CreateError {
    /// The requested slot count was zero or negative. A recruitment for
    /// nobody means nothing, so the policy here is to refuse such a
    /// count at creation; every stored session then has at least one
    /// open slot.
    NonPositiveCount,
    /// The drawn token is already in use. Tokens are drawn from a space
    /// of 2^64 values, so this is not expected to happen in practice; it
    /// is reported rather than papered over because nothing proves the
    /// draw fresh.
    TokenInUse,
}

/// Relies on `uuid::Uuid::new_v4` and `uuid::Uuid::as_u64_pair`: a
/// version-4 identifier is drawn from the process's random source and
/// its high 64 bits are kept. The value is random, so nothing is
/// promised of it; the caller must check it against the store.
#[verifier::external_body]
fn draw_token() -> (token: u64) {
    uuid::Uuid::new_v4().as_u64_pair().0
}

/// Opens a recruitment session under a caller-supplied token.
///
/// With a positive `requested_count` and a token not yet in use, the
/// session is stored with all `requested_count` slots open and the
/// announcement instruction comes back, carrying the title, the count
/// and the two affordance keys (both the token). A non-positive count
/// or a taken token is refused and the store stays as it was.
pub fn create_with_token(
    store: &mut SessionStore,
    token: u64,
    title: String,
    requested_count: i64,
) -> (result: Result<Render, CreateError>)
    ensures
        requested_count <= 0 ==> {
            &&& result matches Err(e) && e is NonPositiveCount
            &&& final(store)@ == old(store)@
        },
        requested_count >= 1 && old(store)@.contains_key(token) ==> {
            &&& result matches Err(e) && e is TokenInUse
            &&& final(store)@ == old(store)@
        },
        requested_count >= 1 && !old(store)@.contains_key(token) ==> {
            &&& result matches Ok(render)
            &&& render matches Render::Announce {
                title: announced,
                requested_count: count,
                join_key,
                cancel_key,
            }
            &&& announced@ == title@
            &&& count == requested_count
            &&& join_key == token
            &&& cancel_key == token
            &&& final(store)@ == old(store)@.insert(
                token,
                Session { title, remaining: requested_count },
            )
        },
{
    if requested_count <= 0 {
        return Err(CreateError::NonPositiveCount);
    }
    let announced = title.clone();
    let session = Session { title, remaining: requested_count };
    if store.insert(token, session) {
        Ok(
            Render::Announce {
                title: announced,
                requested_count,
                join_key: token,
                cancel_key: token,
            },
        )
    } else {
        Err(CreateError::TokenInUse)
    }
}

/// Handles a `CreateSession` event: draws a fresh token and opens the
/// session under it.
///
/// The token comes from a random draw, so its freshness cannot be
/// promised; what is promised is that on success the announced key was
/// absent before and maps to the new session after, and that any refusal
/// leaves the store untouched. A `TokenInUse` refusal can only happen
/// when some session is already open.
pub fn handle_create(store: &mut SessionStore, title: String, requested_count: i64) -> (result:
    Result<Render, CreateError>)
    ensures
        requested_count <= 0 <==> (result matches Err(e) && e is NonPositiveCount),
        result matches Err(e) && e is NonPositiveCount ==> final(store)@ == old(store)@,
        result matches Err(e) && e is TokenInUse ==> {
            &&& final(store)@ == old(store)@
            &&& exists|taken: u64| old(store)@.contains_key(taken)
        },
        result matches Ok(render) ==> {
            &&& requested_count >= 1
            &&& render matches Render::Announce {
                title: announced,
                requested_count: count,
                join_key,
                cancel_key,
            }
            &&& announced@ == title@
            &&& count == requested_count
            &&& cancel_key == join_key
            &&& !old(store)@.contains_key(join_key)
            &&& final(store)@ == old(store)@.insert(
                join_key,
                Session { title, remaining: requested_count },
            )
        },
{
    let token = draw_token();
    create_with_token(store, token, title, requested_count)
}

/// Handles a `JoinAttempt` event against the store.
///
/// The decrement and the removal on reaching zero happen in one atomic
/// store operation; this function only translates the observed outcome
/// into a render instruction. The actor is echoed back untouched. The
/// instruction carries the retire signal exactly when this attempt is
/// the one that closed the session.
pub fn handle_join(store: &mut SessionStore, token: u64, actor: String) -> (render: Render)
    ensures
        final(store)@ == store_after_join(old(store)@, token),
        !old(store)@.contains_key(token) ==> render is NotFound,
        old(store)@.contains_key(token) && old(store)@[token].remaining >= 2 ==> {
            &&& render matches Render::JoinAck { actor: who, remaining }
            &&& who == actor
            &&& remaining == old(store)@[token].remaining - 1
        },
        join_closes(old(store)@, token) ==> (render matches Render::ClosedAck { actor: who }
            && who == actor),
        render.spec_retires() == join_closes(old(store)@, token),
{
    match store.try_decrement_and_maybe_close(token) {
        StoreOutcome::Decremented(remaining) => Render::JoinAck { actor, remaining },
        StoreOutcome::ClosedNow => Render::ClosedAck { actor },
        StoreOutcome::NotFound => Render::NotFound,
    }
}

/// Handles a `CancelRequest` event against the store.
///
/// The cancel key names the session token (the adapter strips its own
/// wire encoding before calling in). Whoever holds the key may cancel:
/// cancellation is deliberately not restricted to the session's owner.
/// A present session is removed and its
/// title acknowledged with the retire signal; an absent token — never
/// created, already closed, or already cancelled — reports `NotFound`,
/// so a repeated cancellation is acknowledged exactly once.
pub fn handle_cancel(store: &mut SessionStore, cancel_key: u64, _actor: String) -> (render: Render)
    ensures
        final(store)@ == store_after_cancel(old(store)@, cancel_key),
        !old(store)@.contains_key(cancel_key) ==> render is NotFound,
        old(store)@.contains_key(cancel_key) ==> (render matches Render::CancelledAck { title }
            && title == old(store)@[cancel_key].title),
        render.spec_retires() == old(store)@.contains_key(cancel_key),
{
    match store.remove(cancel_key) {
        Some(session) => Render::CancelledAck { title: session.title },
        None => Render::NotFound,
    }
}

} // verus!
