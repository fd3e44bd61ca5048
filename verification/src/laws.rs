use crate::session::Session;
use crate::store::{
    cancel_outcome, join_outcome, store_after_cancel, store_after_join, StoreOutcome,
};
use vstd::prelude::*;

verus! {

/// An inbound event aimed at an existing session: a join attempt on its
/// token, or a cancellation of it. (Creation draws a token of its own
/// and is not aimed at an existing one.)
pub enum SessionEvent {
    Join(u64),
    Cancel(u64),
}

/// The token an event is aimed at.
pub open spec fn event_token(event: SessionEvent) -> u64 {
    match event {
        SessionEvent::Join(token) => token,
        SessionEvent::Cancel(token) => token,
    }
}

/// The table after one event has been applied.
pub open spec fn store_after_event(m: Map<u64, Session>, event: SessionEvent) -> Map<
    u64,
    Session,
> {
    match event {
        SessionEvent::Join(token) => store_after_join(m, token),
        SessionEvent::Cancel(token) => store_after_cancel(m, token),
    }
}

/// The table after a sequence of events has been applied one at a time,
/// first element first. Concurrent callers of the store resolve to some
/// such sequence, since every operation runs alone in its critical
/// section.
pub open spec fn store_after_events(m: Map<u64, Session>, events: Seq<SessionEvent>) -> Map<
    u64,
    Session,
>
    decreases events.len(),
{
    if events.len() == 0 {
        m
    } else {
        store_after_events(store_after_event(m, events[0]), events.drop_first())
    }
}

/// Whether an event applied to this table observes nothing but absence.
pub open spec fn event_reports_not_found(m: Map<u64, Session>, event: SessionEvent) -> bool {
    match event {
        SessionEvent::Join(token) => join_outcome(m, token) is NotFound,
        SessionEvent::Cancel(token) => cancel_outcome(m, token) is None,
    }
}

/// The outcomes of a run of join attempts on one token, applied one at a
/// time, in the order the attempts were granted the critical section.
pub open spec fn join_outcomes(m: Map<u64, Session>, token: u64, attempts: nat) -> Seq<
    StoreOutcome,
>
    decreases attempts,
{
    if attempts == 0 {
        Seq::empty()
    } else {
        seq![join_outcome(m, token)] + join_outcomes(
            store_after_join(m, token),
            token,
            (attempts - 1) as nat,
        )
    }
}

/// The table after a run of join attempts on one token.
pub open spec fn store_after_joins(m: Map<u64, Session>, token: u64, attempts: nat) -> Map<
    u64,
    Session,
>
    decreases attempts,
{
    if attempts == 0 {
        m
    } else {
        store_after_joins(store_after_join(m, token), token, (attempts - 1) as nat)
    }
}

/// Atomic close. When a session has exactly one slot left, two join
/// attempts racing on it resolve in some order; whichever runs first
/// observes the close and removes the session, and the other observes
/// nothing but absence. The session is absent afterwards.
pub proof fn lemma_atomic_close(m: Map<u64, Session>, token: u64)
    requires
        m.contains_key(token),
        m[token].remaining == 1,
    ensures
        join_outcome(m, token) is ClosedNow,
        !store_after_join(m, token).contains_key(token),
        join_outcome(store_after_join(m, token), token) is NotFound,
        store_after_join(store_after_join(m, token), token) == store_after_join(m, token),
{
}

/// Linearizability. A session opened with `slots` slots, hit by `slots`
/// join attempts in any order of arrival, hands out each of the counts
/// `slots - 1` down to `1` exactly once, closes exactly once — on the
/// last attempt — and is absent afterwards. The outcome sequence is
/// pinned completely, so no count repeats and no attempt is lost.
pub proof fn lemma_linearizable_joins(m: Map<u64, Session>, token: u64, slots: i64)
    requires
        m.contains_key(token),
        m[token].remaining == slots,
        slots >= 1,
    ensures
        join_outcomes(m, token, slots as nat) =~= Seq::new(
            slots as nat,
            |i: int|
                if i < slots - 1 {
                    StoreOutcome::Decremented((slots - 1 - i) as i64)
                } else {
                    StoreOutcome::ClosedNow
                },
        ),
        !store_after_joins(m, token, slots as nat).contains_key(token),
    decreases slots,
{
    let expected = Seq::new(
        slots as nat,
        |i: int|
            if i < slots - 1 {
                StoreOutcome::Decremented((slots - 1 - i) as i64)
            } else {
                StoreOutcome::ClosedNow
            },
    );
    let actual = join_outcomes(m, token, slots as nat);
    let after_first = store_after_join(m, token);
    assert(store_after_joins(m, token, slots as nat) == store_after_joins(
        after_first,
        token,
        (slots - 1) as nat,
    ));
    if slots == 1 {
        assert(join_outcomes(after_first, token, 0) == Seq::<StoreOutcome>::empty());
        assert(store_after_joins(after_first, token, 0) == after_first);
        assert(actual =~= expected);
    } else {
        assert(after_first.contains_key(token));
        assert(after_first[token].remaining == slots - 1);
        lemma_linearizable_joins(after_first, token, (slots - 1) as i64);
        let rest = join_outcomes(after_first, token, (slots - 1) as nat);
        assert forall|i: int| 0 <= i < slots implies actual[i] == expected[i] by {
            if i >= 1 {
                assert(actual[i] == rest[i - 1]);
            }
        };
        assert(actual =~= expected);
    }
}

/// Idempotent cancel. Cancelling a live session removes it and hands its
/// record back once; a second cancellation of the same key observes
/// nothing but absence and changes nothing, whichever of two racing
/// requests happens to run first.
pub proof fn lemma_idempotent_cancel(m: Map<u64, Session>, token: u64)
    requires
        m.contains_key(token),
    ensures
        cancel_outcome(m, token) == Some(m[token]),
        !store_after_cancel(m, token).contains_key(token),
        cancel_outcome(store_after_cancel(m, token), token) is None,
        store_after_cancel(store_after_cancel(m, token), token) == store_after_cancel(m, token),
{
}

/// One event cannot bring an absent token back: it stays absent, and an
/// event aimed at it observes nothing and changes nothing.
pub proof fn lemma_absent_stays_absent(m: Map<u64, Session>, token: u64, event: SessionEvent)
    requires
        !m.contains_key(token),
    ensures
        !store_after_event(m, event).contains_key(token),
        event_token(event) == token ==> event_reports_not_found(m, event) && store_after_event(
            m,
            event,
        ) == m,
{
}

/// No ghost mutation. Once a token is absent from the table — closed,
/// cancelled, or never created — it is absent after every further run of
/// join and cancel events, and every event of the run aimed at it
/// observes nothing but absence.
pub proof fn lemma_no_ghost_mutation(m: Map<u64, Session>, token: u64, events: Seq<SessionEvent>)
    requires
        !m.contains_key(token),
    ensures
        !store_after_events(m, events).contains_key(token),
        forall|i: int|
            0 <= i < events.len() && event_token(events[i]) == token
                ==> event_reports_not_found(store_after_events(m, events.take(i)), events[i]),
    decreases events.len(),
{
    if events.len() > 0 {
        let after_first = store_after_event(m, events[0]);
        let rest = events.drop_first();
        lemma_absent_stays_absent(m, token, events[0]);
        lemma_no_ghost_mutation(after_first, token, rest);
        assert(events.take(0) =~= Seq::<SessionEvent>::empty());
        assert forall|i: int|
            1 <= i < events.len() && event_token(events[i]) == token implies event_reports_not_found(
            store_after_events(m, events.take(i)),
            events[i],
        ) by {
            assert(events.take(i)[0] == events[0]);
            assert(events.take(i).drop_first() =~= rest.take(i - 1));
            assert(store_after_events(m, events.take(i)) == store_after_events(
                after_first,
                rest.take(i - 1),
            ));
            assert(rest[i - 1] == events[i]);
        };
    }
}

} // verus!
