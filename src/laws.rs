use vstd::prelude::*;

use crate::connection::{connection_stepped, InviteeState, StepOutcome};
use crate::error::VcxError;
use crate::message::A2AMessage;
use crate::presentation::{
    accepts, handled, sent_request, FailureReason, PresentationRequest, Verifier, VerifierSm,
    VerifierState,
};
use crate::registry::{Mutation, ObjectCache};
use crate::snapshot::{restored, snapshot_of, status_of_code};

verus! {

/// A live handle stays live when another value is added, and a handle that
/// was issued and then released or drained never becomes live again: `add`
/// hands out a fresh handle instead.
pub proof fn lemma_handle_lifecycle<T>(before: ObjectCache<T>, after: ObjectCache<T>, value: T, h: u32)
    requires
        before.wf(),
        after@ == before@.insert(before.next_spec(), value),
        after.next_spec() == before.next_spec() + 1,
    ensures
        before@.contains_key(h) ==> after@.contains_key(h),
        before.issued(h) && !before@.contains_key(h) ==> after.issued(h) && !after@.contains_key(h),
{
}

/// Two `get_mut` calls on one handle take effect one after the other: the
/// second mutator receives what the first stored, and the net effect is the
/// second one's value in the slot.
pub proof fn lemma_get_mut_serialized<T, R, S, F: FnOnce(T) -> Mutation<T, R>, G: FnOnce(T) -> Mutation<T, S>>(
    c0: ObjectCache<T>,
    c1: ObjectCache<T>,
    c2: ObjectCache<T>,
    h: u32,
    first: F,
    second: G,
    m1: Mutation<T, R>,
    m2: Mutation<T, S>,
)
    requires
        c0@.contains_key(h),
        first.ensures((c0@[h],), m1),
        c1@ == c0@.insert(h, m1.value),
        second.ensures((c1@[h],), m2),
        c2@ == c1@.insert(h, m2.value),
    ensures
        second.ensures((m1.value,), m2),
        c2@ == c0@.insert(h, m2.value),
        c2@.dom() == c0@.dom(),
{
    assert(c2@ =~= c0@.insert(h, m2.value));
    assert(c2@.dom() =~= c0@.dom());
}

/// A finished or failed verifier accepts no message, so handling any
/// message leaves it exactly as it was.
pub proof fn lemma_terminal_is_final<F: Fn(&PresentationRequest, &String) -> bool>(
    before: Verifier,
    after: Verifier,
    msg: A2AMessage,
    validate: F,
)
    requires
        before.sm.is_terminal(),
        handled(before, after, msg, validate),
    ensures
        !accepts(before.sm, before.source_id@, msg),
        after == before,
{
}

/// A send that fails leaves the verifier as it was, and a later send that
/// succeeds moves it to `PresentationRequestSent`.
pub proof fn lemma_send_retry<F: Fn(&String) -> Result<(), VcxError>, G: Fn(&String) -> Result<(), VcxError>>(
    v0: Verifier,
    v1: Verifier,
    v2: Verifier,
    failing: F,
    working: G,
    e: VcxError,
)
    requires
        sent_request(v0, v1, Err(e), failing),
        sent_request(v1, v2, Ok(()), working),
    ensures
        v1 == v0,
        v1.spec_state() == VerifierState::PresentationRequestSet.spec_code(),
        v2.spec_state() == VerifierState::PresentationRequestSent.spec_code(),
{
}

/// Handling a message a second time changes nothing: once consumed, the
/// message is no longer accepted by the state it led to.
pub proof fn lemma_verifier_message_idempotent<F: Fn(&PresentationRequest, &String) -> bool>(
    v0: Verifier,
    v1: Verifier,
    v2: Verifier,
    msg: A2AMessage,
    validate: F,
)
    requires
        handled(v0, v1, msg, validate),
        handled(v1, v2, msg, validate),
    ensures
        !accepts(v1.sm, v1.source_id@, msg),
        v2 == v1,
{
}

/// Applying a consumed message to the connection state a second time gives
/// the same state as applying it once.
pub proof fn lemma_connection_message_idempotent(
    s0: InviteeState,
    s1: InviteeState,
    s2: InviteeState,
    msg: A2AMessage,
    verified_first: bool,
    verified_second: bool,
    outcome: StepOutcome,
)
    requires
        connection_stepped(s0, msg, verified_first, s1, StepOutcome::Advanced),
        connection_stepped(s1, msg, verified_second, s2, outcome),
    ensures
        s2 == s1,
{
}

/// Restoring the snapshot of any verifier gives that verifier back, so
/// taking a snapshot of the restored verifier gives the same snapshot.
pub proof fn lemma_snapshot_round_trip(v: Verifier)
    ensures
        restored(snapshot_of(v)) == Some(v),
        snapshot_of(restored(snapshot_of(v)).unwrap()) == snapshot_of(v),
{
    match v.sm {
        VerifierSm::Finished { status, .. } => {
            assert(status_of_code(status.spec_code()) == Some(status));
        },
        VerifierSm::Failed { reason } => {
            assert(reason == FailureReason::Rejected || reason == FailureReason::Malformed);
        },
        _ => {},
    }
}

} // verus!
