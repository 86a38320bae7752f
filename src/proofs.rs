use vstd::prelude::*;

use crate::error::{VcxError, VcxErrorKind};
use crate::message::{A2AMessage, PendingMessage};
use crate::presentation::{
    marked_sent, polled, request_msg_of, request_well_formed, sent_request, PresentationRequest,
    StateUpdate, Verifier, VerifierSm,
};
use crate::registry::{Mutation, ObjectCache};

verus! {

/// The request that `create_proof` builds from its text arguments.
pub open spec fn request_from(
    name: String,
    requested_attrs: String,
    requested_predicates: String,
    revocation_details: String,
) -> PresentationRequest {
    PresentationRequest {
        name,
        requested_attributes: requested_attrs,
        requested_predicates,
        non_revoked: revocation_details,
    }
}

/// `r` is `Ok(0)` where `inner` is `Ok`, and `inner`'s error otherwise.
pub open spec fn code_result(inner: Result<(), VcxError>, r: Result<u32, VcxError>) -> bool {
    match inner {
        Ok(_) => r == Ok::<u32, VcxError>(0),
        Err(e) => r == Err::<u32, VcxError>(e),
    }
}

/// Creates a verifier for the given request and registers it. Fails with
/// `InvalidJson` when the attributes, predicates or revocation details are
/// not well-formed JSON, and with `CreateProof` when no handle is left.
pub fn create_proof(
    proofs: &mut ObjectCache<Verifier>,
    source_id: String,
    requested_attrs: String,
    requested_predicates: String,
    revocation_details: String,
    name: String,
) -> (r: Result<u32, VcxError>)
    requires
        old(proofs).wf(),
    ensures
        final(proofs).wf(),
        ({
            let request = request_from(
                name,
                requested_attrs,
                requested_predicates,
                revocation_details,
            );
            match r {
                Ok(h) => {
                    &&& request_well_formed(request)
                    &&& h == old(proofs).next_spec()
                    &&& !old(proofs)@.contains_key(h)
                    &&& final(proofs)@ == old(proofs)@.insert(h, final(proofs)@[h])
                    &&& final(proofs)@[h].source_id == source_id
                    &&& final(proofs)@[h].request == request
                    &&& final(proofs)@[h].sm matches VerifierSm::PresentationRequestSet {
                        request_msg,
                    }
                    &&& request_msg@ == request_msg_of(source_id@, request)
                },
                Err(e) => {
                    &&& *final(proofs) == *old(proofs)
                    &&& !request_well_formed(request) ==> e.kind == VcxErrorKind::InvalidJson
                    &&& request_well_formed(request) ==> e.kind == VcxErrorKind::CreateProof
                },
            }
        }),
        r is Ok <==> (request_well_formed(
            request_from(name, requested_attrs, requested_predicates, revocation_details),
        ) && old(proofs).next_spec() < u32::MAX),
{
    let request = PresentationRequest {
        name,
        requested_attributes: requested_attrs,
        requested_predicates,
        non_revoked: revocation_details,
    };
    let verifier = Verifier::create_from_request(source_id, request)?;
    match proofs.add(verifier) {
        Ok(h) => Ok(h),
        Err(_) => Err(VcxError::from_kind(VcxErrorKind::CreateProof)),
    }
}

pub fn is_valid_handle(proofs: &ObjectCache<Verifier>, handle: u32) -> (r: bool)
    requires
        proofs.wf(),
    ensures
        r == proofs@.contains_key(handle),
{
    proofs.has_handle(handle)
}

/// Polls the verifier under `handle` once (see `Verifier::update`): a
/// supplied `message` is applied directly, else `pending` is searched for
/// the first message that the state accepts.
pub fn update_state<F: Fn(&PresentationRequest, &String) -> bool>(
    proofs: &mut ObjectCache<Verifier>,
    handle: u32,
    message: Option<&A2AMessage>,
    pending: &Vec<PendingMessage>,
    validate: F,
) -> (r: Result<StateUpdate, VcxError>)
    requires
        old(proofs).wf(),
        forall|q: PresentationRequest, p: String| validate.requires((&q, &p)),
    ensures
        final(proofs).wf(),
        final(proofs).next_spec() == old(proofs).next_spec(),
        match r {
            Ok(u) => {
                &&& old(proofs)@.contains_key(handle)
                &&& final(proofs)@ == old(proofs)@.insert(handle, final(proofs)@[handle])
                &&& polled(
                    old(proofs)@[handle],
                    final(proofs)@[handle],
                    u,
                    message,
                    pending@,
                    validate,
                )
            },
            Err(e) => {
                &&& !old(proofs)@.contains_key(handle)
                &&& e.kind == VcxErrorKind::InvalidHandle
                &&& final(proofs)@ == old(proofs)@
            },
        },
{
    let poll = move |v: Verifier| -> (out: Mutation<Verifier, StateUpdate>)
        requires
            forall|q: PresentationRequest, p: String| validate.requires((&q, &p)),
        ensures
            polled(v, out.value, out.output, message, pending@, validate),
        {
            let mut v = v;
            let update = v.update(message, pending, &validate);
            Mutation { value: v, output: update }
        };
    proofs.get_mut(handle, poll)
}

pub fn get_state(proofs: &ObjectCache<Verifier>, handle: u32) -> (r: Result<u32, VcxError>)
    requires
        proofs.wf(),
    ensures
        match r {
            Ok(s) => proofs@.contains_key(handle) && s == proofs@[handle].spec_state(),
            Err(e) => !proofs@.contains_key(handle) && e.kind == VcxErrorKind::InvalidHandle,
        },
{
    let proof = proofs.get(handle)?;
    Ok(proof.get_state())
}

pub fn get_proof_state(proofs: &ObjectCache<Verifier>, handle: u32) -> (r: Result<u32, VcxError>)
    requires
        proofs.wf(),
    ensures
        match r {
            Ok(s) => proofs@.contains_key(handle) && s == proofs@[handle].sm.status().spec_code(),
            Err(e) => !proofs@.contains_key(handle) && e.kind == VcxErrorKind::InvalidHandle,
        },
{
    let proof = proofs.get(handle)?;
    Ok(proof.get_presentation_status())
}

/// Releases the verifier under `handle`; an unknown handle gives
/// `InvalidProofHandle`.
pub fn release(proofs: &mut ObjectCache<Verifier>, handle: u32) -> (r: Result<(), VcxError>)
    requires
        old(proofs).wf(),
    ensures
        final(proofs).wf(),
        final(proofs).next_spec() == old(proofs).next_spec(),
        final(proofs)@ == old(proofs)@.remove(handle),
        match r {
            Ok(_) => old(proofs)@.contains_key(handle),
            Err(e) => !old(proofs)@.contains_key(handle) && e.kind
                == VcxErrorKind::InvalidProofHandle,
        },
{
    match proofs.release(handle) {
        Ok(_) => Ok(()),
        Err(_) => Err(VcxError::from_kind(VcxErrorKind::InvalidProofHandle)),
    }
}

/// Releases every verifier.
pub fn release_all(proofs: &mut ObjectCache<Verifier>)
    requires
        old(proofs).wf(),
    ensures
        final(proofs).wf(),
        final(proofs).next_spec() == old(proofs).next_spec(),
        final(proofs)@ == Map::<u32, Verifier>::empty(),
{
    proofs.drain();
}

pub fn get_source_id(proofs: &ObjectCache<Verifier>, handle: u32) -> (r: Result<String, VcxError>)
    requires
        proofs.wf(),
    ensures
        match r {
            Ok(s) => proofs@.contains_key(handle) && s == proofs@[handle].source_id,
            Err(e) => !proofs@.contains_key(handle) && e.kind == VcxErrorKind::InvalidHandle,
        },
{
    let proof = proofs.get(handle)?;
    Ok(proof.get_source_id())
}

/// Sends the presentation request of the verifier under `handle` through
/// `send`; returns 0 on success. A failed send leaves the registry as it
/// was, so the call can be repeated.
pub fn send_proof_request<F: Fn(&String) -> Result<(), VcxError>>(
    proofs: &mut ObjectCache<Verifier>,
    handle: u32,
    send: F,
) -> (r: Result<u32, VcxError>)
    requires
        old(proofs).wf(),
        forall|m: String| send.requires((&m,)),
    ensures
        final(proofs).wf(),
        final(proofs).next_spec() == old(proofs).next_spec(),
        !old(proofs)@.contains_key(handle) ==> {
            &&& r == Err::<u32, VcxError>(VcxError { kind: VcxErrorKind::InvalidHandle })
            &&& final(proofs)@ == old(proofs)@
        },
        old(proofs)@.contains_key(handle) ==> exists|inner: Result<(), VcxError>|
            {
                &&& sent_request(old(proofs)@[handle], final(proofs)@[handle], inner, send)
                &&& code_result(inner, r)
                &&& final(proofs)@ == old(proofs)@.insert(handle, final(proofs)@[handle])
            },
{
    let send_once = move |v: Verifier| -> (out: Mutation<Verifier, Result<(), VcxError>>)
        requires
            forall|m: String| send.requires((&m,)),
        ensures
            sent_request(v, out.value, out.output, send),
        {
            let mut v = v;
            let r = v.send_presentation_request(&send);
            Mutation { value: v, output: r }
        };
    let res = proofs.get_mut(handle, send_once);
    match res {
        Ok(inner) => {
            let r = match inner {
                Ok(()) => Ok(0),
                Err(e) => Err(e),
            };
            assert(sent_request(old(proofs)@[handle], proofs@[handle], inner, send));
            assert(code_result(inner, r));
            r
        },
        Err(e) => Err(e),
    }
}

/// Records that the request of the verifier under `handle` was delivered
/// by other means.
pub fn mark_presentation_request_msg_sent(proofs: &mut ObjectCache<Verifier>, handle: u32) -> (r:
    Result<(), VcxError>)
    requires
        old(proofs).wf(),
    ensures
        final(proofs).wf(),
        final(proofs).next_spec() == old(proofs).next_spec(),
        !old(proofs)@.contains_key(handle) ==> {
            &&& r == Err::<(), VcxError>(VcxError { kind: VcxErrorKind::InvalidHandle })
            &&& final(proofs)@ == old(proofs)@
        },
        old(proofs)@.contains_key(handle) ==> {
            &&& marked_sent(old(proofs)@[handle], final(proofs)@[handle], r)
            &&& final(proofs)@ == old(proofs)@.insert(handle, final(proofs)@[handle])
        },
{
    let mark = |v: Verifier| -> (out: Mutation<Verifier, Result<(), VcxError>>)
        ensures
            marked_sent(v, out.value, out.output),
        {
            let mut v = v;
            let r = v.mark_presentation_request_msg_sent();
            Mutation { value: v, output: r }
        };
    let res = proofs.get_mut(handle, mark);
    match res {
        Ok(inner) => inner,
        Err(e) => Err(e),
    }
}

pub fn get_presentation_request_msg(proofs: &ObjectCache<Verifier>, handle: u32) -> (r: Result<
    String,
    VcxError,
>)
    requires
        proofs.wf(),
    ensures
        proofs@.contains_key(handle) ==> r == proofs@[handle].spec_presentation_request_msg(),
        !proofs@.contains_key(handle) ==> r == Err::<String, VcxError>(
            VcxError { kind: VcxErrorKind::InvalidHandle },
        ),
{
    let proof = proofs.get(handle)?;
    proof.get_presentation_request_msg()
}

pub fn get_presentation_msg(proofs: &ObjectCache<Verifier>, handle: u32) -> (r: Result<
    String,
    VcxError,
>)
    requires
        proofs.wf(),
    ensures
        proofs@.contains_key(handle) ==> r == proofs@[handle].spec_presentation_msg(),
        !proofs@.contains_key(handle) ==> r == Err::<String, VcxError>(
            VcxError { kind: VcxErrorKind::InvalidHandle },
        ),
{
    let proof = proofs.get(handle)?;
    proof.get_presentation_msg()
}

pub fn get_thread_id(proofs: &ObjectCache<Verifier>, handle: u32) -> (r: Result<String, VcxError>)
    requires
        proofs.wf(),
    ensures
        proofs@.contains_key(handle) ==> r == proofs@[handle].spec_thread_id(),
        !proofs@.contains_key(handle) ==> r == Err::<String, VcxError>(
            VcxError { kind: VcxErrorKind::InvalidHandle },
        ),
{
    let proof = proofs.get(handle)?;
    proof.get_thread_id()
}

} // verus!
