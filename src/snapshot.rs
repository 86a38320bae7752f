use vstd::prelude::*;

use crate::error::{VcxError, VcxErrorKind};
use crate::presentation::{FailureReason, PresentationRequest, PresentationStatus, Verifier, VerifierSm};

verus! {

/// A verifier flattened into plain values for persistence: the state and
/// status as their numeric codes, the text that the state carries (request
/// message, proposal or presentation), and whether a failure was a
/// rejection.
pub struct VerifierSnapshot {
    pub source_id: String,
    pub name: String,
    pub requested_attributes: String,
    pub requested_predicates: String,
    pub non_revoked: String,
    pub state: u32,
    pub status: u32,
    pub payload: Option<String>,
    pub rejected: bool,
}

pub open spec fn payload_of(sm: VerifierSm) -> Option<String> {
    match sm {
        VerifierSm::PresentationRequestSet { request_msg } => Some(request_msg),
        VerifierSm::PresentationProposalReceived { proposal } => Some(proposal),
        VerifierSm::PresentationRequestSent { request_msg } => Some(request_msg),
        VerifierSm::Finished { presentation, .. } => presentation,
        _ => None,
    }
}

/// The snapshot of `v`.
pub open spec fn snapshot_of(v: Verifier) -> VerifierSnapshot {
    VerifierSnapshot {
        source_id: v.source_id,
        name: v.request.name,
        requested_attributes: v.request.requested_attributes,
        requested_predicates: v.request.requested_predicates,
        non_revoked: v.request.non_revoked,
        state: v.spec_state(),
        status: v.sm.status().spec_code(),
        payload: payload_of(v.sm),
        rejected: v.sm == (VerifierSm::Failed { reason: FailureReason::Rejected }),
    }
}

pub open spec fn status_of_code(code: u32) -> Option<PresentationStatus> {
    if code == 0 {
        Some(PresentationStatus::Undefined)
    } else if code == 1 {
        Some(PresentationStatus::Verified)
    } else if code == 2 {
        Some(PresentationStatus::NotVerified)
    } else {
        None
    }
}

/// The state that a snapshot describes, if its codes and payload fit
/// together.
pub open spec fn sm_of_snapshot(s: VerifierSnapshot) -> Option<VerifierSm> {
    if s.state == 0 {
        Some(VerifierSm::Initial)
    } else if s.state == 1 {
        match s.payload {
            Some(m) => Some(VerifierSm::PresentationRequestSet { request_msg: m }),
            None => None,
        }
    } else if s.state == 2 {
        match s.payload {
            Some(p) => Some(VerifierSm::PresentationProposalReceived { proposal: p }),
            None => None,
        }
    } else if s.state == 3 {
        match s.payload {
            Some(m) => Some(VerifierSm::PresentationRequestSent { request_msg: m }),
            None => None,
        }
    } else if s.state == 4 {
        match status_of_code(s.status) {
            Some(status) => Some(VerifierSm::Finished { status, presentation: s.payload }),
            None => None,
        }
    } else if s.state == 5 {
        Some(
            VerifierSm::Failed {
                reason: if s.rejected {
                    FailureReason::Rejected
                } else {
                    FailureReason::Malformed
                },
            },
        )
    } else {
        None
    }
}

/// The verifier that a snapshot describes, if any.
pub open spec fn restored(s: VerifierSnapshot) -> Option<Verifier> {
    match sm_of_snapshot(s) {
        Some(sm) => Some(
            Verifier {
                source_id: s.source_id,
                request: PresentationRequest {
                    name: s.name,
                    requested_attributes: s.requested_attributes,
                    requested_predicates: s.requested_predicates,
                    non_revoked: s.non_revoked,
                },
                sm,
            },
        ),
        None => None,
    }
}

fn clone_payload(p: &Option<String>) -> (r: Option<String>)
    ensures
        r == *p,
{
    match p {
        Some(s) => Some(s.clone()),
        None => None,
    }
}

impl Verifier {
    /// Flattens the verifier for persistence.
    pub fn snapshot(&self) -> (r: VerifierSnapshot)
        ensures
            r == snapshot_of(*self),
    {
        let payload = match &self.sm {
            VerifierSm::PresentationRequestSet { request_msg } => Some(request_msg.clone()),
            VerifierSm::PresentationProposalReceived { proposal } => Some(proposal.clone()),
            VerifierSm::PresentationRequestSent { request_msg } => Some(request_msg.clone()),
            VerifierSm::Finished { presentation, .. } => clone_payload(presentation),
            _ => None,
        };
        let rejected = match &self.sm {
            VerifierSm::Failed { reason } => *reason == FailureReason::Rejected,
            _ => false,
        };
        VerifierSnapshot {
            source_id: self.source_id.clone(),
            name: self.request.name.clone(),
            requested_attributes: self.request.requested_attributes.clone(),
            requested_predicates: self.request.requested_predicates.clone(),
            non_revoked: self.request.non_revoked.clone(),
            state: self.get_state(),
            status: self.get_presentation_status(),
            payload,
            rejected,
        }
    }

    /// Rebuilds a verifier from a snapshot; fails with `InvalidJson` when
    /// the state or status code is unknown or a state lacks its payload.
    pub fn from_snapshot(s: VerifierSnapshot) -> (r: Result<Verifier, VcxError>)
        ensures
            match restored(s) {
                Some(v) => r == Ok::<Verifier, VcxError>(v),
                None => r == Err::<Verifier, VcxError>(VcxError { kind: VcxErrorKind::InvalidJson }),
            },
    {
        let invalid = VcxError::from_kind(VcxErrorKind::InvalidJson);
        let sm = if s.state == 0 {
            VerifierSm::Initial
        } else if s.state == 1 {
            match s.payload {
                Some(m) => VerifierSm::PresentationRequestSet { request_msg: m },
                None => return Err(invalid),
            }
        } else if s.state == 2 {
            match s.payload {
                Some(p) => VerifierSm::PresentationProposalReceived { proposal: p },
                None => return Err(invalid),
            }
        } else if s.state == 3 {
            match s.payload {
                Some(m) => VerifierSm::PresentationRequestSent { request_msg: m },
                None => return Err(invalid),
            }
        } else if s.state == 4 {
            let status = if s.status == 0 {
                PresentationStatus::Undefined
            } else if s.status == 1 {
                PresentationStatus::Verified
            } else if s.status == 2 {
                PresentationStatus::NotVerified
            } else {
                return Err(invalid);
            };
            VerifierSm::Finished { status, presentation: s.payload }
        } else if s.state == 5 {
            let reason = if s.rejected {
                FailureReason::Rejected
            } else {
                FailureReason::Malformed
            };
            VerifierSm::Failed { reason }
        } else {
            return Err(invalid);
        };
        Ok(
            Verifier {
                source_id: s.source_id,
                request: PresentationRequest {
                    name: s.name,
                    requested_attributes: s.requested_attributes,
                    requested_predicates: s.requested_predicates,
                    non_revoked: s.non_revoked,
                },
                sm,
            },
        )
    }
}

} // verus!
