use vstd::prelude::*;

use crate::error::{VcxError, VcxErrorKind};
use crate::message::{A2AMessage, DidDoc, ProtocolDescriptor, Response};

verus! {

/// What an invitation offers: the inviter's label and its provisional
/// (bootstrap) DID document.
pub struct Invitation {
    pub label: String,
    pub did_doc: DidDoc,
}

pub struct InvitedState {
    pub invitation: Invitation,
}

/// A connection request was sent under `thread_id`; `did_doc` is the
/// inviter's bootstrap document.
pub struct RequestedState {
    pub did_doc: DidDoc,
    pub thread_id: String,
}

/// A response arrived and its acknowledgement is awaiting delivery.
pub struct RespondedState {
    pub did_doc: DidDoc,
    pub response: Response,
}

/// A usable pairwise channel. `did_doc` is the peer's authenticated
/// document, `bootstrap_did_doc` the provisional copy kept for audit, and
/// `protocols` the features the peer disclosed, once asked.
pub struct CompleteState {
    pub did_doc: DidDoc,
    pub bootstrap_did_doc: DidDoc,
    pub protocols: Option<Vec<ProtocolDescriptor>>,
}

impl From<(CompleteState, Vec<ProtocolDescriptor>)> for CompleteState {
    fn from(input: (CompleteState, Vec<ProtocolDescriptor>)) -> CompleteState {
        let (state, protocols) = input;
        CompleteState {
            bootstrap_did_doc: state.bootstrap_did_doc,
            did_doc: state.did_doc,
            protocols: Some(protocols),
        }
    }
}

impl vstd::std_specs::convert::FromSpecImpl<(CompleteState, Vec<ProtocolDescriptor>)> for CompleteState {
    open spec fn obeys_from_spec() -> bool {
        true
    }

    open spec fn from_spec(input: (CompleteState, Vec<ProtocolDescriptor>)) -> CompleteState {
        CompleteState {
            bootstrap_did_doc: input.0.bootstrap_did_doc,
            did_doc: input.0.did_doc,
            protocols: Some(input.1),
        }
    }
}

impl From<(RequestedState, Response)> for CompleteState {
    fn from(input: (RequestedState, Response)) -> CompleteState {
        let (state, response) = input;
        CompleteState {
            bootstrap_did_doc: state.did_doc,
            did_doc: response.connection.did_doc,
            protocols: None,
        }
    }
}

impl vstd::std_specs::convert::FromSpecImpl<(RequestedState, Response)> for CompleteState {
    open spec fn obeys_from_spec() -> bool {
        true
    }

    open spec fn from_spec(input: (RequestedState, Response)) -> CompleteState {
        CompleteState {
            bootstrap_did_doc: input.0.did_doc,
            did_doc: input.1.connection.did_doc,
            protocols: None,
        }
    }
}

impl From<RespondedState> for CompleteState {
    fn from(state: RespondedState) -> CompleteState {
        CompleteState {
            bootstrap_did_doc: state.did_doc,
            did_doc: state.response.connection.did_doc,
            protocols: None,
        }
    }
}

impl vstd::std_specs::convert::FromSpecImpl<RespondedState> for CompleteState {
    open spec fn obeys_from_spec() -> bool {
        true
    }

    open spec fn from_spec(state: RespondedState) -> CompleteState {
        CompleteState {
            bootstrap_did_doc: state.did_doc,
            did_doc: state.response.connection.did_doc,
            protocols: None,
        }
    }
}

/// The invitee's side of connection establishment.
pub enum InviteeState {
    Initial,
    Invited(InvitedState),
    Requested(RequestedState),
    Responded(RespondedState),
    Complete(CompleteState),
}

/// How a message fared against the connection state.
#[derive(Clone, Copy, Debug, PartialEq, Eq, Structural)]
pub enum StepOutcome {
    /// The message was consumed and the state moved.
    Advanced,
    /// The state does not accept the message; it stays pending.
    NotAccepted,
    /// A response whose signature did not verify; the state is unchanged.
    VerificationFailed,
}

/// Whether `state` consumes `msg`: a response on the request's thread
/// while requested, an acknowledgement on the response's thread while
/// responded, and a disclosure once complete.
pub open spec fn connection_accepts(state: InviteeState, msg: A2AMessage) -> bool {
    match (state, msg) {
        (InviteeState::Requested(st), A2AMessage::ConnectionResponse(response)) => response.thread_id@
            == st.thread_id@,
        (InviteeState::Responded(st), A2AMessage::Ack { thread_id }) => thread_id@
            == st.response.thread_id@,
        (InviteeState::Complete(_), A2AMessage::Disclose { .. }) => true,
        _ => false,
    }
}

/// The state that an accepted, verified `msg` leads to.
pub open spec fn connection_next(state: InviteeState, msg: A2AMessage) -> InviteeState {
    match (state, msg) {
        (InviteeState::Requested(st), A2AMessage::ConnectionResponse(response)) => InviteeState::Complete(
            CompleteState { bootstrap_did_doc: st.did_doc, did_doc: response.connection.did_doc, protocols: None },
        ),
        (InviteeState::Responded(st), A2AMessage::Ack { .. }) => InviteeState::Complete(
            CompleteState {
                bootstrap_did_doc: st.did_doc,
                did_doc: st.response.connection.did_doc,
                protocols: None,
            },
        ),
        (InviteeState::Complete(st), A2AMessage::Disclose { protocols, .. }) => InviteeState::Complete(
            CompleteState {
                bootstrap_did_doc: st.bootstrap_did_doc,
                did_doc: st.did_doc,
                protocols: Some(protocols),
            },
        ),
        (s, _) => s,
    }
}

/// `(after, outcome)` is what `msg` makes of `before` when the response
/// signature check gives `verified`.
pub open spec fn connection_stepped(
    before: InviteeState,
    msg: A2AMessage,
    verified: bool,
    after: InviteeState,
    outcome: StepOutcome,
) -> bool {
    if !connection_accepts(before, msg) {
        outcome == StepOutcome::NotAccepted && after == before
    } else if msg is ConnectionResponse && !verified {
        outcome == StepOutcome::VerificationFailed && after == before
    } else {
        outcome == StepOutcome::Advanced && after == connection_next(before, msg)
    }
}

impl InviteeState {
    /// Whether the channel is established.
    pub fn is_complete(&self) -> (r: bool)
        ensures
            r == (*self is Complete),
    {
        matches!(self, InviteeState::Complete(_))
    }

    /// Accepts an invitation; only a fresh connection can.
    pub fn accept_invitation(self, invitation: Invitation) -> (r: Result<InviteeState, VcxError>)
        ensures
            self is Initial ==> r == Ok::<InviteeState, VcxError>(
                InviteeState::Invited(InvitedState { invitation }),
            ),
            !(self is Initial) ==> r == Err::<InviteeState, VcxError>(
                VcxError { kind: VcxErrorKind::InvalidState },
            ),
    {
        match self {
            InviteeState::Initial => Ok(InviteeState::Invited(InvitedState { invitation })),
            _ => Err(VcxError::from_kind(VcxErrorKind::InvalidState)),
        }
    }

    /// Records that the connection request went out under `thread_id`; the
    /// invitation's document is kept as the bootstrap copy.
    pub fn request_sent(self, thread_id: String) -> (r: Result<InviteeState, VcxError>)
        ensures
            match self {
                InviteeState::Invited(st) => r == Ok::<InviteeState, VcxError>(
                    InviteeState::Requested(
                        RequestedState { did_doc: st.invitation.did_doc, thread_id },
                    ),
                ),
                _ => r == Err::<InviteeState, VcxError>(
                    VcxError { kind: VcxErrorKind::InvalidState },
                ),
            },
    {
        match self {
            InviteeState::Invited(st) => Ok(
                InviteeState::Requested(RequestedState { did_doc: st.invitation.did_doc, thread_id }),
            ),
            _ => Err(VcxError::from_kind(VcxErrorKind::InvalidState)),
        }
    }

    /// Records a verified response whose acknowledgement is still to be
    /// delivered.
    pub fn response_received(self, response: Response) -> (r: Result<InviteeState, VcxError>)
        ensures
            match self {
                InviteeState::Requested(st) => r == Ok::<InviteeState, VcxError>(
                    InviteeState::Responded(RespondedState { did_doc: st.did_doc, response }),
                ),
                _ => r == Err::<InviteeState, VcxError>(
                    VcxError { kind: VcxErrorKind::InvalidState },
                ),
            },
    {
        match self {
            InviteeState::Requested(st) => Ok(
                InviteeState::Responded(RespondedState { did_doc: st.did_doc, response }),
            ),
            _ => Err(VcxError::from_kind(VcxErrorKind::InvalidState)),
        }
    }

    /// Whether the state consumes `msg`.
    pub fn accepts_message(&self, msg: &A2AMessage) -> (r: bool)
        ensures
            r == connection_accepts(*self, *msg),
    {
        match (self, msg) {
            (InviteeState::Requested(st), A2AMessage::ConnectionResponse(response)) => response.thread_id
                == st.thread_id,
            (InviteeState::Responded(st), A2AMessage::Ack { thread_id }) => *thread_id
                == st.response.thread_id,
            (InviteeState::Complete(_), A2AMessage::Disclose { .. }) => true,
            _ => false,
        }
    }

    /// Applies `msg` given the outcome `verified` of the signature check on
    /// a response. A message that the state does not accept, or a response
    /// that did not verify, leaves the state as it was.
    pub fn step(self, msg: A2AMessage, verified: bool) -> (r: (InviteeState, StepOutcome))
        ensures
            connection_stepped(self, msg, verified, r.0, r.1),
    {
        if !self.accepts_message(&msg) {
            return (self, StepOutcome::NotAccepted);
        }
        match (self, msg) {
            (InviteeState::Requested(st), A2AMessage::ConnectionResponse(response)) => {
                if !verified {
                    (InviteeState::Requested(st), StepOutcome::VerificationFailed)
                } else {
                    (InviteeState::Complete(CompleteState::from((st, response))), StepOutcome::Advanced)
                }
            },
            (InviteeState::Responded(st), A2AMessage::Ack { .. }) => {
                (InviteeState::Complete(CompleteState::from(st)), StepOutcome::Advanced)
            },
            (InviteeState::Complete(st), A2AMessage::Disclose { protocols, .. }) => {
                (InviteeState::Complete(CompleteState::from((st, protocols))), StepOutcome::Advanced)
            },
            (s, _) => (s, StepOutcome::NotAccepted),
        }
    }

    /// Applies `msg`, checking a response's signature with `verify`.
    pub fn handle_message<F: Fn(&Response) -> bool>(self, msg: A2AMessage, verify: &F) -> (r: (
        InviteeState,
        StepOutcome,
    ))
        requires
            forall|m: Response| verify.requires((&m,)),
        ensures
            exists|verified: bool|
                {
                    &&& connection_stepped(self, msg, verified, r.0, r.1)
                    &&& connection_accepts(self, msg) ==> match msg {
                        A2AMessage::ConnectionResponse(response) => verify.ensures(
                            (&response,),
                            verified,
                        ),
                        _ => true,
                    }
                },
    {
        let mut verified = true;
        if self.accepts_message(&msg) {
            if let A2AMessage::ConnectionResponse(response) = &msg {
                verified = verify(response);
            }
        }
        self.step(msg, verified)
    }
}

} // verus!
