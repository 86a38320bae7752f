use vstd::prelude::*;
use vstd::string::StringExecFns;

use crate::error::{VcxError, VcxErrorKind};
use crate::json::{is_json, json_string_literal, json_valid, quote};
use crate::message::{A2AMessage, PendingMessage};

verus! {

/// The phase of a verifier, as reported to callers.
#[derive(Clone, Copy, Debug, PartialEq, Eq, Structural)]
pub enum VerifierState {
    Initial,
    PresentationRequestSet,
    PresentationProposalReceived,
    PresentationRequestSent,
    Finished,
    Failed,
}

impl VerifierState {
    /// The stable numeric encoding of the phase.
    pub open spec fn spec_code(self) -> u32 {
        match self {
            VerifierState::Initial => 0,
            VerifierState::PresentationRequestSet => 1,
            VerifierState::PresentationProposalReceived => 2,
            VerifierState::PresentationRequestSent => 3,
            VerifierState::Finished => 4,
            VerifierState::Failed => 5,
        }
    }

    pub fn code(self) -> (r: u32)
        ensures
            r == self.spec_code(),
    {
        match self {
            VerifierState::Initial => 0,
            VerifierState::PresentationRequestSet => 1,
            VerifierState::PresentationProposalReceived => 2,
            VerifierState::PresentationRequestSent => 3,
            VerifierState::Finished => 4,
            VerifierState::Failed => 5,
        }
    }
}

/// The outcome of validating a received presentation.
#[derive(Clone, Copy, Debug, PartialEq, Eq, Structural)]
pub enum PresentationStatus {
    Undefined,
    Verified,
    NotVerified,
}

impl PresentationStatus {
    /// The stable numeric encoding of the status.
    pub open spec fn spec_code(self) -> u32 {
        match self {
            PresentationStatus::Undefined => 0,
            PresentationStatus::Verified => 1,
            PresentationStatus::NotVerified => 2,
        }
    }

    pub fn code(self) -> (r: u32)
        ensures
            r == self.spec_code(),
    {
        match self {
            PresentationStatus::Undefined => 0,
            PresentationStatus::Verified => 1,
            PresentationStatus::NotVerified => 2,
        }
    }
}

/// Why an exchange ended in `Failed`.
#[derive(Clone, Copy, Debug, PartialEq, Eq, Structural)]
pub enum FailureReason {
    Malformed,
    Rejected,
}

/// What the verifier asks the prover to present; the last three fields are
/// JSON texts.
pub struct PresentationRequest {
    pub name: String,
    pub requested_attributes: String,
    pub requested_predicates: String,
    pub non_revoked: String,
}

/// The verifier's protocol state; each variant carries the data valid in
/// that phase.
pub enum VerifierSm {
    Initial,
    PresentationRequestSet { request_msg: String },
    PresentationProposalReceived { proposal: String },
    PresentationRequestSent { request_msg: String },
    Finished { status: PresentationStatus, presentation: Option<String> },
    Failed { reason: FailureReason },
}

impl VerifierSm {
    pub open spec fn phase(self) -> VerifierState {
        match self {
            VerifierSm::Initial => VerifierState::Initial,
            VerifierSm::PresentationRequestSet { .. } => VerifierState::PresentationRequestSet,
            VerifierSm::PresentationProposalReceived { .. } => VerifierState::PresentationProposalReceived,
            VerifierSm::PresentationRequestSent { .. } => VerifierState::PresentationRequestSent,
            VerifierSm::Finished { .. } => VerifierState::Finished,
            VerifierSm::Failed { .. } => VerifierState::Failed,
        }
    }

    pub open spec fn is_terminal(self) -> bool {
        self is Finished || self is Failed
    }

    pub open spec fn status(self) -> PresentationStatus {
        match self {
            VerifierSm::Finished { status, .. } => status,
            _ => PresentationStatus::Undefined,
        }
    }
}

/// Whether a verifier in `sm`, whose exchange is threaded under `thread`,
/// consumes `msg`.
pub open spec fn accepts(sm: VerifierSm, thread: Seq<char>, msg: A2AMessage) -> bool {
    match msg {
        A2AMessage::PresentationProposal { .. } => sm is Initial || sm is PresentationRequestSet,
        A2AMessage::Presentation { thread_id, .. } => sm is PresentationRequestSent && thread_id@
            == thread,
        A2AMessage::ProblemReport { thread_id, .. } => (sm is PresentationRequestSent
            || sm is PresentationProposalReceived) && thread_id@ == thread,
        _ => false,
    }
}

/// The state that an accepted `msg` leads to. `well_formed` and `valid`
/// say whether a presentation parses and whether validation accepted it.
pub open spec fn next_sm(sm: VerifierSm, msg: A2AMessage, well_formed: bool, valid: bool) -> VerifierSm {
    match msg {
        A2AMessage::PresentationProposal { proposal, .. } => VerifierSm::PresentationProposalReceived {
            proposal,
        },
        A2AMessage::Presentation { presentation, .. } => if !well_formed {
            VerifierSm::Failed { reason: FailureReason::Malformed }
        } else {
            VerifierSm::Finished {
                status: if valid {
                    PresentationStatus::Verified
                } else {
                    PresentationStatus::NotVerified
                },
                presentation: Some(presentation),
            }
        },
        A2AMessage::ProblemReport { .. } => VerifierSm::Failed { reason: FailureReason::Rejected },
        _ => sm,
    }
}

/// The text of the presentation-request message, from the quoted thread
/// identifier and name and the request's JSON parts.
pub open spec fn request_msg_text(
    quoted_id: Seq<char>,
    quoted_name: Seq<char>,
    attrs: Seq<char>,
    preds: Seq<char>,
    non_revoked: Seq<char>,
) -> Seq<char> {
    "{\"@id\":"@ + quoted_id + ",\"name\":"@ + quoted_name + ",\"requested_attributes\":"@ + attrs
        + ",\"requested_predicates\":"@ + preds + ",\"non_revoked\":"@ + non_revoked + "}"@
}

/// The presentation-request message of a verifier threaded under
/// `source_id`.
pub open spec fn request_msg_of(source_id: Seq<char>, request: PresentationRequest) -> Seq<char> {
    request_msg_text(
        json_string_literal(source_id),
        json_string_literal(request.name@),
        request.requested_attributes@,
        request.requested_predicates@,
        request.non_revoked@,
    )
}

/// Whether the request's three JSON parts are well-formed.
pub open spec fn request_well_formed(request: PresentationRequest) -> bool {
    json_valid(request.requested_attributes@) && json_valid(request.requested_predicates@)
        && json_valid(request.non_revoked@)
}

/// Assembles the presentation-request message from already quoted parts.
pub fn assemble_request_msg(quoted_id: &str, quoted_name: &str, request: &PresentationRequest) -> (r:
    String)
    ensures
        r@ == request_msg_text(
            quoted_id@,
            quoted_name@,
            request.requested_attributes@,
            request.requested_predicates@,
            request.non_revoked@,
        ),
{
    let mut s = String::new();
    s.append("{\"@id\":");
    s.append(quoted_id);
    s.append(",\"name\":");
    s.append(quoted_name);
    s.append(",\"requested_attributes\":");
    s.append(request.requested_attributes.as_str());
    s.append(",\"requested_predicates\":");
    s.append(request.requested_predicates.as_str());
    s.append(",\"non_revoked\":");
    s.append(request.non_revoked.as_str());
    s.append("}");
    s
}

/// What one poll reports: the resulting state's code, and the index of the
/// pending message that was consumed, if one was.
pub struct StateUpdate {
    pub state: u32,
    pub consumed: Option<usize>,
}

/// `after` is `before` with `msg` handled: an accepted message moves the
/// state by `next_sm`, a presentation being checked to parse and, if it
/// does, validated by `validate`; any other message changes nothing.
pub open spec fn handled<F: Fn(&PresentationRequest, &String) -> bool>(
    before: Verifier,
    after: Verifier,
    msg: A2AMessage,
    validate: F,
) -> bool {
    &&& after.source_id == before.source_id
    &&& after.request == before.request
    &&& if accepts(before.sm, before.source_id@, msg) {
        match msg {
            A2AMessage::Presentation { presentation, .. } => {
                let valid = after.sm.status() == PresentationStatus::Verified;
                &&& after.sm == next_sm(before.sm, msg, json_valid(presentation@), valid)
                &&& json_valid(presentation@) ==> validate.ensures(
                    (&before.request, &presentation),
                    valid,
                )
            },
            _ => after.sm == next_sm(before.sm, msg, true, true),
        }
    } else {
        after.sm == before.sm
    }
}

/// `i` is the first pending message, in arrival order, that `v` accepts.
pub open spec fn first_accepted(v: Verifier, pending: Seq<PendingMessage>, i: int) -> bool {
    &&& 0 <= i < pending.len()
    &&& accepts(v.sm, v.source_id@, pending[i].message)
    &&& forall|j: int| 0 <= j < i ==> !accepts(v.sm, v.source_id@, #[trigger] pending[j].message)
}

/// One poll of `before` gave `after` and reported `out`.
pub open spec fn polled<F: Fn(&PresentationRequest, &String) -> bool>(
    before: Verifier,
    after: Verifier,
    out: StateUpdate,
    message: Option<&A2AMessage>,
    pending: Seq<PendingMessage>,
    validate: F,
) -> bool {
    &&& out.state == after.spec_state()
    &&& if before.sm.is_terminal() {
        after == before && out.consumed is None
    } else {
        match message {
            Some(m) => out.consumed is None && handled(before, after, *m, validate),
            None => match out.consumed {
                Some(i) => first_accepted(before, pending, i as int) && handled(
                    before,
                    after,
                    pending[i as int].message,
                    validate,
                ),
                None => {
                    &&& forall|j: int|
                        0 <= j < pending.len() ==> !accepts(
                            before.sm,
                            before.source_id@,
                            #[trigger] pending[j].message,
                        )
                    &&& after == before
                },
            },
        }
    }
}

/// One proof exchange in the verifier role. The source identifier, supplied
/// by the caller, also threads the exchange's messages.
pub struct Verifier {
    pub source_id: String,
    pub request: PresentationRequest,
    pub sm: VerifierSm,
}

/// The same verifier with its state moved to `sm`.
pub open spec fn with_sm(v: Verifier, sm: VerifierSm) -> Verifier {
    Verifier { sm, ..v }
}

/// `after` and `r` are what marking the request as delivered makes of
/// `before`: allowed only while the request is set.
pub open spec fn marked_sent(before: Verifier, after: Verifier, r: Result<(), VcxError>) -> bool {
    match before.sm {
        VerifierSm::PresentationRequestSet { request_msg } => {
            &&& r is Ok
            &&& after == with_sm(before, VerifierSm::PresentationRequestSent { request_msg })
        },
        _ => {
            &&& r == Err::<(), VcxError>(VcxError { kind: VcxErrorKind::InvalidState })
            &&& after == before
        },
    }
}

/// `after` and `r` are what sending the request through `send` makes of
/// `before`: the request message is handed to `send`, whose result is
/// returned; only a successful send moves the state.
pub open spec fn sent_request<F: Fn(&String) -> Result<(), VcxError>>(
    before: Verifier,
    after: Verifier,
    r: Result<(), VcxError>,
    send: F,
) -> bool {
    match before.sm {
        VerifierSm::PresentationRequestSet { request_msg } => {
            &&& send.ensures((&request_msg,), r)
            &&& r is Ok ==> after == with_sm(
                before,
                VerifierSm::PresentationRequestSent { request_msg },
            )
            &&& r is Err ==> after == before
        },
        _ => {
            &&& r == Err::<(), VcxError>(VcxError { kind: VcxErrorKind::InvalidState })
            &&& after == before
        },
    }
}

impl Verifier {
    pub open spec fn spec_state(&self) -> u32 {
        self.sm.phase().spec_code()
    }

    pub open spec fn spec_thread_id(&self) -> Result<String, VcxError> {
        match self.sm {
            VerifierSm::Initial => Err(VcxError { kind: VcxErrorKind::NotReady }),
            _ => Ok(self.source_id),
        }
    }

    pub open spec fn spec_presentation_request_msg(&self) -> Result<String, VcxError> {
        match self.sm {
            VerifierSm::PresentationRequestSet { request_msg } => Ok(request_msg),
            VerifierSm::PresentationRequestSent { request_msg } => Ok(request_msg),
            _ => Err(VcxError { kind: VcxErrorKind::NotReady }),
        }
    }

    pub open spec fn spec_presentation_msg(&self) -> Result<String, VcxError> {
        match self.sm {
            VerifierSm::Finished { presentation: Some(p), .. } => Ok(p),
            _ => Err(VcxError { kind: VcxErrorKind::NotReady }),
        }
    }

    /// Builds a verifier in `PresentationRequestSet` when the request is
    /// well-formed (`well_formed` says so); fails with `InvalidJson` when
    /// it is not.
    pub fn from_checked_request(source_id: String, request: PresentationRequest, well_formed: bool) -> (r:
        Result<Verifier, VcxError>)
        ensures
            match r {
                Ok(v) => {
                    &&& well_formed
                    &&& v.source_id == source_id
                    &&& v.request == request
                    &&& v.sm matches VerifierSm::PresentationRequestSet { request_msg }
                    &&& request_msg@ == request_msg_of(source_id@, request)
                },
                Err(e) => !well_formed && e.kind == VcxErrorKind::InvalidJson,
            },
    {
        if !well_formed {
            return Err(VcxError::from_kind(VcxErrorKind::InvalidJson));
        }
        let quoted_id = quote(source_id.as_str());
        let quoted_name = quote(request.name.as_str());
        let request_msg = assemble_request_msg(quoted_id.as_str(), quoted_name.as_str(), &request);
        Ok(Verifier { source_id, request, sm: VerifierSm::PresentationRequestSet { request_msg } })
    }

    /// Builds a verifier for `request`; fails with `InvalidJson` unless its
    /// attributes, predicates and revocation interval are well-formed JSON.
    pub fn create_from_request(source_id: String, request: PresentationRequest) -> (r: Result<
        Verifier,
        VcxError,
    >)
        ensures
            match r {
                Ok(v) => {
                    &&& request_well_formed(request)
                    &&& v.source_id == source_id
                    &&& v.request == request
                    &&& v.sm matches VerifierSm::PresentationRequestSet { request_msg }
                    &&& request_msg@ == request_msg_of(source_id@, request)
                },
                Err(e) => !request_well_formed(request) && e.kind == VcxErrorKind::InvalidJson,
            },
    {
        let well_formed = is_json(request.requested_attributes.as_str()) && is_json(
            request.requested_predicates.as_str(),
        ) && is_json(request.non_revoked.as_str());
        Verifier::from_checked_request(source_id, request, well_formed)
    }

    pub fn get_state(&self) -> (r: u32)
        ensures
            r == self.spec_state(),
    {
        let phase = match &self.sm {
            VerifierSm::Initial => VerifierState::Initial,
            VerifierSm::PresentationRequestSet { .. } => VerifierState::PresentationRequestSet,
            VerifierSm::PresentationProposalReceived { .. } => VerifierState::PresentationProposalReceived,
            VerifierSm::PresentationRequestSent { .. } => VerifierState::PresentationRequestSent,
            VerifierSm::Finished { .. } => VerifierState::Finished,
            VerifierSm::Failed { .. } => VerifierState::Failed,
        };
        phase.code()
    }

    pub fn get_presentation_status(&self) -> (r: u32)
        ensures
            r == self.sm.status().spec_code(),
    {
        match &self.sm {
            VerifierSm::Finished { status, .. } => status.code(),
            _ => PresentationStatus::Undefined.code(),
        }
    }

    /// Whether a message may still change the state.
    pub fn progressable_by_message(&self) -> (r: bool)
        ensures
            r == !self.sm.is_terminal(),
    {
        !matches!(self.sm, VerifierSm::Finished { .. } | VerifierSm::Failed { .. })
    }

    pub fn get_source_id(&self) -> (r: String)
        ensures
            r == self.source_id,
    {
        self.source_id.clone()
    }

    /// The thread identifier, once a request exists to thread under.
    pub fn get_thread_id(&self) -> (r: Result<String, VcxError>)
        ensures
            r == self.spec_thread_id(),
    {
        match &self.sm {
            VerifierSm::Initial => Err(VcxError::from_kind(VcxErrorKind::NotReady)),
            _ => Ok(self.source_id.clone()),
        }
    }

    /// The presentation-request message, while one is set or sent.
    pub fn get_presentation_request_msg(&self) -> (r: Result<String, VcxError>)
        ensures
            r == self.spec_presentation_request_msg(),
    {
        match &self.sm {
            VerifierSm::PresentationRequestSet { request_msg } => Ok(request_msg.clone()),
            VerifierSm::PresentationRequestSent { request_msg } => Ok(request_msg.clone()),
            _ => Err(VcxError::from_kind(VcxErrorKind::NotReady)),
        }
    }

    /// The received presentation, once the exchange finished with one.
    pub fn get_presentation_msg(&self) -> (r: Result<String, VcxError>)
        ensures
            r == self.spec_presentation_msg(),
    {
        match &self.sm {
            VerifierSm::Finished { presentation: Some(p), .. } => Ok(p.clone()),
            _ => Err(VcxError::from_kind(VcxErrorKind::NotReady)),
        }
    }

    /// Records that the request was delivered by other means.
    pub fn mark_presentation_request_msg_sent(&mut self) -> (r: Result<(), VcxError>)
        ensures
            marked_sent(*old(self), *final(self), r),
    {
        match &self.sm {
            VerifierSm::PresentationRequestSet { request_msg } => {
                let request_msg = request_msg.clone();
                self.sm = VerifierSm::PresentationRequestSent { request_msg };
                Ok(())
            },
            _ => Err(VcxError::from_kind(VcxErrorKind::InvalidState)),
        }
    }

    /// Sends the request message through `send`. On success the state
    /// becomes `PresentationRequestSent`; a failed send leaves the verifier
    /// untouched, so the call can be repeated.
    pub fn send_presentation_request<F: Fn(&String) -> Result<(), VcxError>>(&mut self, send: &F) -> (r:
        Result<(), VcxError>)
        requires
            forall|m: String| send.requires((&m,)),
        ensures
            sent_request(*old(self), *final(self), r, send),
    {
        match &self.sm {
            VerifierSm::PresentationRequestSet { request_msg } => {
                let sent = send(request_msg);
                if sent.is_ok() {
                    let request_msg = request_msg.clone();
                    self.sm = VerifierSm::PresentationRequestSent { request_msg };
                }
                sent
            },
            _ => Err(VcxError::from_kind(VcxErrorKind::InvalidState)),
        }
    }

    /// Whether this verifier consumes `msg` in its current state.
    pub fn accepts_message(&self, msg: &A2AMessage) -> (r: bool)
        ensures
            r == accepts(self.sm, self.source_id@, *msg),
    {
        match msg {
            A2AMessage::PresentationProposal { .. } => matches!(
                self.sm,
                VerifierSm::Initial | VerifierSm::PresentationRequestSet { .. }
            ),
            A2AMessage::Presentation { thread_id, .. } => matches!(
                self.sm,
                VerifierSm::PresentationRequestSent { .. }
            ) && *thread_id == self.source_id,
            A2AMessage::ProblemReport { thread_id, .. } => matches!(
                self.sm,
                VerifierSm::PresentationRequestSent { .. }
                    | VerifierSm::PresentationProposalReceived { .. }
            ) && *thread_id == self.source_id,
            _ => false,
        }
    }

    /// Applies `msg` given the outcome of the checks on a presentation:
    /// `well_formed` (it parses) and `valid` (validation accepted it). A
    /// message that the state does not accept changes nothing.
    pub fn apply_message(&mut self, msg: &A2AMessage, well_formed: bool, valid: bool) -> (consumed:
        bool)
        ensures
            consumed == accepts(old(self).sm, old(self).source_id@, *msg),
            final(self).source_id == old(self).source_id,
            final(self).request == old(self).request,
            final(self).sm == if consumed {
                next_sm(old(self).sm, *msg, well_formed, valid)
            } else {
                old(self).sm
            },
    {
        if !self.accepts_message(msg) {
            return false;
        }
        match msg {
            A2AMessage::PresentationProposal { proposal, .. } => {
                self.sm = VerifierSm::PresentationProposalReceived { proposal: proposal.clone() };
            },
            A2AMessage::Presentation { presentation, .. } => {
                if !well_formed {
                    self.sm = VerifierSm::Failed { reason: FailureReason::Malformed };
                } else {
                    let status = if valid {
                        PresentationStatus::Verified
                    } else {
                        PresentationStatus::NotVerified
                    };
                    self.sm = VerifierSm::Finished {
                        status,
                        presentation: Some(presentation.clone()),
                    };
                }
            },
            A2AMessage::ProblemReport { .. } => {
                self.sm = VerifierSm::Failed { reason: FailureReason::Rejected };
            },
            _ => {},
        }
        true
    }

    /// Applies `msg`: a presentation is checked to parse, and one that
    /// parses is handed to `validate` with the request.
    pub fn handle_message<F: Fn(&PresentationRequest, &String) -> bool>(
        &mut self,
        msg: &A2AMessage,
        validate: &F,
    ) -> (consumed: bool)
        requires
            forall|q: PresentationRequest, p: String| validate.requires((&q, &p)),
        ensures
            consumed == accepts(old(self).sm, old(self).source_id@, *msg),
            handled(*old(self), *final(self), *msg, *validate),
    {
        let mut well_formed = true;
        let mut valid = true;
        if self.accepts_message(msg) {
            if let A2AMessage::Presentation { presentation, .. } = msg {
                well_formed = is_json(presentation.as_str());
                if well_formed {
                    valid = validate(&self.request, presentation);
                }
            }
        }
        self.apply_message(msg, well_formed, valid)
    }

    /// One poll of the exchange. A finished or failed exchange is left as it
    /// is. Otherwise a supplied `message` is applied; without one, the first
    /// pending message that the state accepts is applied, and its index is
    /// reported so that the caller acknowledges that message alone.
    pub fn update<F: Fn(&PresentationRequest, &String) -> bool>(
        &mut self,
        message: Option<&A2AMessage>,
        pending: &Vec<PendingMessage>,
        validate: &F,
    ) -> (r: StateUpdate)
        requires
            forall|q: PresentationRequest, p: String| validate.requires((&q, &p)),
        ensures
            polled(*old(self), *final(self), r, message, pending@, *validate),
    {
        if !self.progressable_by_message() {
            return StateUpdate { state: self.get_state(), consumed: None };
        }
        let mut consumed: Option<usize> = None;
        match message {
            Some(m) => {
                self.handle_message(m, validate);
            },
            None => {
                match self.find_message_to_handle(pending) {
                    Some(i) => {
                        self.handle_message(&pending[i].message, validate);
                        consumed = Some(i);
                    },
                    None => {},
                }
            },
        }
        StateUpdate { state: self.get_state(), consumed }
    }

    /// The index of the first message, in arrival order, that the current
    /// state accepts.
    pub fn find_message_to_handle(&self, messages: &Vec<PendingMessage>) -> (r: Option<usize>)
        ensures
            match r {
                Some(i) => {
                    &&& i < messages@.len()
                    &&& accepts(self.sm, self.source_id@, messages@[i as int].message)
                    &&& forall|j: int|
                        0 <= j < i ==> !accepts(
                            self.sm,
                            self.source_id@,
                            #[trigger] messages@[j].message,
                        )
                },
                None => forall|j: int|
                    0 <= j < messages@.len() ==> !accepts(
                        self.sm,
                        self.source_id@,
                        #[trigger] messages@[j].message,
                    ),
            },
    {
        let mut i: usize = 0;
        while i < messages.len()
            invariant
                i <= messages@.len(),
                forall|j: int|
                    0 <= j < i ==> !accepts(self.sm, self.source_id@, #[trigger] messages@[j].message),
            decreases messages@.len() - i,
        {
            if self.accepts_message(&messages[i].message) {
                return Some(i);
            }
            i = i + 1;
        }
        None
    }
}

} // verus!
