use vstd::prelude::*;

verus! {

/// A party's service endpoint and key material.
pub struct DidDoc {
    pub id: String,
    pub service_endpoint: String,
    pub recipient_keys: Vec<String>,
    pub routing_keys: Vec<String>,
}

/// The connection data that a `Response` carries: the peer's DID and its
/// authenticated DID document.
pub struct ConnectionData {
    pub did: String,
    pub did_doc: DidDoc,
}

/// The terminal handshake message of connection establishment.
pub struct Response {
    pub thread_id: String,
    pub connection: ConnectionData,
}

/// One protocol that a peer disclosed in a feature-discovery exchange.
pub struct ProtocolDescriptor {
    pub pid: String,
    pub roles: Vec<String>,
}

/// Every message that the connection and verifier machines consume, each
/// with the thread identifier that links it to its exchange.
pub enum A2AMessage {
    ConnectionResponse(Response),
    Ack { thread_id: String },
    Disclose { thread_id: String, protocols: Vec<ProtocolDescriptor> },
    Presentation { thread_id: String, presentation: String },
    PresentationProposal { thread_id: String, proposal: String },
    ProblemReport { thread_id: String, comment: String },
    Unknown { msg_type: String },
}

/// A message waiting in a mailbox, with the identifier used to acknowledge it.
pub struct PendingMessage {
    pub uid: String,
    pub message: A2AMessage,
}

} // verus!
