//! Agent-side protocol logic for credential-presentation exchanges: a
//! handle-indexed object registry, the connection-establishment and
//! verifier state machines, the message union they consume, and the
//! driver that applies messages to registered verifiers.

pub mod error;
pub mod registry;
pub mod json;
pub mod message;
pub mod presentation;
pub mod proofs;
pub mod connection;
pub mod laws;
pub mod snapshot;
