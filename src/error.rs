use vstd::prelude::*;

verus! {

/// The kinds of failure that library operations report.
#[derive(Clone, Copy, Debug, PartialEq, Eq, Structural)]
pub enum VcxErrorKind {
    /// An unknown or released handle.
    InvalidHandle,
    /// An unknown or released handle passed to a release of a proof.
    InvalidProofHandle,
    /// Caller-supplied text that is not well-formed structured data.
    InvalidJson,
    /// The proof object could not be stored.
    CreateProof,
    /// The registry has no fresh handle left.
    ObjectCacheError,
    /// A transport failure (including timeouts) while sending.
    IOError,
    /// The requested data does not exist in the current state.
    NotReady,
    /// The operation is not permitted in the current state.
    InvalidState,
}

/// A typed failure returned by library operations.
#[derive(Clone, Copy, Debug, PartialEq, Eq, Structural)]
pub struct VcxError {
    pub kind: VcxErrorKind,
}

impl VcxError {
    pub fn from_kind(kind: VcxErrorKind) -> (r: VcxError)
        ensures
            r.kind == kind,
    {
        VcxError { kind }
    }

    pub fn kind(&self) -> (r: VcxErrorKind)
        ensures
            r == self.kind,
    {
        self.kind
    }
}

} // verus!
