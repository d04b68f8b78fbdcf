use vstd::prelude::*;

verus! {

/// Everything that can go wrong between describing an operation and seeing it
/// confirmed by the ledger.
#[derive(Clone, Copy, Debug, PartialEq, Eq, Structural)]
pub enum LedgerError {
    /// Operation parameters cannot be put on the wire.
    Encoding,
    /// A required signer has no key among those offered at assembly.
    MissingSigner,
    /// A sub-call asks for a privilege its caller does not hold.
    PrivilegeEscalation,
    /// The freshness token is older than the ledger's validity window.
    ExpiredTransaction,
    /// The ledger refused the transaction for lack of funds.
    InsufficientBalance,
    /// The retry budget ran out before the required commitment was seen.
    ConfirmationTimeout,
    /// A sub-call would nest deeper than the ledger allows.
    CallDepthExceeded,
}

impl LedgerError {
    /// Whether the caller may try again after re-querying the ledger.
    /// Only a timeout leaves the outcome open; every other error is final
    /// for the transaction it was raised for.
    pub open spec fn spec_is_retryable(self) -> bool {
        self == LedgerError::ConfirmationTimeout
    }

    #[verifier::when_used_as_spec(spec_is_retryable)]
    pub fn is_retryable(self) -> (r: bool)
        ensures
            r == self.spec_is_retryable(),
    {
        match self {
            LedgerError::ConfirmationTimeout => true,
            _ => false,
        }
    }

    /// Whether the error is raised before anything is sent to the ledger.
    pub open spec fn spec_is_construction_error(self) -> bool {
        self == LedgerError::Encoding || self == LedgerError::MissingSigner
            || self == LedgerError::PrivilegeEscalation || self == LedgerError::CallDepthExceeded
    }

    #[verifier::when_used_as_spec(spec_is_construction_error)]
    pub fn is_construction_error(self) -> (r: bool)
        ensures
            r == self.spec_is_construction_error(),
    {
        match self {
            LedgerError::Encoding => true,
            LedgerError::MissingSigner => true,
            LedgerError::PrivilegeEscalation => true,
            LedgerError::CallDepthExceeded => true,
            _ => false,
        }
    }
}

} // verus!
