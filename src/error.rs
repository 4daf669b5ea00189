use vstd::prelude::*;

verus! {

/// Why a request to create the derived account was turned down.
#[derive(Debug, Clone, Copy, PartialEq, Eq, Structural)]
pub enum CreateError {
    /// The instruction bytes do not hold a bump byte followed by an 8-byte size.
    MalformedRequest,
    /// Fewer than three participants were supplied.
    ParticipantListTooShort,
    /// The funder is not both a signer and writable.
    MissingFunderAuthorization,
    /// The target already signs, or is not writable.
    InvalidTargetAccountState,
    /// The third participant is not the system program.
    UnexpectedAuthorityAccount,
    /// The host could not supply a storage-cost schedule usable for the requested size.
    CostScheduleUnavailable,
    /// The ledger refused the creation; the payload is the host's error code.
    CreationRejectedByLedger(u64),
}

} // verus!
