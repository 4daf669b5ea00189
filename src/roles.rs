//! The three participants of a creation, and the checks on the role each one
//! plays.
use vstd::prelude::*;

use crate::address::{is_system_program, system_program_address, Address};
use crate::error::CreateError;

verus! {

/// What this program reads of an account handed to it by the runtime.
#[derive(Debug, Clone, Copy)]
pub struct Participant {
    /// The account's address.
    pub address: Address,
    /// Whether the transaction carries the account's signature.
    pub is_signer: bool,
    /// Whether the account may be written.
    pub is_writable: bool,
}

/// The participants by role, once their roles have been checked.
#[derive(Debug, Clone, Copy)]
pub struct Roles {
    /// Pays for the new account, and signs for that.
    pub funder: Participant,
    /// The derived account to be created; the program signs for it.
    pub target: Participant,
    /// The system program, which performs the creation.
    pub authority: Participant,
}

/// The outcome of checking the participant list: the first three entries by
/// role, or the first check that fails. Entries past the third are ignored.
pub open spec fn check_roles_spec(ps: Seq<Participant>) -> Result<Roles, CreateError> {
    if ps.len() < 3 {
        Err(CreateError::ParticipantListTooShort)
    } else if !(ps[0].is_signer && ps[0].is_writable) {
        Err(CreateError::MissingFunderAuthorization)
    } else if ps[1].is_signer || !ps[1].is_writable {
        Err(CreateError::InvalidTargetAccountState)
    } else if ps[2].address@ != system_program_address() {
        Err(CreateError::UnexpectedAuthorityAccount)
    } else {
        Ok(Roles { funder: ps[0], target: ps[1], authority: ps[2] })
    }
}

/// Checks the role of each participant, in the order funder, target, system
/// program, and names them by role.
pub fn check_roles(participants: &[Participant]) -> (r: Result<Roles, CreateError>)
    ensures
        r == check_roles_spec(participants@),
{
    if participants.len() < 3 {
        return Err(CreateError::ParticipantListTooShort);
    }
    let funder = participants[0];
    let target = participants[1];
    let authority = participants[2];
    if !(funder.is_signer && funder.is_writable) {
        return Err(CreateError::MissingFunderAuthorization);
    }
    if target.is_signer || !target.is_writable {
        return Err(CreateError::InvalidTargetAccountState);
    }
    if !is_system_program(&authority.address) {
        return Err(CreateError::UnexpectedAuthorityAccount);
    }
    Ok(Roles { funder, target, authority })
}

} // verus!
