//! The creation flow: decode the request, check the participants' roles,
//! compute the funding, and describe the signed creation that the system
//! program is asked to perform.
use vstd::prelude::*;

use crate::address::{system_program_address, system_program_id, Address};
use crate::error::CreateError;
use crate::instruction::{decode_spec, CreateAccountInstruction};
use crate::rent::{current_rent_schedule, funding_amount, funding_spec, RentSchedule};
use crate::roles::{check_roles, check_roles_spec, Participant, Roles};

verus! {

/// The creation that the system program is asked to perform, signed for the
/// target by the seeds of the funder's vault with `bump`.
#[derive(Debug, Clone, Copy)]
pub struct CreationDirective {
    /// Pays the funding.
    pub funder: Address,
    /// The account to create.
    pub target: Address,
    /// The funding moved from the funder to the target.
    pub lamports: u64,
    /// Number of data bytes allocated to the target.
    pub space: u64,
    /// The program that owns the new account: the system program.
    pub owner: Address,
    /// The bump seed that completes the target's derivation seeds.
    pub bump: u8,
}

/// The outcome of decoding the payload and then checking the participants:
/// a malformed payload is reported before any participant is looked at.
pub open spec fn parse_spec(ps: Seq<Participant>, data: Seq<u8>) -> Result<
    (CreateAccountInstruction, Roles),
    CreateError,
> {
    match decode_spec(data) {
        None => Err(CreateError::MalformedRequest),
        Some(ins) => match check_roles_spec(ps) {
            Err(e) => Err(e),
            Ok(roles) => Ok((ins, roles)),
        },
    }
}

/// `d` creates the target of `roles` with the size and bump of `ins`, funded
/// by the funder and owned by the system program, whatever its funding.
pub open spec fn directs_creation(
    d: CreationDirective,
    ins: CreateAccountInstruction,
    roles: Roles,
) -> bool {
    &&& d.funder == roles.funder.address
    &&& d.target == roles.target.address
    &&& d.space == ins.space
    &&& d.owner@ == system_program_address()
    &&& d.bump == ins.new_account_bump_seed
}

/// The outcome of funding the creation under `schedule`, where `None` stands
/// for a schedule that the host could not supply.
pub open spec fn completion_spec(
    ins: CreateAccountInstruction,
    roles: Roles,
    schedule: Option<RentSchedule>,
    r: Result<CreationDirective, CreateError>,
) -> bool {
    match schedule {
        None => r == Err::<CreationDirective, CreateError>(CreateError::CostScheduleUnavailable),
        Some(s) => match funding_spec(s, ins.space) {
            Err(e) => r == Err::<CreationDirective, CreateError>(e),
            Ok(lamports) => {
                &&& r is Ok
                &&& directs_creation(r->Ok_0, ins, roles)
                &&& r->Ok_0.lamports == lamports
            },
        },
    }
}

/// The outcome of the whole flow on the participants `ps` and payload `data`
/// under `schedule`.
pub open spec fn plan_spec(
    ps: Seq<Participant>,
    data: Seq<u8>,
    schedule: Option<RentSchedule>,
    r: Result<CreationDirective, CreateError>,
) -> bool {
    match parse_spec(ps, data) {
        Err(e) => r == Err::<CreationDirective, CreateError>(e),
        Ok((ins, roles)) => completion_spec(ins, roles, schedule, r),
    }
}

/// Decodes the payload, then checks the participants' roles.
pub fn parse_request(participants: &[Participant], data: &[u8]) -> (r: Result<
    (CreateAccountInstruction, Roles),
    CreateError,
>)
    ensures
        r == parse_spec(participants@, data@),
{
    let ins = match CreateAccountInstruction::decode(data) {
        Ok(ins) => ins,
        Err(e) => return Err(e),
    };
    match check_roles(participants) {
        Ok(roles) => Ok((ins, roles)),
        Err(e) => Err(e),
    }
}

/// Funds the checked request under `schedule` and describes the creation.
pub fn complete_creation(
    ins: &CreateAccountInstruction,
    roles: &Roles,
    schedule: Option<RentSchedule>,
) -> (r: Result<CreationDirective, CreateError>)
    ensures
        completion_spec(*ins, *roles, schedule, r),
{
    let s = match schedule {
        Some(s) => s,
        None => return Err(CreateError::CostScheduleUnavailable),
    };
    let lamports = match funding_amount(&s, ins.space) {
        Ok(l) => l,
        Err(e) => return Err(e),
    };
    Ok(
        CreationDirective {
            funder: roles.funder.address,
            target: roles.target.address,
            lamports,
            space: ins.space,
            owner: system_program_id(),
            bump: ins.new_account_bump_seed,
        },
    )
}

/// Runs the flow under a given storage-cost schedule (`None` where the host
/// supplied none).
pub fn plan_creation(
    participants: &[Participant],
    data: &[u8],
    schedule: Option<RentSchedule>,
) -> (r: Result<CreationDirective, CreateError>)
    ensures
        plan_spec(participants@, data@, schedule, r),
{
    match parse_request(participants, data) {
        Ok((ins, roles)) => complete_creation(&ins, &roles, schedule),
        Err(e) => Err(e),
    }
}

/// Runs the flow under the schedule in force, read from the host only once
/// the request and the participants have passed their checks.
pub fn prepare_creation(participants: &[Participant], data: &[u8]) -> (r: Result<
    CreationDirective,
    CreateError,
>)
    ensures
        match parse_spec(participants@, data@) {
            Err(e) => r == Err::<CreationDirective, CreateError>(e),
            Ok((ins, roles)) => {
                &&& r is Ok ==> directs_creation(r->Ok_0, ins, roles)
                &&& r is Err ==> r == Err::<CreationDirective, CreateError>(
                    CreateError::CostScheduleUnavailable,
                )
            },
        },
{
    match parse_request(participants, data) {
        Ok((ins, roles)) => {
            let schedule = current_rent_schedule();
            complete_creation(&ins, &roles, schedule)
        },
        Err(e) => Err(e),
    }
}

/// Passes on the ledger's verdict on the submitted creation: success as it
/// is, a refusal as `CreationRejectedByLedger` with the ledger's error code.
pub fn ledger_outcome(submitted: Result<(), u64>) -> (r: Result<(), CreateError>)
    ensures
        r == match submitted {
            Ok(()) => Ok::<(), CreateError>(()),
            Err(code) => Err(CreateError::CreationRejectedByLedger(code)),
        },
{
    match submitted {
        Ok(()) => Ok(()),
        Err(code) => Err(CreateError::CreationRejectedByLedger(code)),
    }
}

/// A funder that does not sign makes the flow fail with
/// `MissingFunderAuthorization`, whatever the target and the third
/// participant are, once the payload decodes and three participants are there.
pub proof fn lemma_unsigned_funder_rejected(
    ps: Seq<Participant>,
    data: Seq<u8>,
    schedule: Option<RentSchedule>,
    r: Result<CreationDirective, CreateError>,
)
    requires
        decode_spec(data) is Some,
        ps.len() >= 3,
        !ps[0].is_signer,
        plan_spec(ps, data, schedule, r),
    ensures
        parse_spec(ps, data) == Err::<(CreateAccountInstruction, Roles), CreateError>(
            CreateError::MissingFunderAuthorization,
        ),
        r == Err::<CreationDirective, CreateError>(CreateError::MissingFunderAuthorization),
{
}

/// A target that already signs makes the flow fail with
/// `InvalidTargetAccountState`, once the payload decodes, three participants
/// are there, and the funder signs and is writable.
pub proof fn lemma_signing_target_rejected(
    ps: Seq<Participant>,
    data: Seq<u8>,
    schedule: Option<RentSchedule>,
    r: Result<CreationDirective, CreateError>,
)
    requires
        decode_spec(data) is Some,
        ps.len() >= 3,
        ps[0].is_signer && ps[0].is_writable,
        ps[1].is_signer,
        plan_spec(ps, data, schedule, r),
    ensures
        parse_spec(ps, data) == Err::<(CreateAccountInstruction, Roles), CreateError>(
            CreateError::InvalidTargetAccountState,
        ),
        r == Err::<CreationDirective, CreateError>(CreateError::InvalidTargetAccountState),
{
}

} // verus!
