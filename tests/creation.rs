use pda_account::address::{derive_vault_address, vault_seeds, Address};
use pda_account::error::CreateError;
use pda_account::instruction::CreateAccountInstruction;
use pda_account::processor::{
    complete_creation, ledger_outcome, parse_request, plan_creation, prepare_creation,
};
use pda_account::rent::{funding_amount, RentSchedule};
use pda_account::roles::{check_roles, Participant};
use pda_account::system::creation_instruction;
use solana_program::pubkey::Pubkey;

const SYSTEM: Address = [0u8; 32];

fn program_id() -> Address {
    [9u8; 32]
}

fn participant(address: Address, is_signer: bool, is_writable: bool) -> Participant {
    Participant { address, is_signer, is_writable }
}

fn default_schedule() -> RentSchedule {
    RentSchedule {
        lamports_per_byte: 6_960,
        exemption_threshold: 1f64.to_le_bytes(),
        burn_percent: 50,
    }
}

fn payload(bump: u8, space: u64) -> Vec<u8> {
    CreateAccountInstruction { new_account_bump_seed: bump, space }.encode()
}

/// A funder for which bump 7 yields a valid vault address, with that address.
fn funder_with_vault_at_bump_7() -> (Address, Address) {
    for n in 1u8..=255 {
        let funder = [n; 32];
        if let Some(target) = derive_vault_address(&program_id(), &funder, 7) {
            return (funder, target);
        }
    }
    panic!("no funder found whose vault derives with bump 7");
}

fn valid_participants(funder: Address, target: Address) -> Vec<Participant> {
    vec![
        participant(funder, true, true),
        participant(target, false, true),
        participant(SYSTEM, false, false),
    ]
}

#[test]
fn decode_reads_bump_then_little_endian_space() {
    let data = [7u8, 128, 0, 0, 0, 0, 0, 0, 0];
    let ins = CreateAccountInstruction::decode(&data).unwrap();
    assert_eq!(ins.new_account_bump_seed, 7);
    assert_eq!(ins.space, 128);
    let data = [255u8, 1, 2, 3, 4, 5, 6, 7, 8];
    let ins = CreateAccountInstruction::decode(&data).unwrap();
    assert_eq!(ins.new_account_bump_seed, 255);
    assert_eq!(ins.space, 0x0807_0605_0403_0201);
}

#[test]
fn decode_ignores_trailing_bytes() {
    let data = [3u8, 16, 0, 0, 0, 0, 0, 0, 0, 99, 98];
    let ins = CreateAccountInstruction::decode(&data).unwrap();
    assert_eq!(ins, CreateAccountInstruction { new_account_bump_seed: 3, space: 16 });
}

#[test]
fn decode_rejects_short_payloads() {
    for len in 0..9 {
        let data = vec![1u8; len];
        assert_eq!(CreateAccountInstruction::decode(&data), Err(CreateError::MalformedRequest));
    }
}

#[test]
fn encode_matches_borsh_layout() {
    let ins = CreateAccountInstruction { new_account_bump_seed: 7, space: 128 };
    assert_eq!(ins.encode(), vec![7u8, 128, 0, 0, 0, 0, 0, 0, 0]);
    assert_eq!(ins.encode(), borsh::to_vec(&(7u8, 128u64)).unwrap());
    let ins = CreateAccountInstruction { new_account_bump_seed: 1, space: u64::MAX - 1 };
    assert_eq!(ins.encode(), borsh::to_vec(&(1u8, u64::MAX - 1)).unwrap());
}

#[test]
fn decode_then_encode_round_trips() {
    for (bump, space) in [(0u8, 0u64), (7, 128), (255, u64::MAX), (42, 0x0102_0304_0506_0708)] {
        let ins = CreateAccountInstruction { new_account_bump_seed: bump, space };
        let bytes = ins.encode();
        assert_eq!(CreateAccountInstruction::decode(&bytes), Ok(ins));
    }
    let data = [200u8, 9, 8, 7, 6, 5, 4, 3, 2, 1];
    let ins = CreateAccountInstruction::decode(&data).unwrap();
    assert_eq!(ins.encode(), data[..9].to_vec());
}

#[test]
fn roles_accept_valid_participants_and_ignore_extras() {
    let mut ps = valid_participants([1u8; 32], [2u8; 32]);
    ps.push(participant([3u8; 32], true, true));
    let roles = check_roles(&ps).unwrap();
    assert_eq!(roles.funder.address, [1u8; 32]);
    assert_eq!(roles.target.address, [2u8; 32]);
    assert_eq!(roles.authority.address, SYSTEM);
}

#[test]
fn roles_reject_short_list() {
    let ps = valid_participants([1u8; 32], [2u8; 32]);
    assert_eq!(check_roles(&ps[..2]).err(), Some(CreateError::ParticipantListTooShort));
    assert_eq!(check_roles(&[]).err(), Some(CreateError::ParticipantListTooShort));
}

#[test]
fn roles_reject_funder_that_does_not_sign_or_write() {
    let mut ps = valid_participants([1u8; 32], [2u8; 32]);
    ps[0].is_signer = false;
    assert_eq!(check_roles(&ps).err(), Some(CreateError::MissingFunderAuthorization));
    let mut ps = valid_participants([1u8; 32], [2u8; 32]);
    ps[0].is_writable = false;
    assert_eq!(check_roles(&ps).err(), Some(CreateError::MissingFunderAuthorization));
}

#[test]
fn unsigned_funder_fails_whatever_the_others_are() {
    let data = payload(7, 128);
    for target_signs in [false, true] {
        for target_writes in [false, true] {
            for third in [SYSTEM, [5u8; 32]] {
                let ps = vec![
                    participant([1u8; 32], false, true),
                    participant([2u8; 32], target_signs, target_writes),
                    participant(third, false, false),
                ];
                let r = plan_creation(&ps, &data, Some(default_schedule()));
                assert_eq!(r.err(), Some(CreateError::MissingFunderAuthorization));
            }
        }
    }
}

#[test]
fn roles_reject_target_that_signs_or_is_read_only() {
    let mut ps = valid_participants([1u8; 32], [2u8; 32]);
    ps[1].is_signer = true;
    assert_eq!(check_roles(&ps).err(), Some(CreateError::InvalidTargetAccountState));
    let mut ps = valid_participants([1u8; 32], [2u8; 32]);
    ps[1].is_writable = false;
    assert_eq!(check_roles(&ps).err(), Some(CreateError::InvalidTargetAccountState));
}

#[test]
fn signing_target_fails_the_flow() {
    let data = payload(7, 128);
    for third in [SYSTEM, [5u8; 32]] {
        let ps = vec![
            participant([1u8; 32], true, true),
            participant([2u8; 32], true, true),
            participant(third, false, false),
        ];
        let r = plan_creation(&ps, &data, Some(default_schedule()));
        assert_eq!(r.err(), Some(CreateError::InvalidTargetAccountState));
    }
}

#[test]
fn roles_reject_other_authority() {
    let mut ps = valid_participants([1u8; 32], [2u8; 32]);
    ps[2].address[31] = 1;
    assert_eq!(check_roles(&ps).err(), Some(CreateError::UnexpectedAuthorityAccount));
    let mut ps = valid_participants([1u8; 32], [2u8; 32]);
    ps[2].address = solana_program::sysvar::rent::ID.to_bytes();
    assert_eq!(check_roles(&ps).err(), Some(CreateError::UnexpectedAuthorityAccount));
}

#[test]
fn seeds_are_tag_funder_and_bump() {
    let funder = [4u8; 32];
    let seeds = vault_seeds(&funder, 7);
    assert_eq!(seeds, vec![b"vault".to_vec(), funder.to_vec(), vec![7u8]]);
}

#[test]
fn derived_address_matches_the_runtime_search() {
    let funder = [4u8; 32];
    let pid = Pubkey::new_from_array(program_id());
    let (expected, bump) =
        Pubkey::find_program_address(&[b"vault", funder.as_ref()], &pid);
    assert_eq!(derive_vault_address(&program_id(), &funder, bump), Some(expected.to_bytes()));
    assert_ne!(expected.to_bytes(), funder);
}

#[test]
fn derivation_is_deterministic() {
    let funder = [6u8; 32];
    for bump in [255u8, 254, 7, 0] {
        let first = derive_vault_address(&program_id(), &funder, bump);
        let second = derive_vault_address(&program_id(), &funder, bump);
        assert_eq!(first, second);
    }
}

#[test]
fn wrong_bump_does_not_derive_the_target() {
    let (funder, target) = funder_with_vault_at_bump_7();
    for bump in [6u8, 8, 255] {
        assert_ne!(derive_vault_address(&program_id(), &funder, bump), Some(target));
    }
    let other_funder = [funder[0].wrapping_add(1); 32];
    assert_ne!(derive_vault_address(&program_id(), &other_funder, 7), Some(target));
}

#[test]
fn funding_under_one_year_threshold() {
    assert_eq!(funding_amount(&default_schedule(), 128), Ok(256 * 6_960));
    assert_eq!(funding_amount(&default_schedule(), 0), Ok(128 * 6_960));
}

#[test]
fn funding_under_two_year_threshold() {
    let s = RentSchedule {
        lamports_per_byte: 3_480,
        exemption_threshold: 2f64.to_le_bytes(),
        burn_percent: 50,
    };
    assert_eq!(funding_amount(&s, 128), Ok(2 * 256 * 3_480));
}

#[test]
fn funding_under_fractional_threshold() {
    let s = RentSchedule {
        lamports_per_byte: 1_000,
        exemption_threshold: 2.5f64.to_le_bytes(),
        burn_percent: 0,
    };
    assert_eq!(funding_amount(&s, 72), Ok(500_000));
}

#[test]
fn funding_unavailable_past_limits() {
    assert_eq!(
        funding_amount(&default_schedule(), 10 * 1024 * 1024 + 1),
        Err(CreateError::CostScheduleUnavailable)
    );
    assert_eq!(funding_amount(&default_schedule(), u64::MAX), Err(CreateError::CostScheduleUnavailable));
    let greedy = RentSchedule { lamports_per_byte: u64::MAX, ..default_schedule() };
    assert_eq!(funding_amount(&greedy, 128), Err(CreateError::CostScheduleUnavailable));
    let overflowing = RentSchedule {
        lamports_per_byte: u64::MAX / 100,
        exemption_threshold: 1.5f64.to_le_bytes(),
        burn_percent: 0,
    };
    assert_eq!(funding_amount(&overflowing, 128), Err(CreateError::CostScheduleUnavailable));
}

#[test]
fn creation_with_bump_7_and_128_bytes() {
    let (funder, target) = funder_with_vault_at_bump_7();
    let ps = valid_participants(funder, target);
    let d = plan_creation(&ps, &payload(7, 128), Some(default_schedule())).unwrap();
    assert_eq!(d.funder, funder);
    assert_eq!(d.target, target);
    assert_eq!(d.lamports, 256 * 6_960);
    assert_eq!(d.space, 128);
    assert_eq!(d.owner, SYSTEM);
    assert_eq!(d.bump, 7);
    let seeds = vault_seeds(&d.funder, d.bump);
    let slices: Vec<&[u8]> = seeds.iter().map(|s| s.as_slice()).collect();
    let signed_for =
        Pubkey::create_program_address(&slices, &Pubkey::new_from_array(program_id())).unwrap();
    assert_eq!(signed_for.to_bytes(), d.target);
}

#[test]
fn same_request_twice_gives_the_same_directive() {
    let (funder, target) = funder_with_vault_at_bump_7();
    let ps = valid_participants(funder, target);
    let first = plan_creation(&ps, &payload(7, 128), Some(default_schedule())).unwrap();
    let second = plan_creation(&ps, &payload(7, 128), Some(default_schedule())).unwrap();
    assert_eq!((first.target, first.lamports), (second.target, second.lamports));
}

#[test]
fn five_byte_payload_is_malformed_before_accounts() {
    let data = [7u8, 128, 0, 0, 0];
    assert_eq!(plan_creation(&[], &data, Some(default_schedule())).err(), Some(CreateError::MalformedRequest));
    let bad_accounts = vec![participant([1u8; 32], false, false)];
    assert_eq!(parse_request(&bad_accounts, &data).err(), Some(CreateError::MalformedRequest));
    assert_eq!(prepare_creation(&bad_accounts, &data).err(), Some(CreateError::MalformedRequest));
}

#[test]
fn missing_schedule_is_reported() {
    let (funder, target) = funder_with_vault_at_bump_7();
    let ps = valid_participants(funder, target);
    let (ins, roles) = parse_request(&ps, &payload(7, 128)).unwrap();
    assert_eq!(complete_creation(&ins, &roles, None).err(), Some(CreateError::CostScheduleUnavailable));
}

#[test]
fn off_chain_host_supplies_no_schedule() {
    let (funder, target) = funder_with_vault_at_bump_7();
    let ps = valid_participants(funder, target);
    assert_eq!(prepare_creation(&ps, &payload(7, 128)).err(), Some(CreateError::CostScheduleUnavailable));
}

#[test]
fn ledger_refusal_carries_its_code() {
    assert_eq!(ledger_outcome(Ok(())), Ok(()));
    assert_eq!(ledger_outcome(Err(17)), Err(CreateError::CreationRejectedByLedger(17)));
}

#[test]
fn instruction_asks_system_program_to_create_and_fund() {
    let (funder, target) = funder_with_vault_at_bump_7();
    let ps = valid_participants(funder, target);
    let d = plan_creation(&ps, &payload(7, 128), Some(default_schedule())).unwrap();
    let ix = creation_instruction(&d);
    assert_eq!(ix.program_id, SYSTEM);
    assert_eq!(ix.accounts.len(), 2);
    assert_eq!(ix.accounts[0].address, funder);
    assert_eq!(ix.accounts[1].address, target);
    assert!(ix.accounts.iter().all(|a| a.is_signer && a.is_writable));
    let mut expected = vec![0u8, 0, 0, 0];
    expected.extend_from_slice(&(256u64 * 6_960).to_le_bytes());
    expected.extend_from_slice(&128u64.to_le_bytes());
    expected.extend_from_slice(&SYSTEM);
    assert_eq!(ix.data, expected);
}
