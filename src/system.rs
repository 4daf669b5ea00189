//! The instruction that asks the system program to create the account.
use solana_program::pubkey::Pubkey;
use vstd::prelude::*;

use crate::address::{system_program_address, Address};
use crate::instruction::le_value;
use crate::processor::CreationDirective;
use crate::roles::Participant;

verus! {

/// An instruction to an on-chain program, as plain values: the program, the
/// accounts it touches with their permissions, and its data.
#[derive(Debug, Clone)]
pub struct LedgerInstruction {
    /// The program that executes the instruction.
    pub program_id: Address,
    /// The accounts the instruction touches, in order.
    pub accounts: Vec<Participant>,
    /// The instruction's data.
    pub data: Vec<u8>,
}

/// `data` is the system program's create-account request: the variant index
/// 0 as four little-endian bytes, then the lamports and the space as eight
/// little-endian bytes each, then the owner's address.
pub open spec fn is_create_account_data(data: Seq<u8>, lamports: u64, space: u64, owner: Seq<u8>) -> bool {
    &&& data.len() == 52
    &&& data.subrange(0, 4) == seq![0u8, 0u8, 0u8, 0u8]
    &&& le_value(data.subrange(4, 12)) == lamports as nat
    &&& le_value(data.subrange(12, 20)) == space as nat
    &&& data.subrange(20, 52) == owner
}

/// `ix` asks the system program to create `to`, funded by `from` with
/// `lamports`, with `space` data bytes and owned by `owner`; both accounts
/// are writable signers.
pub open spec fn is_create_account(
    ix: LedgerInstruction,
    from: Address,
    to: Address,
    lamports: u64,
    space: u64,
    owner: Seq<u8>,
) -> bool {
    &&& ix.program_id@ == system_program_address()
    &&& ix.accounts@ == seq![
        Participant { address: from, is_signer: true, is_writable: true },
        Participant { address: to, is_signer: true, is_writable: true },
    ]
    &&& is_create_account_data(ix.data@, lamports, space, owner)
}

/// Relies on `solana_system_interface::instruction::create_account`: an
/// instruction to the system program over the funding and the new account,
/// both writable signers, whose data is the bincode encoding of
/// `SystemInstruction::CreateAccount`.
#[verifier::external_body]
fn system_create_account(
    from: &Address,
    to: &Address,
    lamports: u64,
    space: u64,
    owner: &Address,
) -> (r: LedgerInstruction)
    ensures
        is_create_account(r, *from, *to, lamports, space, owner@),
{
    let ix = solana_system_interface::instruction::create_account(
        &Pubkey::new_from_array(*from), &Pubkey::new_from_array(*to), lamports, space,
        &Pubkey::new_from_array(*owner),
    );
    let accounts = ix.accounts.iter().map(|m| Participant {
        address: m.pubkey.to_bytes(), is_signer: m.is_signer, is_writable: m.is_writable,
    }).collect();
    LedgerInstruction { program_id: ix.program_id.to_bytes(), accounts, data: ix.data }
}

/// The system program instruction that carries out `d`.
pub fn creation_instruction(d: &CreationDirective) -> (r: LedgerInstruction)
    ensures
        is_create_account(r, d.funder, d.target, d.lamports, d.space, d.owner@),
{
    system_create_account(&d.funder, &d.target, d.lamports, d.space, &d.owner)
}

} // verus!
