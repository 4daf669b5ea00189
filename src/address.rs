//! Account addresses, the system program, and the seeds from which the vault
//! account's address is derived.
use vstd::prelude::*;

verus! {

/// The 32 bytes of an account address.
pub type Address = [u8; 32];

/// The literal tag that opens the vault's derivation seeds: the ASCII bytes
/// of `vault`.
pub open spec fn vault_tag() -> Seq<u8> {
    seq![118u8, 97u8, 117u8, 108u8, 116u8]
}

/// The address of the system program: 32 zero bytes.
pub open spec fn system_program_address() -> Seq<u8> {
    Seq::new(32, |i: int| 0u8)
}

/// The seeds that sign for the vault of `funder`: the tag, the funder's
/// address, and the bump byte, in that order.
pub open spec fn vault_seeds_spec(funder: Seq<u8>, bump: u8) -> Seq<Seq<u8>> {
    seq![vault_tag(), funder, seq![bump]]
}

/// The byte strings held by a list of seeds.
pub open spec fn seeds_view(seeds: Seq<Vec<u8>>) -> Seq<Seq<u8>> {
    seeds.map_values(|s: Vec<u8>| s@)
}

/// The address that the runtime derives from `seeds` under `program_id`, or
/// `None` where the seeds give no valid program address.
pub uninterp spec fn program_address_of(seeds: Seq<Seq<u8>>, program_id: Seq<u8>) -> Option<
    Seq<u8>,
>;

/// Relies on `solana_system_interface::program::check_id`: true exactly for
/// the system program's address, which is 32 zero bytes.
#[verifier::external_body]
pub(crate) fn is_system_program(key: &Address) -> (r: bool)
    ensures
        r == (key@ == system_program_address()),
{
    solana_system_interface::program::check_id(&solana_program::pubkey::Pubkey::new_from_array(*key))
}

/// Relies on `solana_system_interface::program::ID`: the system program's
/// address, 32 zero bytes.
#[verifier::external_body]
pub(crate) fn system_program_id() -> (r: Address)
    ensures
        r@ == system_program_address(),
{
    solana_system_interface::program::ID.to_bytes()
}

/// Relies on `Pubkey::create_program_address`: a hash of the seeds and the
/// program id, refused where the hash lies on the curve or the seeds are too
/// many or too long; the result depends on the arguments alone.
#[verifier::external_body]
fn create_program_address(seeds: &Vec<Vec<u8>>, program_id: &Address) -> (r: Option<Address>)
    ensures
        program_address_of(seeds_view(seeds@), program_id@) == match r {
            Some(a) => Some(a@),
            None => None::<Seq<u8>>,
        },
{
    let slices: Vec<&[u8]> = seeds.iter().map(|s| s.as_slice()).collect();
    solana_program::pubkey::Pubkey::create_program_address(
        &slices,
        &solana_program::pubkey::Pubkey::new_from_array(*program_id),
    ).ok().map(|a| a.to_bytes())
}

/// The signer seeds for the vault of `funder` with the given bump.
pub fn vault_seeds(funder: &Address, bump: u8) -> (r: Vec<Vec<u8>>)
    ensures
        seeds_view(r@) == vault_seeds_spec(funder@, bump),
{
    let tag: Vec<u8> = vec![118u8, 97u8, 117u8, 108u8, 116u8];
    let mut owner: Vec<u8> = Vec::new();
    let mut i: usize = 0;
    while i < 32
        invariant
            i <= 32,
            owner@ == funder@.subrange(0, i as int),
        decreases 32 - i,
    {
        owner.push(funder[i]);
        i = i + 1;
    }
    let mut bump_seed: Vec<u8> = Vec::new();
    bump_seed.push(bump);
    assert(tag@ =~= vault_tag());
    assert(owner@ =~= funder@);
    assert(bump_seed@ =~= seq![bump]);
    let mut r: Vec<Vec<u8>> = Vec::new();
    r.push(tag);
    r.push(owner);
    r.push(bump_seed);
    assert(seeds_view(r@) =~= vault_seeds_spec(funder@, bump));
    r
}

/// What deriving the vault address of `funder` with `bump` under `program_id`
/// gives.
pub open spec fn vault_address_spec(program_id: Seq<u8>, funder: Seq<u8>, bump: u8) -> Option<
    Seq<u8>,
> {
    program_address_of(vault_seeds_spec(funder, bump), program_id)
}

/// `r` is what deriving the vault address gives.
pub open spec fn derives_vault_address(
    program_id: Seq<u8>,
    funder: Seq<u8>,
    bump: u8,
    r: Option<Address>,
) -> bool {
    vault_address_spec(program_id, funder, bump) == match r {
        Some(a) => Some(a@),
        None => None::<Seq<u8>>,
    }
}

/// Derives the address of the vault of `funder` under `program_id` with the
/// given bump, or `None` where that bump gives no valid program address.
pub fn derive_vault_address(program_id: &Address, funder: &Address, bump: u8) -> (r: Option<
    Address,
>)
    ensures
        derives_vault_address(program_id@, funder@, bump, r),
{
    let seeds = vault_seeds(funder, bump);
    create_program_address(&seeds, program_id)
}

/// Deriving the vault address is deterministic: two derivations from the same
/// program id, funder address and bump give the same result.
pub proof fn lemma_vault_address_deterministic(
    program_id: Address,
    funder: Address,
    bump: u8,
    r1: Option<Address>,
    r2: Option<Address>,
)
    requires
        derives_vault_address(program_id@, funder@, bump, r1),
        derives_vault_address(program_id@, funder@, bump, r2),
    ensures
        r1 == r2,
{
    match r1 {
        Some(a1) => {
            let a2 = r2->0;
            assert(a1@ =~= a2@);
            assert(a1 == a2);
        },
        None => {},
    }
}

} // verus!
