//! Program derived addresses and the seeds this program derives them from.
use vstd::prelude::*;
use crate::address::Address;

verus! {

/// The program derived address of `seeds` under `program_id`, with its bump seed, as
/// `Pubkey::try_find_program_address` finds it; `None` where no bump seed gives an address
/// off the curve.
pub uninterp spec fn derived_address(seeds: Seq<Seq<u8>>, program_id: Seq<u8>) -> Option<(Seq<u8>, u8)>;

/// The byte sequences that a list of seeds holds.
pub open spec fn seeds_view(seeds: Seq<Vec<u8>>) -> Seq<Seq<u8>> {
    seeds.map_values(|s: Vec<u8>| s@)
}

/// The view of a found address and bump.
pub open spec fn found_view(found: Option<(Address, u8)>) -> Option<(Seq<u8>, u8)> {
    match found {
        Some(p) => Some((p.0@, p.1)),
        None => None,
    }
}

/// `solana_program::pubkey::Pubkey::try_find_program_address`: searches the bump seeds for a
/// program derived address. Its result, a hash of the seeds and the program id, is trusted to
/// be the named `derived_address` of its arguments; nothing more is claimed of it.
#[verifier::external_body]
pub(crate) fn find_program_address(seeds: &Vec<Vec<u8>>, program_id: &Address) -> (r: Option<(Address, u8)>)
    ensures
        found_view(r) == derived_address(seeds_view(seeds@), program_id@),
{
    let slices: Vec<&[u8]> = seeds.iter().map(|s| s.as_slice()).collect();
    let program = solana_program::pubkey::Pubkey::new_from_array(program_id.bytes);
    match solana_program::pubkey::Pubkey::try_find_program_address(&slices, &program) {
        Some((key, bump)) => Some((Address { bytes: key.to_bytes() }, bump)),
        None => None,
    }
}

/// Seed prefix of the DAO stake account (`validator_dao_stake_account`).
pub open spec fn stake_account_prefix() -> Seq<u8> {
    seq![
        118u8, 97, 108, 105, 100, 97, 116, 111, 114, 95, 100, 97, 111, 95, 115, 116, 97, 107, 101,
        95, 97, 99, 99, 111, 117, 110, 116,
    ]
}

/// Seed prefix of a validator provider record (`validator_provider`).
pub open spec fn validator_provider_prefix() -> Seq<u8> {
    seq![118u8, 97, 108, 105, 100, 97, 116, 111, 114, 95, 112, 114, 111, 118, 105, 100, 101, 114]
}

/// Seed prefix of a governance provider record (`governance_provider`).
pub open spec fn governance_provider_prefix() -> Seq<u8> {
    seq![103u8, 111, 118, 101, 114, 110, 97, 110, 99, 101, 95, 112, 114, 111, 118, 105, 100, 101, 114]
}

/// Seed prefix of a governance contract record (`governance_contract`).
pub open spec fn governance_contract_prefix() -> Seq<u8> {
    seq![103u8, 111, 118, 101, 114, 110, 97, 110, 99, 101, 95, 99, 111, 110, 116, 114, 97, 99, 116]
}

/// Seeds of the stake account that a governance delegates to a validator.
pub open spec fn stake_account_seeds(
    governance: Seq<u8>,
    treasury: Seq<u8>,
    governance_program: Seq<u8>,
    vote: Seq<u8>,
    seed: u8,
) -> Seq<Seq<u8>> {
    seq![stake_account_prefix(), governance, treasury, governance_program, vote, seq![seed]]
}

/// Seeds of the record of a validator provider owned by `owner`.
pub open spec fn validator_provider_seeds(owner: Seq<u8>) -> Seq<Seq<u8>> {
    seq![validator_provider_prefix(), owner]
}

/// Seeds of the record that ties a provider to a governance.
pub open spec fn governance_provider_seeds(governance: Seq<u8>, provider: Seq<u8>) -> Seq<Seq<u8>> {
    seq![governance_provider_prefix(), governance, provider]
}

/// Seeds of a contract between a governance and a provider.
pub open spec fn governance_contract_seeds(
    governance: Seq<u8>,
    provider: Seq<u8>,
    governance_provider: Seq<u8>,
) -> Seq<Seq<u8>> {
    seq![governance_contract_prefix(), governance, provider, governance_provider]
}

/// The bytes of an address as a seed.
fn key_seed(a: &Address) -> (r: Vec<u8>)
    ensures
        r@ == a@,
{
    let mut v: Vec<u8> = Vec::new();
    let mut i: usize = 0;
    while i < 32
        invariant
            i <= 32,
            v@ == a@.subrange(0, i as int),
        decreases 32 - i,
    {
        v.push(a.bytes[i]);
        i = i + 1;
        assert(v@ =~= a@.subrange(0, i as int));
    }
    assert(a@.subrange(0, 32) =~= a@);
    v
}

/// Derives the stake account of a governance for a validator vote account.
pub fn find_stake_account(
    governance: &Address,
    treasury: &Address,
    governance_program: &Address,
    vote: &Address,
    seed: u8,
    program_id: &Address,
) -> (r: Option<(Address, u8)>)
    ensures
        found_view(r) == derived_address(
            stake_account_seeds(governance@, treasury@, governance_program@, vote@, seed),
            program_id@,
        ),
{
    let mut seeds: Vec<Vec<u8>> = Vec::new();
    seeds.push(
        vec![
            118u8, 97, 108, 105, 100, 97, 116, 111, 114, 95, 100, 97, 111, 95, 115, 116, 97, 107,
            101, 95, 97, 99, 99, 111, 117, 110, 116,
        ],
    );
    seeds.push(key_seed(governance));
    seeds.push(key_seed(treasury));
    seeds.push(key_seed(governance_program));
    seeds.push(key_seed(vote));
    let last: Vec<u8> = vec![seed];
    assert(last@ =~= seq![seed]);
    seeds.push(last);
    assert(seeds_view(seeds@) =~= stake_account_seeds(
        governance@,
        treasury@,
        governance_program@,
        vote@,
        seed,
    ));
    find_program_address(&seeds, program_id)
}

/// Derives the record address of the validator provider owned by `owner`.
pub fn find_validator_provider(owner: &Address, program_id: &Address) -> (r: Option<(Address, u8)>)
    ensures
        found_view(r) == derived_address(validator_provider_seeds(owner@), program_id@),
{
    let mut seeds: Vec<Vec<u8>> = Vec::new();
    seeds.push(vec![118u8, 97, 108, 105, 100, 97, 116, 111, 114, 95, 112, 114, 111, 118, 105, 100, 101, 114]);
    seeds.push(key_seed(owner));
    assert(seeds_view(seeds@) =~= validator_provider_seeds(owner@));
    find_program_address(&seeds, program_id)
}

/// Derives the address of the record that ties `provider` to `governance`.
pub fn find_governance_provider(governance: &Address, provider: &Address, program_id: &Address) -> (r: Option<(Address, u8)>)
    ensures
        found_view(r) == derived_address(governance_provider_seeds(governance@, provider@), program_id@),
{
    let mut seeds: Vec<Vec<u8>> = Vec::new();
    seeds.push(vec![103u8, 111, 118, 101, 114, 110, 97, 110, 99, 101, 95, 112, 114, 111, 118, 105, 100, 101, 114]);
    seeds.push(key_seed(governance));
    seeds.push(key_seed(provider));
    assert(seeds_view(seeds@) =~= governance_provider_seeds(governance@, provider@));
    find_program_address(&seeds, program_id)
}

/// Derives the address of a contract between `governance` and `provider`.
pub fn find_governance_contract(
    governance: &Address,
    provider: &Address,
    governance_provider: &Address,
    program_id: &Address,
) -> (r: Option<(Address, u8)>)
    ensures
        found_view(r) == derived_address(
            governance_contract_seeds(governance@, provider@, governance_provider@),
            program_id@,
        ),
{
    let mut seeds: Vec<Vec<u8>> = Vec::new();
    seeds.push(vec![103u8, 111, 118, 101, 114, 110, 97, 110, 99, 101, 95, 99, 111, 110, 116, 114, 97, 99, 116]);
    seeds.push(key_seed(governance));
    seeds.push(key_seed(provider));
    seeds.push(key_seed(governance_provider));
    assert(seeds_view(seeds@) =~= governance_contract_seeds(governance@, provider@, governance_provider@));
    find_program_address(&seeds, program_id)
}

} // verus!
