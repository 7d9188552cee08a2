//! What this program asks of the SPL governance program.
use vstd::prelude::*;
use crate::address::Address;
use crate::pda::{derived_address, find_program_address, found_view, seeds_view};

verus! {

/// An account as the program reads it: its address, the program that owns it and its data.
#[derive(Clone, Debug)]
pub struct AccountSnapshot {
    pub key: Address,
    pub owner: Address,
    pub data: Vec<u8>,
}

/// Code of the program error `Custom(1101)`: the account holds no data.
pub const ACCOUNT_DOES_NOT_EXIST: u64 = 1101;
/// Code of the program error `Custom(1102)`: the account is owned by another program.
pub const INVALID_ACCOUNT_OWNER: u64 = 1102;
/// Code of the program error `Custom(1103)`: the account is of another type.
pub const INVALID_ACCOUNT_TYPE: u64 = 1103;
/// Code of the program error `BorshIoError`: the account type does not decode.
pub const BORSH_IO_ERROR: u64 = 0xf_0000_0000;

/// Whether the account type tag of a governance account's data names a governance:
/// `GovernanceV1`, `ProgramGovernanceV1`, `MintGovernanceV1`, `TokenGovernanceV1` and their
/// `V2` counterparts.
pub open spec fn is_governance_account_type(tag: u8) -> bool {
    tag == 3 || tag == 4 || tag == 9 || tag == 10 || (18 <= tag && tag <= 21)
}

/// What the governance program answers when asked whether an account is a governance it
/// owns: the data must be non-empty, the owner must be the governance program, the first byte
/// must decode as one of the 25 account types, and that type must be a governance.
pub open spec fn governance_check(program_id: Seq<u8>, owner: Seq<u8>, data: Seq<u8>) -> Result<(), u64> {
    if data.len() == 0 {
        Err(ACCOUNT_DOES_NOT_EXIST)
    } else if owner != program_id {
        Err(INVALID_ACCOUNT_OWNER)
    } else if data[0] >= 25 {
        Err(BORSH_IO_ERROR)
    } else if is_governance_account_type(data[0]) {
        Ok(())
    } else {
        Err(INVALID_ACCOUNT_TYPE)
    }
}

/// `spl_governance::state::governance::assert_is_valid_governance`, called on an account
/// holding `account`'s address, owner and data. Its source (through
/// `spl_governance_tools::account::assert_is_valid_account_of_types`) checks in turn that the
/// data is not empty, that the owner is `program_id`, that the first byte decodes as a
/// `GovernanceAccountType`, and that the type is one of the governance types; the contract
/// states that check and the code of each error, which the wrapper returns as `u64`.
#[verifier::external_body]
pub(crate) fn assert_is_valid_governance(program_id: &Address, account: &AccountSnapshot) -> (r: Result<(), u64>)
    ensures
        r == governance_check(program_id@, account.owner@, account.data@),
{
    let key = solana_program::pubkey::Pubkey::new_from_array(account.key.bytes);
    let owner = solana_program::pubkey::Pubkey::new_from_array(account.owner.bytes);
    let program = solana_program::pubkey::Pubkey::new_from_array(program_id.bytes);
    let mut lamports: u64 = 0;
    let mut data = account.data.clone();
    let info = solana_program::account_info::AccountInfo::new(&key, false, false, &mut lamports, &mut data, &owner, false, 0);
    spl_governance::state::governance::assert_is_valid_governance(&program, &info).map_err(u64::from)
}

/// Seed prefix of a governance's native treasury (`native-treasury`).
pub open spec fn native_treasury_prefix() -> Seq<u8> {
    seq![110u8, 97, 116, 105, 118, 101, 45, 116, 114, 101, 97, 115, 117, 114, 121]
}

/// Seeds of the native treasury of `governance`.
pub open spec fn native_treasury_seeds(governance: Seq<u8>) -> Seq<Seq<u8>> {
    seq![native_treasury_prefix(), governance]
}

/// The native treasury of `governance` under the governance program `program_id`, with its
/// bump seed; `None` where no bump seed gives an address.
pub open spec fn native_treasury(program_id: Seq<u8>, governance: Seq<u8>) -> Option<(Seq<u8>, u8)> {
    derived_address(native_treasury_seeds(governance), program_id)
}

/// Whether `key` is the native treasury of `governance` under `program_id`.
pub open spec fn is_native_treasury(key: Seq<u8>, program_id: Seq<u8>, governance: Seq<u8>) -> bool {
    native_treasury(program_id, governance) matches Some(p) && p.0 == key
}

/// `spl_governance::state::native_treasury::get_native_treasury_address_seeds`: the seeds
/// `[b"native-treasury", governance]` that the native treasury is derived from, converted to
/// owned byte vectors.
#[verifier::external_body]
fn get_native_treasury_address_seeds(governance: &Address) -> (r: Vec<Vec<u8>>)
    ensures
        seeds_view(r@) == native_treasury_seeds(governance@),
{
    let gov = solana_program::pubkey::Pubkey::new_from_array(governance.bytes);
    spl_governance::state::native_treasury::get_native_treasury_address_seeds(&gov).iter().map(|s| s.to_vec()).collect()
}

/// Derives the native treasury of `governance` under the governance program `program_id`
/// from the governance program's treasury seeds: `None` where no bump seed gives an
/// address, a case in which `get_native_treasury_address` panics.
pub fn find_native_treasury(program_id: &Address, governance: &Address) -> (r: Option<(Address, u8)>)
    ensures
        found_view(r) == native_treasury(program_id@, governance@),
{
    let seeds = get_native_treasury_address_seeds(governance);
    find_program_address(&seeds, program_id)
}

/// Whether `key` is the native treasury of `governance` under `program_id`.
pub fn is_native_treasury_of(key: &Address, program_id: &Address, governance: &Address) -> (r: bool)
    ensures
        r == is_native_treasury(key@, program_id@, governance@),
{
    match find_native_treasury(program_id, governance) {
        Some((treasury, _)) => treasury.same(key),
        None => false,
    }
}

} // verus!
