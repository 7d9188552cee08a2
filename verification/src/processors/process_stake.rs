//! Creating a governance's stake account and delegating it to a validator.
use vstd::prelude::*;
use crate::address::Address;
use crate::errors::DaoError;
use crate::governance::{assert_is_valid_governance, governance_check, is_native_treasury, is_native_treasury_of};
use crate::ids::{
    clock_sysvar_id, clock_sysvar_key, rent_sysvar_id, rent_sysvar_key, stake_config_id, stake_config_key,
    stake_history_sysvar_id, stake_history_sysvar_key, stake_program_id, stake_program_key,
    system_program_id, system_program_key,
};
use crate::instructions::InitalizeDAOStakeAccount;
use crate::pda::{derived_address, find_stake_account, stake_account_seeds};

verus! {

/// The stake account to create and delegate: funded with `lamports` by the treasury, which
/// is both its staker and its withdrawer, and delegated to `vote_account`.
#[derive(Clone, Copy, Debug)]
pub struct StakeDelegation {
    /// The stake account.
    pub stake_account: Address,
    /// The bump seed the stake account was derived with.
    pub bump: u8,
    /// The seed the stake account was derived with.
    pub seed: u8,
    /// The governance's native treasury: funder, staker and withdrawer.
    pub authority: Address,
    /// The validator's vote account.
    pub vote_account: Address,
    /// Lamports moved into the stake account.
    pub lamports: u64,
}

/// The stake account derived for these accounts and seed, if any.
pub open spec fn derived_stake_account(a: InitalizeDAOStakeAccount, program_id: Seq<u8>, seed: u8) -> Option<(Seq<u8>, u8)> {
    derived_address(
        stake_account_seeds(
            a.governance_id.key@,
            a.governance_native_treasury_account.key@,
            a.governance_program@,
            a.validator_vote_key@,
            seed,
        ),
        program_id,
    )
}

/// What the stake instruction needs to go through: the named programs and sysvars are the
/// real ones, and, once the governance passes the governance program's check, the signing
/// treasury is the governance's native treasury and the stake account is the address derived
/// for it. On any other input the instruction aborts.
pub open spec fn stake_requirements(a: InitalizeDAOStakeAccount, program_id: Seq<u8>, seed: u8) -> bool {
    &&& a.stake_program@ == stake_program_key()
    &&& a.system_program@ == system_program_key()
    &&& a.clock_program@ == clock_sysvar_key()
    &&& a.rent_program@ == rent_sysvar_key()
    &&& a.stake_history@ == stake_history_sysvar_key()
    &&& a.stake_config@ == stake_config_key()
    &&& stake_governance_check(a) is Ok ==> {
        &&& is_native_treasury(
            a.governance_native_treasury_account.key@,
            a.governance_program@,
            a.governance_id.key@,
        )
        &&& derived_stake_account(a, program_id, seed) matches Some(p) && p.0 == a.dao_stake_account@
    }
}

/// The governance program's answer on the governance of these accounts.
pub open spec fn stake_governance_check(a: InitalizeDAOStakeAccount) -> Result<(), u64> {
    governance_check(a.governance_program@, a.governance_id.owner@, a.governance_id.data@)
}

/// Whether `d` creates and delegates the stake account of these accounts: the derived
/// stake account, funded with `lamports` by the treasury, delegated to the vote account.
pub open spec fn is_stake_delegation(
    d: StakeDelegation,
    a: InitalizeDAOStakeAccount,
    program_id: Seq<u8>,
    seed: u8,
    lamports: u64,
) -> bool {
    &&& d.stake_account@ == a.dao_stake_account@
    &&& derived_stake_account(a, program_id, seed) == Some((d.stake_account@, d.bump))
    &&& d.seed == seed
    &&& d.authority@ == a.governance_native_treasury_account.key@
    &&& d.vote_account@ == a.validator_vote_key@
    &&& d.lamports == lamports
}

/// Whether `r` is what the stake instruction's work answers once its requirements hold: the
/// governance program's refusal, else the delegation of the derived stake account.
pub open spec fn is_stake_process_outcome(
    r: Result<StakeDelegation, DaoError>,
    a: InitalizeDAOStakeAccount,
    program_id: Seq<u8>,
    seed: u8,
    lamports: u64,
) -> bool {
    match stake_governance_check(a) {
        Err(code) => r == Err::<StakeDelegation, DaoError>(DaoError::Program(code)),
        Ok(_) => r matches Ok(d) && is_stake_delegation(d, a, program_id, seed, lamports),
    }
}

/// Tests whether the stake instruction can go through on these accounts, so that a caller
/// can abort where it cannot.
pub fn stake_requirements_hold(accounts: &InitalizeDAOStakeAccount, program_id: &Address, seed: u8) -> (r: bool)
    ensures
        r == stake_requirements(*accounts, program_id@, seed),
{
    if !accounts.stake_program.same(&stake_program_id()) || !accounts.system_program.same(&system_program_id())
        || !accounts.clock_program.same(&clock_sysvar_id()) || !accounts.rent_program.same(&rent_sysvar_id())
        || !accounts.stake_history.same(&stake_history_sysvar_id()) || !accounts.stake_config.same(&stake_config_id()) {
        return false;
    }
    if assert_is_valid_governance(&accounts.governance_program, &accounts.governance_id).is_err() {
        return true;
    }
    let treasury = &accounts.governance_native_treasury_account.key;
    if !is_native_treasury_of(treasury, &accounts.governance_program, &accounts.governance_id.key) {
        return false;
    }
    match find_stake_account(
        &accounts.governance_id.key,
        treasury,
        &accounts.governance_program,
        &accounts.validator_vote_key,
        seed,
        program_id,
    ) {
        Some((stake_account, _)) => stake_account.same(&accounts.dao_stake_account),
        None => false,
    }
}

/// Checks the stake instruction's accounts and says which stake account to create with
/// `lamports` and delegate to the validator: the governance program's refusal of the
/// governance is the one error.
pub fn process(accounts: &InitalizeDAOStakeAccount, program_id: &Address, seed: u8, lamports: u64) -> (r: Result<StakeDelegation, DaoError>)
    requires
        stake_requirements(*accounts, program_id@, seed),
    ensures
        is_stake_process_outcome(r, *accounts, program_id@, seed, lamports),
{
    match assert_is_valid_governance(&accounts.governance_program, &accounts.governance_id) {
        Err(code) => return Err(DaoError::Program(code)),
        Ok(()) => {},
    }
    let treasury = &accounts.governance_native_treasury_account.key;
    let found = find_stake_account(
        &accounts.governance_id.key,
        treasury,
        &accounts.governance_program,
        &accounts.validator_vote_key,
        seed,
        program_id,
    );
    let (stake_account, bump) = found.unwrap();
    Ok(StakeDelegation {
        stake_account,
        bump,
        seed,
        authority: *treasury,
        vote_account: accounts.validator_vote_key,
        lamports,
    })
}

} // verus!
