//! The program's instructions: each checks its accounts as they declare, then does its work.
//!
//! Where an instruction aborts on some inputs (a failed assertion, an arithmetic overflow),
//! its function leaves those inputs out, and a `checked_` function beside it tests for them
//! first and answers `None` there.
use vstd::prelude::*;
use vstd::utf8::encode_utf8;
use crate::address::Address;
use crate::errors::{DaoError, ValidatorDaoErrors};
use crate::instructions::{
    add_provider_accounts_failure, create_contract_accounts_failure, register_accounts_failure,
    stake_accounts_failure, AddRegisteredProviderToGovernance, CreateGovernanceContract, ExecuteContract,
    InitalizeDAOStakeAccount, RegisterValidatorServiceProvider,
};
use crate::periodicity::{periodicity_of_byte, PaymentPeriodicity};
use crate::processors::add_registered_provider_to_governance::{
    add_provider_governance_check, add_provider_requirements, add_provider_requirements_hold,
    is_new_governance_provider,
};
use crate::processors::create_governance_contract::{
    create_contract_governance_check, create_contract_requirements, create_contract_requirements_hold,
    is_new_contract,
};
use crate::processors::execute_contract::{is_execute_outcome, TokenTransfer};
use crate::processors::process_stake::{
    is_stake_delegation, stake_governance_check, stake_requirements, stake_requirements_hold, StakeDelegation,
};
use crate::processors::register_validator_provider::is_register_process_outcome;
use crate::processors;
use crate::states::{GovernanceContract, GovernanceProvider, ValidatorProvider};

verus! {

/// Whether `r` is what the stake instruction answers: the first failed account check, else
/// the governance program's refusal, else the delegation of the derived stake account.
pub open spec fn is_stake_outcome(
    r: Result<StakeDelegation, DaoError>,
    a: InitalizeDAOStakeAccount,
    program_id: Seq<u8>,
    seed: u8,
    lamports: u64,
) -> bool {
    match stake_accounts_failure(a, program_id, seed) {
        Some(e) => r == Err::<StakeDelegation, DaoError>(e),
        None => match stake_governance_check(a) {
            Err(code) => r == Err::<StakeDelegation, DaoError>(DaoError::Program(code)),
            Ok(_) => r matches Ok(d) && is_stake_delegation(d, a, program_id, seed, lamports),
        },
    }
}

/// Creates a stake account for a governance's native treasury, funded with `lamports`, and
/// delegates it to a validator; returns what the stake program is to be asked to do.
pub fn stake(accounts: &InitalizeDAOStakeAccount, program_id: &Address, seed: u8, lamports: u64) -> (r: Result<StakeDelegation, DaoError>)
    requires
        stake_accounts_failure(*accounts, program_id@, seed) is None ==> stake_requirements(*accounts, program_id@, seed),
    ensures
        is_stake_outcome(r, *accounts, program_id@, seed, lamports),
{
    accounts.validate(program_id, seed)?;
    processors::process_stake::process(accounts, program_id, seed, lamports)
}

/// Whether `r` is what the stake instruction answers on any accounts: `None` exactly where
/// the accounts pass their checks but the instruction's requirements fail, else its outcome.
pub open spec fn is_checked_stake_outcome(
    r: Option<Result<StakeDelegation, DaoError>>,
    a: InitalizeDAOStakeAccount,
    program_id: Seq<u8>,
    seed: u8,
    lamports: u64,
) -> bool {
    let aborts = stake_accounts_failure(a, program_id, seed) is None && !stake_requirements(a, program_id, seed);
    match r {
        None => aborts,
        Some(x) => !aborts && is_stake_outcome(x, a, program_id, seed, lamports),
    }
}

/// The stake instruction on any accounts: `None` where it aborts (a named program, sysvar or
/// the stake config is not the real one, or the governance passes its check but the signer
/// is not its native treasury or the stake account is not the derived one).
pub fn checked_stake(accounts: &InitalizeDAOStakeAccount, program_id: &Address, seed: u8, lamports: u64) -> (r: Option<Result<StakeDelegation, DaoError>>)
    ensures
        is_checked_stake_outcome(r, *accounts, program_id@, seed, lamports),
{
    if let Err(e) = accounts.validate(program_id, seed) {
        return Some(Err(e));
    }
    if !stake_requirements_hold(accounts, program_id, seed) {
        return None;
    }
    Some(stake(accounts, program_id, seed, lamports))
}

/// Registers a validator service provider; returns its new record.
pub fn register_validator_provider(
    accounts: &RegisterValidatorServiceProvider,
    program_id: &Address,
    services: u64,
    name: String,
    description: String,
) -> (r: Result<ValidatorProvider, DaoError>)
    ensures
        register_accounts_failure(*accounts, program_id@) matches Some(e) ==> r == Err::<ValidatorProvider, DaoError>(e),
        register_accounts_failure(*accounts, program_id@) is None
            ==> is_register_process_outcome(r, *accounts, services, encode_utf8(name@), encode_utf8(description@)),
{
    accounts.validate(program_id)?;
    processors::register_validator_provider::process(accounts, services, name, description)
}

/// Whether `r` and the provider's record `after` are what taking on the provider answers
/// on the record `before`: the first failed account check, else the governance program's
/// refusal, both leaving the record as it was; else a new record tying the provider to the
/// governance, and one more governance served.
pub open spec fn is_add_provider_outcome(
    r: Result<GovernanceProvider, DaoError>,
    a: AddRegisteredProviderToGovernance,
    program_id: Seq<u8>,
    before: ValidatorProvider,
    after: ValidatorProvider,
    now: i64,
) -> bool {
    match add_provider_accounts_failure(a, program_id, before) {
        Some(e) => r == Err::<GovernanceProvider, DaoError>(e) && after == before,
        None => match add_provider_governance_check(a) {
            Err(code) => r == Err::<GovernanceProvider, DaoError>(DaoError::Program(code)) && after == before,
            Ok(_) => {
                &&& r matches Ok(gp) && is_new_governance_provider(gp, a.governance_ai.key@, a.provider_data@, before.owner@, now)
                &&& after == (ValidatorProvider {
                    serving_governance_count: (before.serving_governance_count + 1) as u32,
                    ..before
                })
            },
        },
    }
}

/// A governance takes on a registered provider at time `now`; returns the new record that
/// ties them, and counts one more governance served by the provider.
pub fn add_registered_provider_to_governance(
    accounts: &AddRegisteredProviderToGovernance,
    program_id: &Address,
    provider: &mut ValidatorProvider,
    now: i64,
) -> (r: Result<GovernanceProvider, DaoError>)
    requires
        add_provider_accounts_failure(*accounts, program_id@, *old(provider)) is None
            ==> add_provider_requirements(*accounts, *old(provider)),
    ensures
        is_add_provider_outcome(r, *accounts, program_id@, *old(provider), *final(provider), now),
{
    accounts.validate(program_id, provider)?;
    processors::add_registered_provider_to_governance::process(accounts, provider, now)
}

/// Whether `r` and the record `after` are what taking on the provider answers on any
/// accounts and record `before`: `None`, with the record unchanged, exactly where the
/// accounts pass their checks but the requirements fail; else its outcome.
pub open spec fn is_checked_add_provider_outcome(
    r: Option<Result<GovernanceProvider, DaoError>>,
    a: AddRegisteredProviderToGovernance,
    program_id: Seq<u8>,
    before: ValidatorProvider,
    after: ValidatorProvider,
    now: i64,
) -> bool {
    let aborts = add_provider_accounts_failure(a, program_id, before) is None && !add_provider_requirements(a, before);
    match r {
        None => aborts && after == before,
        Some(x) => !aborts && is_add_provider_outcome(x, a, program_id, before, after, now),
    }
}

/// Taking on a provider on any accounts and record: `None`, with the record unchanged, where
/// the instruction aborts (the governance passes its check but the signer is not its native
/// treasury, or the provider's count of governances served is full).
pub fn checked_add_registered_provider_to_governance(
    accounts: &AddRegisteredProviderToGovernance,
    program_id: &Address,
    provider: &mut ValidatorProvider,
    now: i64,
) -> (r: Option<Result<GovernanceProvider, DaoError>>)
    ensures
        is_checked_add_provider_outcome(r, *accounts, program_id@, *old(provider), *final(provider), now),
{
    if let Err(e) = accounts.validate(program_id, provider) {
        return Some(Err(e));
    }
    if !add_provider_requirements_hold(accounts, provider) {
        return None;
    }
    Some(add_registered_provider_to_governance(accounts, program_id, provider, now))
}

/// Whether `r` and the governance's record of the provider `after` are what creating a
/// contract answers on the record `before`: the first failed account check, else an unknown
/// periodicity, else the governance program's refusal, all leaving the record as it was;
/// else the new contract, counted in the record.
pub open spec fn is_create_contract_outcome(
    r: Result<GovernanceContract, DaoError>,
    a: CreateGovernanceContract,
    program_id: Seq<u8>,
    provider: ValidatorProvider,
    before: GovernanceProvider,
    after: GovernanceProvider,
    services: u64,
    start: u64,
    initial_amount: u64,
    recurring_amount: u64,
    periodicity: u8,
    number_of_periods: u32,
) -> bool {
    match create_contract_accounts_failure(a, program_id, provider) {
        Some(e) => r == Err::<GovernanceContract, DaoError>(e) && after == before,
        None => if periodicity_of_byte(periodicity) == PaymentPeriodicity::Unknown {
            r == Err::<GovernanceContract, DaoError>(DaoError::Dao(ValidatorDaoErrors::UnknownPeriodicity)) && after == before
        } else {
            match create_contract_governance_check(a) {
                Err(code) => r == Err::<GovernanceContract, DaoError>(DaoError::Program(code)) && after == before,
                Ok(_) => {
                    &&& r matches Ok(c) && is_new_contract(
                        c,
                        a,
                        provider.owner@,
                        services,
                        start,
                        initial_amount,
                        recurring_amount,
                        periodicity_of_byte(periodicity),
                        number_of_periods,
                    )
                    &&& after == (GovernanceProvider { contract_count: (before.contract_count + 1) as u32, ..before })
                },
            }
        },
    }
}

/// Creates a contract between a governance and one of its providers; `periodicity` is the
/// byte of a `PaymentPeriodicity`. Returns the new contract and counts it in the record that
/// ties the provider to the governance. The contract seed and the asked end play no part.
pub fn create_governance_contract(
    accounts: &CreateGovernanceContract,
    program_id: &Address,
    provider: &ValidatorProvider,
    governance_provider: &mut GovernanceProvider,
    _contract_seed: u64,
    services: u64,
    contract_start_unix_timestamp: u64,
    contract_end_unix_timestamp: u64,
    initial_amount: u64,
    recurring_amount: u64,
    periodicity: u8,
    number_of_periods: u32,
) -> (r: Result<GovernanceContract, DaoError>)
    requires
        create_contract_accounts_failure(*accounts, program_id@, *provider) is None ==> create_contract_requirements(
            *accounts,
            *old(governance_provider),
            contract_start_unix_timestamp,
            periodicity_of_byte(periodicity),
            number_of_periods,
        ),
    ensures
        is_create_contract_outcome(
            r,
            *accounts,
            program_id@,
            *provider,
            *old(governance_provider),
            *final(governance_provider),
            services,
            contract_start_unix_timestamp,
            initial_amount,
            recurring_amount,
            periodicity,
            number_of_periods,
        ),
{
    accounts.validate(program_id, provider)?;
    processors::create_governance_contract::process(
        accounts,
        provider,
        governance_provider,
        services,
        contract_start_unix_timestamp,
        contract_end_unix_timestamp,
        initial_amount,
        recurring_amount,
        PaymentPeriodicity::from(periodicity),
        number_of_periods,
    )
}

/// Whether `r` and the record `after` are what creating a contract answers on any accounts,
/// arguments and record `before`: `None`, with the record unchanged, exactly where the
/// accounts pass their checks but the requirements fail; else its outcome.
pub open spec fn is_checked_create_contract_outcome(
    r: Option<Result<GovernanceContract, DaoError>>,
    a: CreateGovernanceContract,
    program_id: Seq<u8>,
    provider: ValidatorProvider,
    before: GovernanceProvider,
    after: GovernanceProvider,
    services: u64,
    start: u64,
    initial_amount: u64,
    recurring_amount: u64,
    periodicity: u8,
    number_of_periods: u32,
) -> bool {
    let aborts = create_contract_accounts_failure(a, program_id, provider) is None
        && !create_contract_requirements(a, before, start, periodicity_of_byte(periodicity), number_of_periods);
    match r {
        None => aborts && after == before,
        Some(x) => !aborts && is_create_contract_outcome(
            x,
            a,
            program_id,
            provider,
            before,
            after,
            services,
            start,
            initial_amount,
            recurring_amount,
            periodicity,
            number_of_periods,
        ),
    }
}

/// Creating a contract on any accounts and arguments: `None`, with the record unchanged,
/// where the instruction aborts (the periodicity is known and the governance passes its
/// check, but the contract's end overflows a `u64` or the count of contracts is full).
pub fn checked_create_governance_contract(
    accounts: &CreateGovernanceContract,
    program_id: &Address,
    provider: &ValidatorProvider,
    governance_provider: &mut GovernanceProvider,
    contract_seed: u64,
    services: u64,
    contract_start_unix_timestamp: u64,
    contract_end_unix_timestamp: u64,
    initial_amount: u64,
    recurring_amount: u64,
    periodicity: u8,
    number_of_periods: u32,
) -> (r: Option<Result<GovernanceContract, DaoError>>)
    ensures
        is_checked_create_contract_outcome(
            r,
            *accounts,
            program_id@,
            *provider,
            *old(governance_provider),
            *final(governance_provider),
            services,
            contract_start_unix_timestamp,
            initial_amount,
            recurring_amount,
            periodicity,
            number_of_periods,
        ),
{
    if let Err(e) = accounts.validate(program_id, provider) {
        return Some(Err(e));
    }
    let kind = PaymentPeriodicity::from(periodicity);
    if !create_contract_requirements_hold(accounts, governance_provider, contract_start_unix_timestamp, kind, number_of_periods) {
        return None;
    }
    Some(create_governance_contract(
        accounts,
        program_id,
        provider,
        governance_provider,
        contract_seed,
        services,
        contract_start_unix_timestamp,
        contract_end_unix_timestamp,
        initial_amount,
        recurring_amount,
        periodicity,
        number_of_periods,
    ))
}

/// Executes a contract at time `now`; returns the payment of its initial amount.
pub fn execute_governance_contract(
    accounts: &ExecuteContract,
    contract: &mut GovernanceContract,
    now: i64,
) -> (r: Result<TokenTransfer, DaoError>)
    ensures
        is_execute_outcome(r, *accounts, *old(contract), *final(contract), now),
{
    processors::execute_contract::process(accounts, contract, now)
}

} // verus!
