//! Creating a contract between a governance and one of its providers.
use vstd::prelude::*;
use crate::errors::{DaoError, ValidatorDaoErrors};
use crate::governance::{assert_is_valid_governance, governance_check};
use crate::ids::{governance_program_id, governance_program_key};
use crate::instructions::CreateGovernanceContract;
use crate::periodicity::{period_seconds, PaymentPeriodicity};
use crate::states::{fresh_header, is_fresh_header, zeroed_reserve, zeros, Datatype, GovernanceContract, GovernanceProvider, ValidatorProvider};

verus! {

/// Whether `c` is the contract just created with these accounts for the provider owned by
/// `provider_owner`: it runs from `start` for `number_of_periods` periods, nothing of the
/// recurring amount is paid yet, it is not executed, and it counts as signed by the
/// provider exactly when the provider's owner created it.
pub open spec fn is_new_contract(
    c: GovernanceContract,
    a: CreateGovernanceContract,
    provider_owner: Seq<u8>,
    services: u64,
    start: u64,
    initial_amount: u64,
    recurring_amount: u64,
    periodicity: PaymentPeriodicity,
    number_of_periods: u32,
) -> bool {
    &&& is_fresh_header(c.meta_data, Datatype::Contract)
    &&& c.governance_id@ == a.governance_ai.key@
    &&& c.contract_creator@ == a.payer.key@
    &&& c.validator_provider@ == a.provider_data@
    &&& c.validator_provider_owner@ == provider_owner
    &&& c.provider_token_account@ == a.providers_token_account@
    &&& c.services_to_be_provided == services
    &&& c.contract_start_timestamp == start
    &&& c.contract_end_timestamp == start + period_seconds(periodicity) * number_of_periods
    &&& c.initial_amount_paid == initial_amount
    &&& c.recurring_amount_to_be_paid == recurring_amount
    &&& c.recurring_amount_already_paid == 0
    &&& c.periodicity == periodicity
    &&& c.number_of_periods == number_of_periods
    &&& c.payment_mint@ == a.payment_mint@
    &&& c.dao_payment_account@ == a.token_account@
    &&& c.has_signed_by_provider == (a.payer.key@ == provider_owner)
    &&& !c.executed
    &&& c.reserved@ == zeros(256)
}

/// The governance check of the governance named by these accounts.
pub open spec fn create_contract_governance_check(a: CreateGovernanceContract) -> Result<(), u64> {
    governance_check(governance_program_key(), a.governance_ai.owner@, a.governance_ai.data@)
}

/// What creating the contract needs to go through: once the periodicity is known and the
/// governance passes the governance program's check, the contract's end fits in a `u64` and
/// the count of contracts can grow. On any other input the instruction aborts.
pub open spec fn create_contract_requirements(
    a: CreateGovernanceContract,
    governance_provider: GovernanceProvider,
    start: u64,
    periodicity: PaymentPeriodicity,
    number_of_periods: u32,
) -> bool {
    periodicity != PaymentPeriodicity::Unknown && create_contract_governance_check(a) is Ok ==> {
        &&& start + period_seconds(periodicity) * number_of_periods <= u64::MAX
        &&& governance_provider.contract_count < u32::MAX
    }
}

/// Tests whether creating the contract can go through, so that a caller can abort where it
/// cannot.
pub fn create_contract_requirements_hold(
    accounts: &CreateGovernanceContract,
    governance_provider: &GovernanceProvider,
    start: u64,
    periodicity: PaymentPeriodicity,
    number_of_periods: u32,
) -> (r: bool)
    ensures
        r == create_contract_requirements(*accounts, *governance_provider, start, periodicity, number_of_periods),
{
    if periodicity == PaymentPeriodicity::Unknown {
        return true;
    }
    if assert_is_valid_governance(&governance_program_id(), &accounts.governance_ai).is_err() {
        return true;
    }
    start.checked_add(periodicity.to_secs(number_of_periods)).is_some()
        && governance_provider.contract_count < u32::MAX
}

/// Whether `r` and the governance's record of the provider `after` are what creating the
/// contract answers on the record `before`: an unknown periodicity, else the governance
/// program's refusal, both leaving the record as it was; else the new contract, counted in
/// the record.
pub open spec fn is_create_process_outcome(
    r: Result<GovernanceContract, DaoError>,
    a: CreateGovernanceContract,
    provider: ValidatorProvider,
    before: GovernanceProvider,
    after: GovernanceProvider,
    services: u64,
    start: u64,
    initial_amount: u64,
    recurring_amount: u64,
    periodicity: PaymentPeriodicity,
    number_of_periods: u32,
) -> bool {
    if periodicity == PaymentPeriodicity::Unknown {
        r == Err::<GovernanceContract, DaoError>(DaoError::Dao(ValidatorDaoErrors::UnknownPeriodicity)) && after == before
    } else {
        match create_contract_governance_check(a) {
            Err(code) => r == Err::<GovernanceContract, DaoError>(DaoError::Program(code)) && after == before,
            Ok(_) => {
                &&& r matches Ok(c) && is_new_contract(
                    c,
                    a,
                    provider.owner@,
                    services,
                    start,
                    initial_amount,
                    recurring_amount,
                    periodicity,
                    number_of_periods,
                )
                &&& after == (GovernanceProvider { contract_count: (before.contract_count + 1) as u32, ..before })
            },
        }
    }
}

/// Creates a contract for the provider: the periodicity must be known and the governance
/// must pass the governance program's check. The contract ends `number_of_periods` periods
/// after its start, whatever end was asked for, and the governance's record of the provider
/// counts one more contract.
pub fn process(
    accounts: &CreateGovernanceContract,
    provider: &ValidatorProvider,
    governance_provider: &mut GovernanceProvider,
    services: u64,
    contract_start_unix_timestamp: u64,
    contract_end_unix_timestamp: u64,
    initial_amount: u64,
    recurring_amount: u64,
    periodicity: PaymentPeriodicity,
    number_of_periods: u32,
) -> (r: Result<GovernanceContract, DaoError>)
    requires
        create_contract_requirements(
            *accounts,
            *old(governance_provider),
            contract_start_unix_timestamp,
            periodicity,
            number_of_periods,
        ),
    ensures
        is_create_process_outcome(
            r,
            *accounts,
            *provider,
            *old(governance_provider),
            *final(governance_provider),
            services,
            contract_start_unix_timestamp,
            initial_amount,
            recurring_amount,
            periodicity,
            number_of_periods,
        ),
{
    if periodicity == PaymentPeriodicity::Unknown {
        return Err(DaoError::Dao(ValidatorDaoErrors::UnknownPeriodicity));
    }
    match assert_is_valid_governance(&governance_program_id(), &accounts.governance_ai) {
        Err(code) => return Err(DaoError::Program(code)),
        Ok(()) => {},
    }
    let contract_end_timestamp = contract_start_unix_timestamp + periodicity.to_secs(number_of_periods);
    let has_signed_by_provider = accounts.payer.key.same(&provider.owner);
    let contract = GovernanceContract {
        meta_data: fresh_header(Datatype::Contract),
        governance_id: accounts.governance_ai.key,
        contract_creator: accounts.payer.key,
        validator_provider: accounts.provider_data,
        validator_provider_owner: provider.owner,
        provider_token_account: accounts.providers_token_account,
        services_to_be_provided: services,
        contract_start_timestamp: contract_start_unix_timestamp,
        contract_end_timestamp,
        initial_amount_paid: initial_amount,
        recurring_amount_to_be_paid: recurring_amount,
        recurring_amount_already_paid: 0,
        periodicity,
        number_of_periods,
        payment_mint: accounts.payment_mint,
        dao_payment_account: accounts.token_account,
        has_signed_by_provider,
        executed: false,
        reserved: zeroed_reserve(),
    };
    governance_provider.contract_count = governance_provider.contract_count + 1;
    Ok(contract)
}

} // verus!
