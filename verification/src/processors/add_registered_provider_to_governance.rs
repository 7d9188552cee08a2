//! A governance taking on a registered provider.
use vstd::prelude::*;
use crate::errors::DaoError;
use crate::governance::{assert_is_valid_governance, governance_check, is_native_treasury, is_native_treasury_of};
use crate::ids::{governance_program_id, governance_program_key};
use crate::instructions::AddRegisteredProviderToGovernance;
use crate::states::{GovernanceProvider, ValidatorProvider};

verus! {

/// Whether `gp` is the record of a provider just taken on by `governance` at time `now`.
pub open spec fn is_new_governance_provider(
    gp: GovernanceProvider,
    governance: Seq<u8>,
    provider_data: Seq<u8>,
    provider_owner: Seq<u8>,
    now: i64,
) -> bool {
    &&& gp.governance_id@ == governance
    &&& gp.validator_provider@ == provider_data
    &&& gp.validator_provider_owner@ == provider_owner
    &&& gp.added_timestamp == now as u64
    &&& gp.contract_count == 0
}

/// The governance check of the governance named by these accounts.
pub open spec fn add_provider_governance_check(a: AddRegisteredProviderToGovernance) -> Result<(), u64> {
    governance_check(governance_program_key(), a.governance_ai.owner@, a.governance_ai.data@)
}

/// What taking on the provider needs to go through: once the governance passes the
/// governance program's check, the signing treasury is the governance's native treasury and
/// the provider's count of governances served can grow. On any other input the instruction
/// aborts.
pub open spec fn add_provider_requirements(a: AddRegisteredProviderToGovernance, provider: ValidatorProvider) -> bool {
    add_provider_governance_check(a) is Ok ==> {
        &&& is_native_treasury(a.governance_native_treasury.key@, governance_program_key(), a.governance_ai.key@)
        &&& provider.serving_governance_count < u32::MAX
    }
}

/// Tests whether taking on the provider can go through, so that a caller can abort where it
/// cannot.
pub fn add_provider_requirements_hold(accounts: &AddRegisteredProviderToGovernance, provider: &ValidatorProvider) -> (r: bool)
    ensures
        r == add_provider_requirements(*accounts, *provider),
{
    let governance_program = governance_program_id();
    if assert_is_valid_governance(&governance_program, &accounts.governance_ai).is_err() {
        return true;
    }
    is_native_treasury_of(&accounts.governance_native_treasury.key, &governance_program, &accounts.governance_ai.key)
        && provider.serving_governance_count < u32::MAX
}

/// Whether `r` and the provider's record `after` are what taking on the provider answers on
/// the record `before`: the governance program's refusal, leaving the record as it was; else
/// a new record tying the provider to the governance, and one more governance served.
pub open spec fn is_add_process_outcome(
    r: Result<GovernanceProvider, DaoError>,
    a: AddRegisteredProviderToGovernance,
    before: ValidatorProvider,
    after: ValidatorProvider,
    now: i64,
) -> bool {
    match add_provider_governance_check(a) {
        Err(code) => r == Err::<GovernanceProvider, DaoError>(DaoError::Program(code)) && after == before,
        Ok(_) => {
            &&& r matches Ok(gp) && is_new_governance_provider(gp, a.governance_ai.key@, a.provider_data@, before.owner@, now)
            &&& after == (ValidatorProvider {
                serving_governance_count: (before.serving_governance_count + 1) as u32,
                ..before
            })
        },
    }
}

/// The governance takes on the provider at time `now` (the clock's Unix timestamp): the
/// governance must pass the governance program's check; then a new record ties them and the
/// provider serves one more governance.
pub fn process(
    accounts: &AddRegisteredProviderToGovernance,
    provider: &mut ValidatorProvider,
    now: i64,
) -> (r: Result<GovernanceProvider, DaoError>)
    requires
        add_provider_requirements(*accounts, *old(provider)),
    ensures
        is_add_process_outcome(r, *accounts, *old(provider), *final(provider), now),
{
    let governance_program = governance_program_id();
    match assert_is_valid_governance(&governance_program, &accounts.governance_ai) {
        Err(code) => return Err(DaoError::Program(code)),
        Ok(()) => {},
    }
    let governance_provider_data = GovernanceProvider {
        governance_id: accounts.governance_ai.key,
        validator_provider: accounts.provider_data,
        validator_provider_owner: provider.owner,
        added_timestamp: now as u64,
        contract_count: 0,
    };
    provider.serving_governance_count = provider.serving_governance_count + 1;
    Ok(governance_provider_data)
}

} // verus!
