//! The accounts that each instruction takes, and the checks that they declare.
//!
//! An instruction's accounts are checked in two passes: first each account in declaration
//! order is checked for its kind (a signer, a given program, a given sysvar); then the
//! accounts that the instruction creates are checked against their seeds, and finally the
//! declared constraints of the other accounts, again in declaration order.
use vstd::prelude::*;
use crate::address::Address;
use crate::errors::{AccountField, DaoError};
use crate::governance::AccountSnapshot;
use crate::ids::{
    clock_sysvar_id, clock_sysvar_key, governance_program_id, governance_program_key,
    rent_sysvar_id, rent_sysvar_key, stake_history_sysvar_id, stake_history_sysvar_key,
    system_program_id, system_program_key,
};
use crate::pda::{
    derived_address, find_governance_contract, find_governance_provider, find_stake_account,
    find_validator_provider, found_view, governance_contract_seeds, governance_provider_seeds,
    stake_account_seeds, validator_provider_seeds,
};
use crate::states::ValidatorProvider;

verus! {

/// An account that may have signed the transaction.
#[derive(Clone, Copy, Debug)]
pub struct SignerAccount {
    pub key: Address,
    pub is_signer: bool,
}

/// `Ok` where no check failed, else the error of the first check that did.
pub open spec fn outcome(first_failure: Option<DaoError>) -> Result<(), DaoError> {
    match first_failure {
        Some(e) => Err(e),
        None => Ok(()),
    }
}

/// How a seeds check fails, if it does: no address can be derived, or the account is not
/// the derived address.
pub open spec fn seeds_failure(found: Option<(Seq<u8>, u8)>, key: Seq<u8>, field: AccountField) -> Option<DaoError> {
    match found {
        None => Some(DaoError::NoViableBump(field)),
        Some(p) => if p.0 != key {
            Some(DaoError::ConstraintSeeds(field))
        } else {
            None
        },
    }
}

fn check_seeds(found: Option<(Address, u8)>, key: &Address, field: AccountField) -> (r: Result<(), DaoError>)
    ensures
        r == outcome(seeds_failure(found_view(found), key@, field)),
{
    match found {
        None => Err(DaoError::NoViableBump(field)),
        Some(p) => if p.0.same(key) {
            Ok(())
        } else {
            Err(DaoError::ConstraintSeeds(field))
        },
    }
}

/// Accounts of the instruction that creates a stake account for a governance's native
/// treasury and delegates it to a validator.
#[derive(Clone, Debug)]
pub struct InitalizeDAOStakeAccount {
    /// The governance.
    pub governance_id: AccountSnapshot,
    /// The governance's native treasury, which pays for and controls the stake.
    pub governance_native_treasury_account: SignerAccount,
    /// The stake account, derived from the governance, its treasury, the governance
    /// program, the vote account and a seed.
    pub dao_stake_account: Address,
    pub payer: SignerAccount,
    /// The validator's vote account.
    pub validator_vote_key: Address,
    pub stake_config: Address,
    pub governance_program: Address,
    pub stake_program: Address,
    pub system_program: Address,
    pub rent_program: Address,
    pub clock_program: Address,
    pub stake_history: Address,
}

/// The first declared check that the stake instruction's accounts fail, if any.
pub open spec fn stake_accounts_failure(a: InitalizeDAOStakeAccount, program_id: Seq<u8>, seed: u8) -> Option<DaoError> {
    if !a.governance_native_treasury_account.is_signer {
        Some(DaoError::NotSigner(AccountField::GovernanceNativeTreasuryAccount))
    } else if !a.payer.is_signer {
        Some(DaoError::NotSigner(AccountField::Payer))
    } else if a.system_program@ != system_program_key() {
        Some(DaoError::InvalidProgramId(AccountField::SystemProgram))
    } else if a.rent_program@ != rent_sysvar_key() {
        Some(DaoError::SysvarMismatch(AccountField::RentProgram))
    } else if a.clock_program@ != clock_sysvar_key() {
        Some(DaoError::SysvarMismatch(AccountField::ClockProgram))
    } else if a.stake_history@ != stake_history_sysvar_key() {
        Some(DaoError::SysvarMismatch(AccountField::StakeHistory))
    } else {
        seeds_failure(
            derived_address(
                stake_account_seeds(
                    a.governance_id.key@,
                    a.governance_native_treasury_account.key@,
                    a.governance_program@,
                    a.validator_vote_key@,
                    seed,
                ),
                program_id,
            ),
            a.dao_stake_account@,
            AccountField::DaoStakeAccount,
        )
    }
}

impl InitalizeDAOStakeAccount {
    /// Runs the checks that the accounts declare.
    pub fn validate(&self, program_id: &Address, seed: u8) -> (r: Result<(), DaoError>)
        ensures
            r == outcome(stake_accounts_failure(*self, program_id@, seed)),
    {
        if !self.governance_native_treasury_account.is_signer {
            return Err(DaoError::NotSigner(AccountField::GovernanceNativeTreasuryAccount));
        }
        if !self.payer.is_signer {
            return Err(DaoError::NotSigner(AccountField::Payer));
        }
        if !self.system_program.same(&system_program_id()) {
            return Err(DaoError::InvalidProgramId(AccountField::SystemProgram));
        }
        if !self.rent_program.same(&rent_sysvar_id()) {
            return Err(DaoError::SysvarMismatch(AccountField::RentProgram));
        }
        if !self.clock_program.same(&clock_sysvar_id()) {
            return Err(DaoError::SysvarMismatch(AccountField::ClockProgram));
        }
        if !self.stake_history.same(&stake_history_sysvar_id()) {
            return Err(DaoError::SysvarMismatch(AccountField::StakeHistory));
        }
        let found = find_stake_account(
            &self.governance_id.key,
            &self.governance_native_treasury_account.key,
            &self.governance_program,
            &self.validator_vote_key,
            seed,
            program_id,
        );
        check_seeds(found, &self.dao_stake_account, AccountField::DaoStakeAccount)
    }
}

/// Accounts of the instruction that registers a validator service provider.
#[derive(Clone, Copy, Debug)]
pub struct RegisterValidatorServiceProvider {
    /// The provider's owner, who pays for the record.
    pub owner: SignerAccount,
    /// The provider's record, derived from the owner.
    pub provider_data: Address,
    /// The mint the provider is paid in.
    pub payment_mint: Address,
    pub system_program: Address,
}

/// The first declared check that the registration's accounts fail, if any.
pub open spec fn register_accounts_failure(a: RegisterValidatorServiceProvider, program_id: Seq<u8>) -> Option<DaoError> {
    if !a.owner.is_signer {
        Some(DaoError::NotSigner(AccountField::Owner))
    } else if a.system_program@ != system_program_key() {
        Some(DaoError::InvalidProgramId(AccountField::SystemProgram))
    } else {
        seeds_failure(
            derived_address(validator_provider_seeds(a.owner.key@), program_id),
            a.provider_data@,
            AccountField::ProviderData,
        )
    }
}

impl RegisterValidatorServiceProvider {
    /// Runs the checks that the accounts declare.
    pub fn validate(&self, program_id: &Address) -> (r: Result<(), DaoError>)
        ensures
            r == outcome(register_accounts_failure(*self, program_id@)),
    {
        if !self.owner.is_signer {
            return Err(DaoError::NotSigner(AccountField::Owner));
        }
        if !self.system_program.same(&system_program_id()) {
            return Err(DaoError::InvalidProgramId(AccountField::SystemProgram));
        }
        let found = find_validator_provider(&self.owner.key, program_id);
        check_seeds(found, &self.provider_data, AccountField::ProviderData)
    }
}

/// Accounts of the instruction by which a governance takes on a registered provider.
#[derive(Clone, Debug)]
pub struct AddRegisteredProviderToGovernance {
    /// The governance; it must be owned by the governance program.
    pub governance_ai: AccountSnapshot,
    /// The governance's native treasury, which pays for the new record.
    pub governance_native_treasury: SignerAccount,
    /// The provider's record.
    pub provider_data: Address,
    /// The new record, derived from the governance and the provider's record.
    pub governance_provider_data: Address,
    pub system_program: Address,
    pub clock: Address,
}

/// The first declared check that these accounts fail, if any. The provider record's own
/// `owner` field must be the program's address.
pub open spec fn add_provider_accounts_failure(
    a: AddRegisteredProviderToGovernance,
    program_id: Seq<u8>,
    provider: ValidatorProvider,
) -> Option<DaoError> {
    if !a.governance_native_treasury.is_signer {
        Some(DaoError::NotSigner(AccountField::GovernanceNativeTreasury))
    } else if a.system_program@ != system_program_key() {
        Some(DaoError::InvalidProgramId(AccountField::SystemProgram))
    } else if a.clock@ != clock_sysvar_key() {
        Some(DaoError::SysvarMismatch(AccountField::Clock))
    } else if seeds_failure(
        derived_address(governance_provider_seeds(a.governance_ai.key@, a.provider_data@), program_id),
        a.governance_provider_data@,
        AccountField::GovernanceProviderData,
    ) is Some {
        seeds_failure(
            derived_address(governance_provider_seeds(a.governance_ai.key@, a.provider_data@), program_id),
            a.governance_provider_data@,
            AccountField::GovernanceProviderData,
        )
    } else if a.governance_ai.owner@ != governance_program_key() {
        Some(DaoError::ConstraintRaw(AccountField::GovernanceAi))
    } else if provider.owner@ != program_id {
        Some(DaoError::ConstraintRaw(AccountField::ProviderData))
    } else {
        None
    }
}

impl AddRegisteredProviderToGovernance {
    /// Runs the checks that the accounts declare.
    pub fn validate(&self, program_id: &Address, provider: &ValidatorProvider) -> (r: Result<(), DaoError>)
        ensures
            r == outcome(add_provider_accounts_failure(*self, program_id@, *provider)),
    {
        if !self.governance_native_treasury.is_signer {
            return Err(DaoError::NotSigner(AccountField::GovernanceNativeTreasury));
        }
        if !self.system_program.same(&system_program_id()) {
            return Err(DaoError::InvalidProgramId(AccountField::SystemProgram));
        }
        if !self.clock.same(&clock_sysvar_id()) {
            return Err(DaoError::SysvarMismatch(AccountField::Clock));
        }
        let found = find_governance_provider(&self.governance_ai.key, &self.provider_data, program_id);
        check_seeds(found, &self.governance_provider_data, AccountField::GovernanceProviderData)?;
        if !self.governance_ai.owner.same(&governance_program_id()) {
            return Err(DaoError::ConstraintRaw(AccountField::GovernanceAi));
        }
        if !provider.owner.same(program_id) {
            return Err(DaoError::ConstraintRaw(AccountField::ProviderData));
        }
        Ok(())
    }
}

/// Accounts of the instruction that creates a contract between a governance and one of its
/// providers.
#[derive(Clone, Debug)]
pub struct CreateGovernanceContract {
    /// The governance; it must be owned by the governance program.
    pub governance_ai: AccountSnapshot,
    /// The provider's record.
    pub provider_data: Address,
    /// The record that ties the provider to the governance.
    pub governance_provider_data: Address,
    /// The program that owns that record; it must be this program.
    pub governance_provider_data_owner: Address,
    /// The new contract, derived from the governance, the provider and their record.
    pub governance_contract: Address,
    /// The mint payments are made in.
    pub payment_mint: Address,
    /// The governance's token account that pays.
    pub token_account: Address,
    /// The mint of that token account; it must be the payment mint.
    pub token_account_mint: Address,
    /// The provider's token account that is paid.
    pub providers_token_account: Address,
    pub payer: SignerAccount,
    pub system_program: Address,
}

/// The first declared check that these accounts fail, if any. The provider record's own
/// `owner` field must be the program's address.
pub open spec fn create_contract_accounts_failure(
    a: CreateGovernanceContract,
    program_id: Seq<u8>,
    provider: ValidatorProvider,
) -> Option<DaoError> {
    let contract_seeds = seeds_failure(
        derived_address(
            governance_contract_seeds(a.governance_ai.key@, a.provider_data@, a.governance_provider_data@),
            program_id,
        ),
        a.governance_contract@,
        AccountField::GovernanceContract,
    );
    let provider_seeds = seeds_failure(
        derived_address(governance_provider_seeds(a.governance_ai.key@, a.provider_data@), program_id),
        a.governance_provider_data@,
        AccountField::GovernanceProviderData,
    );
    if !a.payer.is_signer {
        Some(DaoError::NotSigner(AccountField::Payer))
    } else if a.system_program@ != system_program_key() {
        Some(DaoError::InvalidProgramId(AccountField::SystemProgram))
    } else if contract_seeds is Some {
        contract_seeds
    } else if a.governance_ai.owner@ != governance_program_key() {
        Some(DaoError::ConstraintRaw(AccountField::GovernanceAi))
    } else if provider.owner@ != program_id {
        Some(DaoError::ConstraintRaw(AccountField::ProviderData))
    } else if provider_seeds is Some {
        provider_seeds
    } else if a.governance_provider_data_owner@ != program_id {
        Some(DaoError::ConstraintRaw(AccountField::GovernanceProviderData))
    } else if a.token_account_mint@ != a.payment_mint@ {
        Some(DaoError::ConstraintRaw(AccountField::TokenAccount))
    } else {
        None
    }
}

impl CreateGovernanceContract {
    /// Runs the checks that the accounts declare.
    pub fn validate(&self, program_id: &Address, provider: &ValidatorProvider) -> (r: Result<(), DaoError>)
        ensures
            r == outcome(create_contract_accounts_failure(*self, program_id@, *provider)),
    {
        if !self.payer.is_signer {
            return Err(DaoError::NotSigner(AccountField::Payer));
        }
        if !self.system_program.same(&system_program_id()) {
            return Err(DaoError::InvalidProgramId(AccountField::SystemProgram));
        }
        let found = find_governance_contract(
            &self.governance_ai.key,
            &self.provider_data,
            &self.governance_provider_data,
            program_id,
        );
        check_seeds(found, &self.governance_contract, AccountField::GovernanceContract)?;
        if !self.governance_ai.owner.same(&governance_program_id()) {
            return Err(DaoError::ConstraintRaw(AccountField::GovernanceAi));
        }
        if !provider.owner.same(program_id) {
            return Err(DaoError::ConstraintRaw(AccountField::ProviderData));
        }
        let found = find_governance_provider(&self.governance_ai.key, &self.provider_data, program_id);
        check_seeds(found, &self.governance_provider_data, AccountField::GovernanceProviderData)?;
        if !self.governance_provider_data_owner.same(program_id) {
            return Err(DaoError::ConstraintRaw(AccountField::GovernanceProviderData));
        }
        if !self.token_account_mint.same(&self.payment_mint) {
            return Err(DaoError::ConstraintRaw(AccountField::TokenAccount));
        }
        Ok(())
    }
}

/// Accounts of the instruction that executes a contract and pays its initial amount.
#[derive(Clone, Debug)]
pub struct ExecuteContract {
    /// The governance.
    pub governance_ai: AccountSnapshot,
    /// The contract.
    pub governance_contract: Address,
    /// The governance's token account that pays.
    pub token_account: Address,
    /// The provider's token account that is paid.
    pub providers_token_account: Address,
    /// The authority that signs the payment.
    pub token_authority: Address,
    pub token_program: Address,
}

} // verus!
