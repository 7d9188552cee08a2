//! Executing a contract: marking it executed and paying its initial amount.
use vstd::prelude::*;
use crate::address::Address;
use crate::errors::{DaoError, ValidatorDaoErrors};
use crate::governance::{assert_is_valid_governance, governance_check};
use crate::ids::{governance_program_id, governance_program_key};
use crate::instructions::ExecuteContract;
use crate::states::GovernanceContract;

verus! {

/// A token transfer of `amount` from `from` to `to`, signed by `authority`.
#[derive(Clone, Copy, Debug)]
pub struct TokenTransfer {
    pub from: Address,
    pub to: Address,
    pub authority: Address,
    pub amount: u64,
}

/// The governance check of the governance named by these accounts.
pub open spec fn execute_governance_check(a: ExecuteContract) -> Result<(), u64> {
    governance_check(governance_program_key(), a.governance_ai.owner@, a.governance_ai.data@)
}

/// Whether the contract has started at `now`, read as an unsigned number of seconds.
pub open spec fn has_started(c: GovernanceContract, now: i64) -> bool {
    c.contract_start_timestamp <= now as u64
}

/// The first check of the execution that fails, if any: the governance check, then the
/// contract's start, then the provider's signature.
pub open spec fn execute_failure(a: ExecuteContract, c: GovernanceContract, now: i64) -> Option<DaoError> {
    if execute_governance_check(a) is Err {
        Some(DaoError::Program(execute_governance_check(a)->Err_0))
    } else if !has_started(c, now) {
        Some(DaoError::Dao(ValidatorDaoErrors::ContractNotYetStarted))
    } else if !c.has_signed_by_provider {
        Some(DaoError::Dao(ValidatorDaoErrors::ContractNotSignedByProvider))
    } else {
        None
    }
}

/// Whether `t` pays the contract's initial amount from the governance's token account to the
/// provider's, signed by the accounts' token authority.
pub open spec fn is_initial_payment(t: TokenTransfer, a: ExecuteContract, c: GovernanceContract) -> bool {
    &&& t.from@ == a.token_account@
    &&& t.to@ == a.providers_token_account@
    &&& t.authority@ == a.token_authority@
    &&& t.amount == c.initial_amount_paid
}

/// Whether `r` and the contract `after` are what executing the contract `before` at `now`
/// answers: the first failed check, leaving the contract as it was; else the payment of the
/// initial amount, with the contract marked executed.
pub open spec fn is_execute_outcome(
    r: Result<TokenTransfer, DaoError>,
    a: ExecuteContract,
    before: GovernanceContract,
    after: GovernanceContract,
    now: i64,
) -> bool {
    match execute_failure(a, before, now) {
        Some(e) => r == Err::<TokenTransfer, DaoError>(e) && after == before,
        None => r matches Ok(t) && is_initial_payment(t, a, before)
            && after == (GovernanceContract { executed: true, ..before }),
    }
}

/// Executes the contract at time `now` (the clock's Unix timestamp): the governance must
/// pass the governance program's check, the contract must have started and the provider must
/// have signed. The contract is then marked executed and its initial amount is to be paid
/// from the governance's token account to the provider's. A failed execution leaves the
/// contract as it was.
pub fn process(accounts: &ExecuteContract, contract: &mut GovernanceContract, now: i64) -> (r: Result<TokenTransfer, DaoError>)
    ensures
        is_execute_outcome(r, *accounts, *old(contract), *final(contract), now),
{
    match assert_is_valid_governance(&governance_program_id(), &accounts.governance_ai) {
        Err(code) => return Err(DaoError::Program(code)),
        Ok(()) => {},
    }
    if (now as u64) < contract.contract_start_timestamp {
        return Err(DaoError::Dao(ValidatorDaoErrors::ContractNotYetStarted));
    }
    if !contract.has_signed_by_provider {
        return Err(DaoError::Dao(ValidatorDaoErrors::ContractNotSignedByProvider));
    }
    contract.executed = true;
    Ok(TokenTransfer {
        from: accounts.token_account,
        to: accounts.providers_token_account,
        authority: accounts.token_authority,
        amount: contract.initial_amount_paid,
    })
}

} // verus!
