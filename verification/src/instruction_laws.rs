//! What each instruction answers, stated from its inputs: the accounts it accepts, and the
//! result it gives for every governance that the SPL governance program accepts.
use vstd::prelude::*;
use crate::errors::{DaoError, ValidatorDaoErrors};
use crate::governance::{governance_check, native_treasury_seeds};
use crate::ids::{
    clock_sysvar_key, governance_program_key, rent_sysvar_key, stake_config_key, stake_history_sysvar_key,
    stake_program_key, system_program_key,
};
use crate::instructions::{
    add_provider_accounts_failure, create_contract_accounts_failure, register_accounts_failure,
    stake_accounts_failure, AddRegisteredProviderToGovernance, CreateGovernanceContract, ExecuteContract,
    InitalizeDAOStakeAccount, RegisterValidatorServiceProvider,
};
use crate::pda::{
    derived_address, governance_contract_seeds, governance_provider_seeds, stake_account_seeds,
    validator_provider_seeds,
};
use crate::periodicity::{period_seconds, periodicity_of_byte, PaymentPeriodicity};
use crate::processors::add_registered_provider_to_governance::is_add_process_outcome;
use crate::processors::create_governance_contract::is_create_process_outcome;
use crate::processors::execute_contract::{is_execute_outcome, TokenTransfer};
use crate::processors::process_stake::{is_stake_process_outcome, StakeDelegation};
use crate::processors::register_validator_provider::is_register_process_outcome;
use crate::program::{
    is_add_provider_outcome, is_checked_add_provider_outcome, is_checked_create_contract_outcome,
    is_checked_stake_outcome, is_create_contract_outcome, is_stake_outcome,
};
use crate::states::{GovernanceContract, GovernanceProvider, ValidatorProvider};

verus! {

/// Whether the SPL governance program accepts an account as one of its governances: the
/// account holds data, is owned by the governance program, and its type tag is one of
/// `GovernanceV1` (3), `ProgramGovernanceV1` (4), `MintGovernanceV1` (9),
/// `TokenGovernanceV1` (10), `GovernanceV2` (18), `ProgramGovernanceV2` (19),
/// `MintGovernanceV2` (20) or `TokenGovernanceV2` (21).
pub open spec fn governance_program_accepts(program_id: Seq<u8>, owner: Seq<u8>, data: Seq<u8>) -> bool {
    &&& data.len() > 0
    &&& owner == program_id
    &&& (data[0] == 3 || data[0] == 4 || data[0] == 9 || data[0] == 10 || (18 <= data[0] && data[0] <= 21))
}

/// The governance program's answer is `Ok` on exactly the accounts it accepts.
pub proof fn law_governance_check_accepts_every_governance(program_id: Seq<u8>, owner: Seq<u8>, data: Seq<u8>)
    ensures
        governance_check(program_id, owner, data) is Ok <==> governance_program_accepts(program_id, owner, data),
{
}

/// Whether `d` delegates the stake account named by the accounts: the address derived from
/// the governance, its treasury, the governance program, the vote account and the seed,
/// funded with `lamports` by the signing treasury and delegated to the vote account.
pub open spec fn delegates_named_stake_account(
    d: StakeDelegation,
    a: InitalizeDAOStakeAccount,
    program_id: Seq<u8>,
    seed: u8,
    lamports: u64,
) -> bool {
    &&& d.stake_account@ == a.dao_stake_account@
    &&& derived_address(
        stake_account_seeds(
            a.governance_id.key@,
            a.governance_native_treasury_account.key@,
            a.governance_program@,
            a.validator_vote_key@,
            seed,
        ),
        program_id,
    ) == Some((d.stake_account@, d.bump))
    &&& d.seed == seed
    &&& d.authority@ == a.governance_native_treasury_account.key@
    &&& d.vote_account@ == a.validator_vote_key@
    &&& d.lamports == lamports
}

/// The stake instruction's work goes through for every governance the governance program
/// accepts, delegating the named stake account; it fails only with the governance program's
/// own error.
pub proof fn law_stake_work_for_every_governance(
    r: Result<StakeDelegation, DaoError>,
    a: InitalizeDAOStakeAccount,
    program_id: Seq<u8>,
    seed: u8,
    lamports: u64,
)
    requires
        is_stake_process_outcome(r, a, program_id, seed, lamports),
    ensures
        governance_program_accepts(a.governance_program@, a.governance_id.owner@, a.governance_id.data@)
            ==> (r matches Ok(d) && delegates_named_stake_account(d, a, program_id, seed, lamports)),
        r matches Err(e) ==> e == DaoError::Program(governance_check(a.governance_program@, a.governance_id.owner@, a.governance_id.data@)->Err_0)
            && governance_check(a.governance_program@, a.governance_id.owner@, a.governance_id.data@) is Err,
{
}

/// The stake instruction, once its accounts pass their declared checks, goes through for
/// every governance the governance program accepts; it fails then only with the governance
/// program's own error.
pub proof fn law_stake_for_every_governance(
    r: Result<StakeDelegation, DaoError>,
    a: InitalizeDAOStakeAccount,
    program_id: Seq<u8>,
    seed: u8,
    lamports: u64,
)
    requires
        is_stake_outcome(r, a, program_id, seed, lamports),
        stake_accounts_failure(a, program_id, seed) is None,
    ensures
        governance_program_accepts(a.governance_program@, a.governance_id.owner@, a.governance_id.data@)
            ==> (r matches Ok(d) && delegates_named_stake_account(d, a, program_id, seed, lamports)),
        r matches Err(e) ==> e == DaoError::Program(governance_check(a.governance_program@, a.governance_id.owner@, a.governance_id.data@)->Err_0)
            && governance_check(a.governance_program@, a.governance_id.owner@, a.governance_id.data@) is Err,
{
}

/// The stake instruction's accounts pass their declared checks only if the treasury and the
/// payer signed, the system program and the rent, clock and stake history sysvars are the
/// real ones, and the stake account is the address derived for the governance, treasury,
/// governance program, vote account and seed.
pub proof fn law_stake_accounts(a: InitalizeDAOStakeAccount, program_id: Seq<u8>, seed: u8)
    requires
        stake_accounts_failure(a, program_id, seed) is None,
    ensures
        a.governance_native_treasury_account.is_signer,
        a.payer.is_signer,
        a.system_program@ == system_program_key(),
        a.rent_program@ == rent_sysvar_key(),
        a.clock_program@ == clock_sysvar_key(),
        a.stake_history@ == stake_history_sysvar_key(),
        derived_address(
            stake_account_seeds(
                a.governance_id.key@,
                a.governance_native_treasury_account.key@,
                a.governance_program@,
                a.validator_vote_key@,
                seed,
            ),
            program_id,
        ) matches Some(q) && q.0 == a.dao_stake_account@,
{
}

/// A registration's accounts pass their declared checks only if the owner signed, the system
/// program is the real one, and the provider record is the address derived from the owner.
pub proof fn law_register_accounts(a: RegisterValidatorServiceProvider, program_id: Seq<u8>)
    requires
        register_accounts_failure(a, program_id) is None,
    ensures
        a.owner.is_signer,
        a.system_program@ == system_program_key(),
        derived_address(validator_provider_seeds(a.owner.key@), program_id) matches Some(q) && q.0 == a.provider_data@,
{
}

/// Whether `gp` ties the provider record of the accounts to their governance at `now`.
pub open spec fn ties_provider_to_governance(
    gp: GovernanceProvider,
    a: AddRegisteredProviderToGovernance,
    provider_owner: Seq<u8>,
    now: i64,
) -> bool {
    &&& gp.governance_id@ == a.governance_ai.key@
    &&& gp.validator_provider@ == a.provider_data@
    &&& gp.validator_provider_owner@ == provider_owner
    &&& gp.added_timestamp == now as u64
    &&& gp.contract_count == 0
}

/// Taking on a provider goes through for every governance the governance program accepts:
/// a new record ties them and the provider serves exactly one more governance, nothing else
/// in its record changing (where the count is not full, which the instruction requires). It fails only with the governance program's own error, and then
/// leaves the record as it was.
pub proof fn law_add_provider_work_for_every_governance(
    r: Result<GovernanceProvider, DaoError>,
    a: AddRegisteredProviderToGovernance,
    before: ValidatorProvider,
    after: ValidatorProvider,
    now: i64,
)
    requires
        is_add_process_outcome(r, a, before, after, now),
        before.serving_governance_count < u32::MAX,
    ensures
        governance_program_accepts(governance_program_key(), a.governance_ai.owner@, a.governance_ai.data@) ==> {
            &&& r matches Ok(gp) && ties_provider_to_governance(gp, a, before.owner@, now)
            &&& after.serving_governance_count == before.serving_governance_count + 1
            &&& after == (ValidatorProvider { serving_governance_count: after.serving_governance_count, ..before })
        },
        r matches Err(e) ==> after == before
            && e == DaoError::Program(governance_check(governance_program_key(), a.governance_ai.owner@, a.governance_ai.data@)->Err_0)
            && governance_check(governance_program_key(), a.governance_ai.owner@, a.governance_ai.data@) is Err,
{
}

/// Taking on a provider, once the accounts pass their declared checks, goes through for every
/// governance the governance program accepts; any refusal leaves the provider's record as it
/// was.
pub proof fn law_add_provider_for_every_governance(
    r: Result<GovernanceProvider, DaoError>,
    a: AddRegisteredProviderToGovernance,
    program_id: Seq<u8>,
    before: ValidatorProvider,
    after: ValidatorProvider,
    now: i64,
)
    requires
        is_add_provider_outcome(r, a, program_id, before, after, now),
        before.serving_governance_count < u32::MAX,
    ensures
        add_provider_accounts_failure(a, program_id, before) is None
            && governance_program_accepts(governance_program_key(), a.governance_ai.owner@, a.governance_ai.data@) ==> {
            &&& r matches Ok(gp) && ties_provider_to_governance(gp, a, before.owner@, now)
            &&& after.serving_governance_count == before.serving_governance_count + 1
            &&& after == (ValidatorProvider { serving_governance_count: after.serving_governance_count, ..before })
        },
        r is Err ==> after == before,
{
}

/// Taking on a provider's accounts pass their declared checks only if the treasury signed,
/// the system program and clock are the real ones, the new record is the address derived
/// from the governance and the provider record, the governance is owned by the governance
/// program, and the provider record's `owner` field is the program's address.
pub proof fn law_add_provider_accounts(a: AddRegisteredProviderToGovernance, program_id: Seq<u8>, provider: ValidatorProvider)
    requires
        add_provider_accounts_failure(a, program_id, provider) is None,
    ensures
        a.governance_native_treasury.is_signer,
        a.system_program@ == system_program_key(),
        a.clock@ == clock_sysvar_key(),
        derived_address(governance_provider_seeds(a.governance_ai.key@, a.provider_data@), program_id) matches Some(q)
            && q.0 == a.governance_provider_data@,
        a.governance_ai.owner@ == governance_program_key(),
        provider.owner@ == program_id,
{
}

/// Whether `c` is a fresh contract on the accounts' terms: it runs from `start` for
/// `number_of_periods` periods, pays `initial_amount` then `recurring_amount` per period of
/// which nothing is paid yet, is not executed, and counts as signed exactly when the payer
/// owns the provider.
pub open spec fn is_fresh_contract_on_terms(
    c: GovernanceContract,
    a: CreateGovernanceContract,
    provider: ValidatorProvider,
    services: u64,
    start: u64,
    initial_amount: u64,
    recurring_amount: u64,
    periodicity: PaymentPeriodicity,
    number_of_periods: u32,
) -> bool {
    &&& c.governance_id@ == a.governance_ai.key@
    &&& c.contract_creator@ == a.payer.key@
    &&& c.validator_provider@ == a.provider_data@
    &&& c.validator_provider_owner@ == provider.owner@
    &&& c.provider_token_account@ == a.providers_token_account@
    &&& c.services_to_be_provided == services
    &&& c.contract_start_timestamp == start
    &&& c.contract_end_timestamp == start + period_seconds(periodicity) * number_of_periods
    &&& c.initial_amount_paid == initial_amount
    &&& c.recurring_amount_to_be_paid == recurring_amount
    &&& c.recurring_amount_already_paid == 0
    &&& c.periodicity == periodicity
    &&& c.number_of_periods == number_of_periods
    &&& c.payment_mint@ == a.payment_mint@
    &&& c.dao_payment_account@ == a.token_account@
    &&& c.has_signed_by_provider == (a.payer.key@ == provider.owner@)
    &&& !c.executed
}

/// Creating a contract goes through for every known periodicity and every governance the
/// governance program accepts, and counts exactly one more contract in the governance's
/// record of the provider. It fails only on an unknown periodicity or with the governance
/// program's own error, and then leaves the record as it was.
pub proof fn law_create_contract_work_for_every_governance(
    r: Result<GovernanceContract, DaoError>,
    a: CreateGovernanceContract,
    provider: ValidatorProvider,
    before: GovernanceProvider,
    after: GovernanceProvider,
    services: u64,
    start: u64,
    initial_amount: u64,
    recurring_amount: u64,
    periodicity: PaymentPeriodicity,
    number_of_periods: u32,
)
    requires
        is_create_process_outcome(r, a, provider, before, after, services, start, initial_amount, recurring_amount, periodicity, number_of_periods),
        before.contract_count < u32::MAX,
    ensures
        periodicity != PaymentPeriodicity::Unknown
            && governance_program_accepts(governance_program_key(), a.governance_ai.owner@, a.governance_ai.data@) ==> {
            &&& r matches Ok(c) && is_fresh_contract_on_terms(c, a, provider, services, start, initial_amount, recurring_amount, periodicity, number_of_periods)
            &&& after.contract_count == before.contract_count + 1
            &&& after == (GovernanceProvider { contract_count: after.contract_count, ..before })
        },
        r matches Err(e) ==> after == before && (
            (periodicity == PaymentPeriodicity::Unknown && e == DaoError::Dao(ValidatorDaoErrors::UnknownPeriodicity))
            || (periodicity != PaymentPeriodicity::Unknown
                && governance_check(governance_program_key(), a.governance_ai.owner@, a.governance_ai.data@) is Err
                && e == DaoError::Program(governance_check(governance_program_key(), a.governance_ai.owner@, a.governance_ai.data@)->Err_0))
        ),
{
}

/// Creating a contract, once the accounts pass their declared checks, goes through for every
/// known periodicity byte and every governance the governance program accepts; any refusal
/// leaves the governance's record of the provider as it was.
pub proof fn law_create_contract_for_every_governance(
    r: Result<GovernanceContract, DaoError>,
    a: CreateGovernanceContract,
    program_id: Seq<u8>,
    provider: ValidatorProvider,
    before: GovernanceProvider,
    after: GovernanceProvider,
    services: u64,
    start: u64,
    initial_amount: u64,
    recurring_amount: u64,
    periodicity: u8,
    number_of_periods: u32,
)
    requires
        is_create_contract_outcome(r, a, program_id, provider, before, after, services, start, initial_amount, recurring_amount, periodicity, number_of_periods),
        before.contract_count < u32::MAX,
    ensures
        create_contract_accounts_failure(a, program_id, provider) is None && periodicity < 4
            && governance_program_accepts(governance_program_key(), a.governance_ai.owner@, a.governance_ai.data@) ==> {
            &&& r matches Ok(c) && is_fresh_contract_on_terms(c, a, provider, services, start, initial_amount, recurring_amount, periodicity_of_byte(periodicity), number_of_periods)
            &&& after.contract_count == before.contract_count + 1
            &&& after == (GovernanceProvider { contract_count: after.contract_count, ..before })
        },
        r is Err ==> after == before,
{
}

/// A contract is created only against the governance's own record of that provider, at the
/// address derived for the governance, the provider and that record, by a signing payer,
/// for a governance owned by the governance program, a provider record whose `owner` field
/// is the program's address, a record owned by the program, and a token account of the
/// payment mint.
pub proof fn law_create_contract_accounts(a: CreateGovernanceContract, program_id: Seq<u8>, provider: ValidatorProvider)
    requires
        create_contract_accounts_failure(a, program_id, provider) is None,
    ensures
        a.payer.is_signer,
        a.system_program@ == system_program_key(),
        derived_address(governance_provider_seeds(a.governance_ai.key@, a.provider_data@), program_id) matches Some(q)
            && q.0 == a.governance_provider_data@,
        derived_address(
            governance_contract_seeds(a.governance_ai.key@, a.provider_data@, a.governance_provider_data@),
            program_id,
        ) matches Some(q) && q.0 == a.governance_contract@,
        a.governance_ai.owner@ == governance_program_key(),
        provider.owner@ == program_id,
        a.governance_provider_data_owner@ == program_id,
        a.token_account_mint@ == a.payment_mint@,
{
}

/// A contract is created only against the governance's own record of the provider: where
/// the record is not the one derived for the governance and the provider, the instruction
/// is refused and the record is left as it was.
pub proof fn law_create_contract_needs_own_provider_record(
    r: Result<GovernanceContract, DaoError>,
    a: CreateGovernanceContract,
    program_id: Seq<u8>,
    provider: ValidatorProvider,
    before: GovernanceProvider,
    after: GovernanceProvider,
    services: u64,
    start: u64,
    initial_amount: u64,
    recurring_amount: u64,
    periodicity: u8,
    number_of_periods: u32,
)
    requires
        is_create_contract_outcome(r, a, program_id, provider, before, after, services, start, initial_amount, recurring_amount, periodicity, number_of_periods),
    ensures
        r is Ok ==> (derived_address(governance_provider_seeds(a.governance_ai.key@, a.provider_data@), program_id) matches Some(q)
            && q.0 == a.governance_provider_data@),
        !(derived_address(governance_provider_seeds(a.governance_ai.key@, a.provider_data@), program_id) matches Some(q)
            && q.0 == a.governance_provider_data@) ==> r is Err && after == before,
{
    if create_contract_accounts_failure(a, program_id, provider) is None {
        law_create_contract_accounts(a, program_id, provider);
    }
}

/// Executing a contract: for a governance the governance program accepts, a signed contract
/// that has started (its start not after `now`) is executed, paying its initial amount from
/// the governance's token account to the provider's with nothing else in it changing; one
/// that has not started is refused as not yet started, and an unsigned started one as not
/// signed. Otherwise the governance program's error is the answer. Every refusal leaves the
/// contract as it was.
pub proof fn law_execute_contract(
    r: Result<TokenTransfer, DaoError>,
    a: ExecuteContract,
    before: GovernanceContract,
    after: GovernanceContract,
    now: i64,
)
    requires
        is_execute_outcome(r, a, before, after, now),
    ensures
        governance_program_accepts(governance_program_key(), a.governance_ai.owner@, a.governance_ai.data@)
            && before.has_signed_by_provider && before.contract_start_timestamp <= now as u64 ==> {
            &&& r matches Ok(t) && t.amount == before.initial_amount_paid && t.from@ == a.token_account@
                && t.to@ == a.providers_token_account@ && t.authority@ == a.token_authority@
            &&& after == (GovernanceContract { executed: true, ..before })
        },
        governance_program_accepts(governance_program_key(), a.governance_ai.owner@, a.governance_ai.data@)
            && (now as u64) < before.contract_start_timestamp
            ==> r == Err::<TokenTransfer, DaoError>(DaoError::Dao(ValidatorDaoErrors::ContractNotYetStarted)),
        governance_program_accepts(governance_program_key(), a.governance_ai.owner@, a.governance_ai.data@)
            && before.contract_start_timestamp <= now as u64 && !before.has_signed_by_provider
            ==> r == Err::<TokenTransfer, DaoError>(DaoError::Dao(ValidatorDaoErrors::ContractNotSignedByProvider)),
        !governance_program_accepts(governance_program_key(), a.governance_ai.owner@, a.governance_ai.data@)
            ==> r == Err::<TokenTransfer, DaoError>(DaoError::Program(
                governance_check(governance_program_key(), a.governance_ai.owner@, a.governance_ai.data@)->Err_0,
            )),
        r is Err ==> after == before,
{
}

/// Whether `key` is the address derived from the native treasury seeds of `governance`
/// under the governance program `program_id`.
pub open spec fn derives_native_treasury(key: Seq<u8>, program_id: Seq<u8>, governance: Seq<u8>) -> bool {
    derived_address(native_treasury_seeds(governance), program_id) matches Some(q) && q.0 == key
}

/// The stake instruction on any accounts aborts exactly where the accounts pass their
/// declared checks but the stake program or stake config is not the real one, or the
/// governance is one the governance program accepts and the signer is not its native
/// treasury. Every delegation it answers is made with the real stake program and config by
/// the governance's native treasury.
pub proof fn law_checked_stake(
    r: Option<Result<StakeDelegation, DaoError>>,
    a: InitalizeDAOStakeAccount,
    program_id: Seq<u8>,
    seed: u8,
    lamports: u64,
)
    requires
        is_checked_stake_outcome(r, a, program_id, seed, lamports),
    ensures
        r is None <==> (stake_accounts_failure(a, program_id, seed) is None && (
            a.stake_program@ != stake_program_key()
            || a.stake_config@ != stake_config_key()
            || (governance_program_accepts(a.governance_program@, a.governance_id.owner@, a.governance_id.data@)
                && !derives_native_treasury(a.governance_native_treasury_account.key@, a.governance_program@, a.governance_id.key@)))),
        r matches Some(Ok(d)) ==> {
            &&& a.stake_program@ == stake_program_key()
            &&& a.stake_config@ == stake_config_key()
            &&& derives_native_treasury(d.authority@, a.governance_program@, a.governance_id.key@)
            &&& delegates_named_stake_account(d, a, program_id, seed, lamports)
        },
{
}

/// Taking on a provider on any accounts aborts, leaving the record as it was, exactly where
/// the accounts pass their declared checks, the governance program accepts the governance,
/// and either the signer is not its native treasury or the provider's count of governances
/// served is full. Every provider taken on was taken on by the governance's native treasury.
pub proof fn law_checked_add_provider(
    r: Option<Result<GovernanceProvider, DaoError>>,
    a: AddRegisteredProviderToGovernance,
    program_id: Seq<u8>,
    before: ValidatorProvider,
    after: ValidatorProvider,
    now: i64,
)
    requires
        is_checked_add_provider_outcome(r, a, program_id, before, after, now),
    ensures
        r is None <==> (add_provider_accounts_failure(a, program_id, before) is None
            && governance_program_accepts(governance_program_key(), a.governance_ai.owner@, a.governance_ai.data@)
            && (!derives_native_treasury(a.governance_native_treasury.key@, governance_program_key(), a.governance_ai.key@)
                || before.serving_governance_count == u32::MAX)),
        r is None ==> after == before,
        r matches Some(Ok(gp)) ==> {
            &&& derives_native_treasury(a.governance_native_treasury.key@, governance_program_key(), a.governance_ai.key@)
            &&& ties_provider_to_governance(gp, a, before.owner@, now)
            &&& after.serving_governance_count == before.serving_governance_count + 1
            &&& after == (ValidatorProvider { serving_governance_count: after.serving_governance_count, ..before })
        },
{
}

/// Creating a contract on any accounts aborts, leaving the record as it was, exactly where
/// the accounts pass their declared checks, the periodicity is known, the governance program
/// accepts the governance, and either the contract's end overflows a `u64` or the count of
/// contracts is full.
pub proof fn law_checked_create_contract(
    r: Option<Result<GovernanceContract, DaoError>>,
    a: CreateGovernanceContract,
    program_id: Seq<u8>,
    provider: ValidatorProvider,
    before: GovernanceProvider,
    after: GovernanceProvider,
    services: u64,
    start: u64,
    initial_amount: u64,
    recurring_amount: u64,
    periodicity: u8,
    number_of_periods: u32,
)
    requires
        is_checked_create_contract_outcome(r, a, program_id, provider, before, after, services, start, initial_amount, recurring_amount, periodicity, number_of_periods),
    ensures
        r is None <==> (create_contract_accounts_failure(a, program_id, provider) is None && periodicity < 4
            && governance_program_accepts(governance_program_key(), a.governance_ai.owner@, a.governance_ai.data@)
            && (start + period_seconds(periodicity_of_byte(periodicity)) * number_of_periods > u64::MAX
                || before.contract_count == u32::MAX)),
        r is None ==> after == before,
        r matches Some(Ok(c)) ==> {
            &&& is_fresh_contract_on_terms(c, a, provider, services, start, initial_amount, recurring_amount, periodicity_of_byte(periodicity), number_of_periods)
            &&& after.contract_count == before.contract_count + 1
            &&& after == (GovernanceProvider { contract_count: after.contract_count, ..before })
        },
{
}

/// Whether the 128- or 2048-byte field `field` holds `text` first, then zeros.
pub open spec fn holds_text(field: Seq<u8>, text: Seq<u8>, size: nat) -> bool {
    &&& field.len() == size
    &&& field.subrange(0, text.len() as int) == text
    &&& forall|i: int| text.len() <= i < size ==> field[i] == 0
}

/// Registering refuses a name of more than 128 bytes, then a description of more than 1024
/// bytes; otherwise the new record belongs to the signing owner, is paid in the given mint,
/// offers the given services, has no rating, reviews or governances yet, and holds the name
/// and description, each followed by zeros.
pub proof fn law_register(
    r: Result<ValidatorProvider, DaoError>,
    a: RegisterValidatorServiceProvider,
    services: u64,
    name: Seq<u8>,
    description: Seq<u8>,
)
    requires
        is_register_process_outcome(r, a, services, name, description),
    ensures
        name.len() > 128 ==> r == Err::<ValidatorProvider, DaoError>(DaoError::Dao(ValidatorDaoErrors::NameTooLarge)),
        name.len() <= 128 && description.len() > 1024
            ==> r == Err::<ValidatorProvider, DaoError>(DaoError::Dao(ValidatorDaoErrors::DescriptionTooLarge)),
        name.len() <= 128 && description.len() <= 1024 ==> (r matches Ok(p) && {
            &&& p.owner@ == a.owner.key@
            &&& p.payment_mint@ == a.payment_mint@
            &&& p.services == services
            &&& p.rating == 0
            &&& p.review_count == 0
            &&& p.serving_governance_count == 0
            &&& holds_text(p.name@, name, 128)
            &&& holds_text(p.description@, description, 2048)
        }),
{
    if name.len() <= 128 && description.len() <= 1024 {
        let p = r->Ok_0;
        assert(p.name@.subrange(0, name.len() as int) =~= name);
        assert(p.description@.subrange(0, description.len() as int) =~= description);
    }
}

} // verus!
