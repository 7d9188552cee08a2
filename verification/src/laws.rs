//! Properties that hold across the program's instructions.
use vstd::prelude::*;
use crate::instructions::{add_provider_accounts_failure, stake_accounts_failure, AddRegisteredProviderToGovernance, CreateGovernanceContract, ExecuteContract, InitalizeDAOStakeAccount};
use crate::periodicity::{period_seconds, periodicity_of_byte, PaymentPeriodicity};
use crate::processors::create_governance_contract::is_new_contract;
use crate::processors::execute_contract::{execute_failure, execute_governance_check, has_started};
use crate::processors::process_stake::derived_stake_account;
use crate::processors::register_validator_provider::is_new_provider;
use crate::program::is_create_contract_outcome;
use crate::states::{zero_padded, GovernanceContract, GovernanceProvider, ValidatorProvider};
use crate::address::Address;
use crate::errors::DaoError;

verus! {

/// Any number of periods of any periodicity lasts less than `u64::MAX` seconds, so the
/// length of a contract is never cut short by saturation.
pub proof fn law_period_length_fits(p: PaymentPeriodicity, number_of_periods: u32)
    ensures
        period_seconds(p) * number_of_periods < u64::MAX,
{
    let s = period_seconds(p);
    assert(s <= 365 * 86400);
    assert(s * number_of_periods <= 365 * 86400 * 0xffff_ffff) by (nonlinear_arith)
        requires
            s <= 365 * 86400,
            number_of_periods <= 0xffff_ffff,
    ;
}

/// More periods never last less time.
pub proof fn law_period_length_monotone(p: PaymentPeriodicity, n1: u32, n2: u32)
    requires
        n1 <= n2,
    ensures
        period_seconds(p) * n1 <= period_seconds(p) * n2,
{
    let s = period_seconds(p);
    assert(s * n1 <= s * n2) by (nonlinear_arith)
        requires
            n1 <= n2,
    ;
}

/// The bytes 0 to 3 name the known periodicities, each of which lasts some time; every other
/// byte is `Unknown`, which lasts none.
pub proof fn law_known_periodicities(v: u8)
    ensures
        (periodicity_of_byte(v) != PaymentPeriodicity::Unknown) <==> v < 4,
        (period_seconds(periodicity_of_byte(v)) > 0) <==> v < 4,
{
}

/// A contract runs for exactly its number of periods, from its start.
pub proof fn law_contract_duration(
    c: GovernanceContract,
    a: CreateGovernanceContract,
    provider_owner: Seq<u8>,
    services: u64,
    start: u64,
    initial_amount: u64,
    recurring_amount: u64,
    periodicity: PaymentPeriodicity,
    number_of_periods: u32,
)
    requires
        is_new_contract(c, a, provider_owner, services, start, initial_amount, recurring_amount, periodicity, number_of_periods),
    ensures
        c.contract_start_timestamp <= c.contract_end_timestamp,
        c.contract_end_timestamp - c.contract_start_timestamp == period_seconds(c.periodicity) * c.number_of_periods,
{
}

/// A contract that its provider has not signed is never executed.
pub proof fn law_unsigned_contract_never_executes(a: ExecuteContract, c: GovernanceContract, now: i64)
    requires
        !c.has_signed_by_provider,
    ensures
        execute_failure(a, c, now) is Some,
{
}

/// A contract created by anyone but the provider's owner stays unsigned, so it can never be
/// executed.
pub proof fn law_contract_by_other_creator_never_executes(
    c: GovernanceContract,
    a: CreateGovernanceContract,
    provider_owner: Seq<u8>,
    services: u64,
    start: u64,
    initial_amount: u64,
    recurring_amount: u64,
    periodicity: PaymentPeriodicity,
    number_of_periods: u32,
    e: ExecuteContract,
    now: i64,
)
    requires
        is_new_contract(c, a, provider_owner, services, start, initial_amount, recurring_amount, periodicity, number_of_periods),
        a.payer.key@ != provider_owner,
    ensures
        !c.has_signed_by_provider,
        execute_failure(e, c, now) is Some,
{
}

/// A contract created by the provider's owner is signed: it is executed as soon as the
/// governance passes its check and the contract has started.
pub proof fn law_contract_by_owner_executes(
    c: GovernanceContract,
    a: CreateGovernanceContract,
    provider_owner: Seq<u8>,
    services: u64,
    start: u64,
    initial_amount: u64,
    recurring_amount: u64,
    periodicity: PaymentPeriodicity,
    number_of_periods: u32,
    e: ExecuteContract,
    now: i64,
)
    requires
        is_new_contract(c, a, provider_owner, services, start, initial_amount, recurring_amount, periodicity, number_of_periods),
        a.payer.key@ == provider_owner,
        execute_governance_check(e) is Ok,
        has_started(c, now),
    ensures
        c.has_signed_by_provider,
        !c.executed,
        execute_failure(e, c, now) is None,
{
}

/// Executing a contract does not guard against executing it again: a contract that could be
/// executed can still be executed once marked executed, under the same conditions.
pub proof fn law_execution_is_repeatable(a: ExecuteContract, c: GovernanceContract, now: i64)
    requires
        execute_failure(a, c, now) is None,
    ensures
        execute_failure(a, GovernanceContract { executed: true, ..c }, now) is None,
{
}

/// The name and description a provider registers read back from its record: the record's
/// field holds them first, then zeros up to its size.
pub proof fn law_registered_text_reads_back(bytes: Seq<u8>, size: nat)
    requires
        bytes.len() <= size,
    ensures
        zero_padded(bytes, size).len() == size,
        zero_padded(bytes, size).subrange(0, bytes.len() as int) == bytes,
        forall|i: int| bytes.len() <= i < size ==> zero_padded(bytes, size)[i] == 0,
{
    assert(zero_padded(bytes, size).subrange(0, bytes.len() as int) =~= bytes);
}

/// A governance accepts a provider record only if the record's `owner` field is the
/// program's address; so a provider registered by any other owner is never taken on.
pub proof fn law_taken_on_provider_is_owned_by_program(
    a: AddRegisteredProviderToGovernance,
    program_id: Seq<u8>,
    p: ValidatorProvider,
    owner: Seq<u8>,
    payment_mint: Seq<u8>,
    services: u64,
    name: Seq<u8>,
    description: Seq<u8>,
)
    requires
        is_new_provider(p, owner, payment_mint, services, name, description),
        owner != program_id,
    ensures
        add_provider_accounts_failure(a, program_id, p) is Some,
{
}

/// Once the stake instruction's accounts pass their declared checks, the stake account is the
/// address derived from its seeds, so the work that follows finds the same account.
pub proof fn law_checked_stake_account_is_derived(a: InitalizeDAOStakeAccount, program_id: Seq<u8>, seed: u8)
    requires
        stake_accounts_failure(a, program_id, seed) is None,
    ensures
        derived_stake_account(a, program_id, seed) matches Some(p) && p.0 == a.dao_stake_account@,
{
}

/// Two addresses with the same bytes are the same address.
proof fn lemma_address_ext(a: Address, b: Address)
    requires
        a@ == b@,
    ensures
        a == b,
{
    assert(a.bytes =~= b.bytes);
}

/// Creating a contract is determined by the accounts, records and arguments that its outcome
/// names: the contract seed and the asked end time, which it does not name, change neither
/// the answer nor the records, and two calls on equal inputs agree.
pub proof fn law_contract_creation_is_determined(
    r1: Result<GovernanceContract, DaoError>,
    r2: Result<GovernanceContract, DaoError>,
    a: CreateGovernanceContract,
    program_id: Seq<u8>,
    provider: ValidatorProvider,
    before: GovernanceProvider,
    after1: GovernanceProvider,
    after2: GovernanceProvider,
    services: u64,
    start: u64,
    initial_amount: u64,
    recurring_amount: u64,
    periodicity: u8,
    number_of_periods: u32,
)
    requires
        is_create_contract_outcome(r1, a, program_id, provider, before, after1, services, start, initial_amount, recurring_amount, periodicity, number_of_periods),
        is_create_contract_outcome(r2, a, program_id, provider, before, after2, services, start, initial_amount, recurring_amount, periodicity, number_of_periods),
    ensures
        r1 == r2,
        after1 == after2,
{
    if r1 is Ok && r2 is Ok {
        let c1 = r1->Ok_0;
        let c2 = r2->Ok_0;
        lemma_address_ext(c1.governance_id, c2.governance_id);
        lemma_address_ext(c1.contract_creator, c2.contract_creator);
        lemma_address_ext(c1.validator_provider, c2.validator_provider);
        lemma_address_ext(c1.validator_provider_owner, c2.validator_provider_owner);
        lemma_address_ext(c1.provider_token_account, c2.provider_token_account);
        lemma_address_ext(c1.payment_mint, c2.payment_mint);
        lemma_address_ext(c1.dao_payment_account, c2.dao_payment_account);
        assert(c1.reserved =~= c2.reserved);
        assert(c1.meta_data.reserved =~= c2.meta_data.reserved);
        assert(c1.meta_data == c2.meta_data);
        assert(c1 == c2);
    }
}

} // verus!
