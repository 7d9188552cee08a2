use solana_program::pubkey::Pubkey;
use solana_validator_dao::address::Address;
use solana_validator_dao::errors::{AccountField, DaoError, ValidatorDaoErrors};
use solana_validator_dao::governance::AccountSnapshot;
use solana_validator_dao::ids::{governance_program_id, id};
use solana_validator_dao::instructions::{CreateGovernanceContract, ExecuteContract, RegisterValidatorServiceProvider, SignerAccount};
use solana_validator_dao::periodicity::PaymentPeriodicity;
use solana_validator_dao::processors::create_governance_contract::process as create;
use solana_validator_dao::processors::execute_contract::process as execute;
use solana_validator_dao::program::{checked_create_governance_contract, create_governance_contract, execute_governance_contract};
use solana_validator_dao::states::{Datatype, GovernanceContract, GovernanceProvider, ValidatorProvider};

fn addr(p: &Pubkey) -> Address {
    Address::new(p.to_bytes())
}

fn gov_program() -> Pubkey {
    Pubkey::new_from_array(governance_program_id().bytes)
}

fn program() -> Pubkey {
    Pubkey::new_from_array(id().bytes)
}

fn provider(owner: Pubkey) -> ValidatorProvider {
    let a = RegisterValidatorServiceProvider {
        owner: SignerAccount { key: addr(&owner), is_signer: true },
        provider_data: Address::new([0u8; 32]),
        payment_mint: Address::new([9u8; 32]),
        system_program: addr(&solana_program::system_program::ID),
    };
    solana_validator_dao::processors::register_validator_provider::process(&a, 1, "P".to_string(), String::new())
        .unwrap()
}

fn governance_provider(count: u32) -> GovernanceProvider {
    GovernanceProvider {
        governance_id: Address::new([11u8; 32]),
        validator_provider: Address::new([21u8; 32]),
        validator_provider_owner: Address::new([7u8; 32]),
        added_timestamp: 0,
        contract_count: count,
    }
}

fn governance_account(data: Vec<u8>) -> AccountSnapshot {
    AccountSnapshot {
        key: Address::new([11u8; 32]),
        owner: addr(&gov_program()),
        data,
    }
}

fn create_accounts(payer: Pubkey) -> CreateGovernanceContract {
    let governance = Pubkey::new_from_array([11u8; 32]);
    let provider_data = Pubkey::new_from_array([21u8; 32]);
    let (gp, _) = Pubkey::find_program_address(
        &[b"governance_provider", governance.as_ref(), provider_data.as_ref()],
        &program(),
    );
    let (contract, _) = Pubkey::find_program_address(
        &[b"governance_contract", governance.as_ref(), provider_data.as_ref(), gp.as_ref()],
        &program(),
    );
    CreateGovernanceContract {
        governance_ai: governance_account(vec![18]),
        provider_data: addr(&provider_data),
        governance_provider_data: addr(&gp),
        governance_provider_data_owner: addr(&program()),
        governance_contract: addr(&contract),
        payment_mint: Address::new([9u8; 32]),
        token_account: Address::new([31u8; 32]),
        token_account_mint: Address::new([9u8; 32]),
        providers_token_account: Address::new([32u8; 32]),
        payer: SignerAccount { key: addr(&payer), is_signer: true },
        system_program: addr(&solana_program::system_program::ID),
    }
}

fn execute_accounts(data: Vec<u8>) -> ExecuteContract {
    ExecuteContract {
        governance_ai: governance_account(data),
        governance_contract: Address::new([40u8; 32]),
        token_account: Address::new([31u8; 32]),
        providers_token_account: Address::new([32u8; 32]),
        token_authority: Address::new([33u8; 32]),
        token_program: Address::new([34u8; 32]),
    }
}

fn new_contract(payer: Pubkey, owner: Pubkey, start: u64) -> GovernanceContract {
    let a = create_accounts(payer);
    let p = provider(owner);
    let mut gp = governance_provider(0);
    create(&a, &p, &mut gp, 3, start, 0, 500, 100, PaymentPeriodicity::Monthly, 6).unwrap()
}

#[test]
fn create_contract_writes_record() {
    let owner = Pubkey::new_from_array([7u8; 32]);
    let payer = Pubkey::new_from_array([8u8; 32]);
    let a = create_accounts(payer);
    let p = provider(owner);
    let mut gp = governance_provider(4);
    let c = create(&a, &p, &mut gp, 3, 1_000, 99, 500, 100, PaymentPeriodicity::Weekly, 2).unwrap();
    assert!(matches!(c.meta_data.datatype, Datatype::Contract));
    assert!(c.meta_data.is_initialized);
    assert_eq!(c.governance_id.bytes, [11u8; 32]);
    assert_eq!(c.contract_creator.bytes, payer.to_bytes());
    assert_eq!(c.validator_provider.bytes, [21u8; 32]);
    assert_eq!(c.validator_provider_owner.bytes, owner.to_bytes());
    assert_eq!(c.provider_token_account.bytes, [32u8; 32]);
    assert_eq!(c.services_to_be_provided, 3);
    assert_eq!(c.contract_start_timestamp, 1_000);
    assert_eq!(c.contract_end_timestamp, 1_000 + 1_209_600);
    assert_eq!(c.initial_amount_paid, 500);
    assert_eq!(c.recurring_amount_to_be_paid, 100);
    assert_eq!(c.recurring_amount_already_paid, 0);
    assert_eq!(c.periodicity, PaymentPeriodicity::Weekly);
    assert_eq!(c.number_of_periods, 2);
    assert_eq!(c.payment_mint.bytes, [9u8; 32]);
    assert_eq!(c.dao_payment_account.bytes, [31u8; 32]);
    assert!(!c.has_signed_by_provider);
    assert!(!c.executed);
    assert!(c.reserved.iter().all(|b| *b == 0));
    assert_eq!(gp.contract_count, 5);
}

#[test]
fn create_contract_by_owner_is_signed() {
    let owner = Pubkey::new_from_array([7u8; 32]);
    let c = new_contract(owner, owner, 10);
    assert!(c.has_signed_by_provider);
}

#[test]
fn create_contract_refuses_unknown_periodicity() {
    let a = create_accounts(Pubkey::new_from_array([8u8; 32]));
    let p = provider(Pubkey::new_from_array([7u8; 32]));
    let mut gp = governance_provider(0);
    let r = create(&a, &p, &mut gp, 3, 0, 0, 0, 0, PaymentPeriodicity::Unknown, 2);
    assert_eq!(r.unwrap_err(), DaoError::Dao(ValidatorDaoErrors::UnknownPeriodicity));
    assert_eq!(gp.contract_count, 0);
}

#[test]
fn create_contract_checks_governance() {
    let mut a = create_accounts(Pubkey::new_from_array([8u8; 32]));
    a.governance_ai.data = vec![16];
    let p = provider(Pubkey::new_from_array([7u8; 32]));
    let mut gp = governance_provider(0);
    let r = create(&a, &p, &mut gp, 3, 0, 0, 0, 0, PaymentPeriodicity::Daily, 2);
    assert_eq!(r.unwrap_err(), DaoError::Program(1103));
    assert_eq!(gp.contract_count, 0);
}

#[test]
fn create_contract_instruction() {
    let a = create_accounts(Pubkey::new_from_array([8u8; 32]));
    let p = provider(program());
    let mut gp = governance_provider(0);
    let c = create_governance_contract(&a, &id(), &p, &mut gp, 77, 3, 100, 0, 1, 1, 3, 10).unwrap();
    assert_eq!(c.periodicity, PaymentPeriodicity::Daily);
    assert_eq!(c.contract_end_timestamp, 100 + 864_000);
    assert_eq!(gp.contract_count, 1);

    let r = create_governance_contract(&a, &id(), &p, &mut gp, 77, 3, 100, 0, 1, 1, 9, 10);
    assert_eq!(r.unwrap_err(), DaoError::Dao(ValidatorDaoErrors::UnknownPeriodicity));
    assert_eq!(gp.contract_count, 1);
}

#[test]
fn create_contract_instruction_checks_accounts() {
    let base = create_accounts(Pubkey::new_from_array([8u8; 32]));
    let p = provider(program());
    let mut gp = governance_provider(0);
    let call = |a: &CreateGovernanceContract, p: &ValidatorProvider, gp: &mut GovernanceProvider| {
        create_governance_contract(a, &id(), p, gp, 0, 3, 100, 0, 1, 1, 3, 10).unwrap_err()
    };

    let mut a = base.clone();
    a.payer.is_signer = false;
    assert_eq!(call(&a, &p, &mut gp), DaoError::NotSigner(AccountField::Payer));

    let mut a = base.clone();
    a.governance_contract = Address::new([1u8; 32]);
    assert_eq!(call(&a, &p, &mut gp), DaoError::ConstraintSeeds(AccountField::GovernanceContract));

    let mut a = base.clone();
    a.governance_ai.owner = Address::new([1u8; 32]);
    assert_eq!(call(&a, &p, &mut gp), DaoError::ConstraintRaw(AccountField::GovernanceAi));

    let other = provider(Pubkey::new_from_array([7u8; 32]));
    assert_eq!(call(&base, &other, &mut gp), DaoError::ConstraintRaw(AccountField::ProviderData));

    let mut a = base.clone();
    a.governance_provider_data_owner = Address::new([1u8; 32]);
    assert_eq!(call(&a, &p, &mut gp), DaoError::ConstraintRaw(AccountField::GovernanceProviderData));

    let mut a = base.clone();
    a.token_account_mint = Address::new([1u8; 32]);
    assert_eq!(call(&a, &p, &mut gp), DaoError::ConstraintRaw(AccountField::TokenAccount));
    assert_eq!(gp.contract_count, 0);
}

#[test]
fn execute_contract_pays_initial_amount() {
    let owner = Pubkey::new_from_array([7u8; 32]);
    let mut c = new_contract(owner, owner, 2_000);
    let a = execute_accounts(vec![18]);
    let t = execute(&a, &mut c, 2_000).unwrap();
    assert!(c.executed);
    assert_eq!(t.from.bytes, [31u8; 32]);
    assert_eq!(t.to.bytes, [32u8; 32]);
    assert_eq!(t.authority.bytes, [33u8; 32]);
    assert_eq!(t.amount, 500);
}

#[test]
fn execute_contract_before_start_is_refused() {
    let owner = Pubkey::new_from_array([7u8; 32]);
    let mut c = new_contract(owner, owner, 2_000);
    let a = execute_accounts(vec![18]);
    let r = execute(&a, &mut c, 1_999);
    assert_eq!(r.unwrap_err(), DaoError::Dao(ValidatorDaoErrors::ContractNotYetStarted));
    assert!(!c.executed);
}

#[test]
fn execute_unsigned_contract_is_refused() {
    let mut c = new_contract(Pubkey::new_from_array([8u8; 32]), Pubkey::new_from_array([7u8; 32]), 2_000);
    let a = execute_accounts(vec![18]);
    let r = execute(&a, &mut c, 5_000);
    assert_eq!(r.unwrap_err(), DaoError::Dao(ValidatorDaoErrors::ContractNotSignedByProvider));
    assert!(!c.executed);
}

#[test]
fn execute_checks_governance_first() {
    let mut c = new_contract(Pubkey::new_from_array([8u8; 32]), Pubkey::new_from_array([7u8; 32]), 2_000);
    let a = execute_accounts(vec![]);
    assert_eq!(execute(&a, &mut c, 9_999).unwrap_err(), DaoError::Program(1101));
}

#[test]
fn execute_contract_can_repeat() {
    let owner = Pubkey::new_from_array([7u8; 32]);
    let mut c = new_contract(owner, owner, 2_000);
    let a = execute_accounts(vec![18]);
    assert!(execute_governance_contract(&a, &mut c, 3_000).is_ok());
    let again = execute_governance_contract(&a, &mut c, 3_000).unwrap();
    assert_eq!(again.amount, 500);
    assert!(c.executed);
}

#[test]
fn execute_contract_negative_time_reads_large() {
    let owner = Pubkey::new_from_array([7u8; 32]);
    let mut c = new_contract(owner, owner, 2_000);
    let a = execute_accounts(vec![18]);
    assert!(execute(&a, &mut c, -5).is_ok());
    assert!(c.executed);
}

#[test]
fn execute_contract_at_later_time_pays() {
    let owner = Pubkey::new_from_array([7u8; 32]);
    let mut c = new_contract(owner, owner, 2_000);
    let a = execute_accounts(vec![18]);
    assert_eq!(execute(&a, &mut c, 2_001).unwrap().amount, 500);
}

#[test]
fn checked_create_aborts_on_overflow_or_full_count() {
    let a = create_accounts(Pubkey::new_from_array([8u8; 32]));
    let p = provider(program());
    let mut gp = governance_provider(0);
    assert!(checked_create_governance_contract(&a, &id(), &p, &mut gp, 0, 3, u64::MAX, 0, 1, 1, 3, 1).is_none());
    let mut full = governance_provider(u32::MAX);
    assert!(checked_create_governance_contract(&a, &id(), &p, &mut full, 0, 3, 100, 0, 1, 1, 3, 1).is_none());
    assert_eq!(full.contract_count, u32::MAX);
    let r = checked_create_governance_contract(&a, &id(), &p, &mut gp, 0, 3, u64::MAX, 0, 1, 1, 7, 1).unwrap();
    assert_eq!(r.unwrap_err(), DaoError::Dao(ValidatorDaoErrors::UnknownPeriodicity));
    let c = checked_create_governance_contract(&a, &id(), &p, &mut gp, 0, 3, u64::MAX - 86_400, 0, 1, 1, 3, 1)
        .unwrap()
        .unwrap();
    assert_eq!(c.contract_end_timestamp, u64::MAX);
    assert_eq!(gp.contract_count, 1);
}

#[test]
fn create_contract_ignores_seed_and_asked_end() {
    let a = create_accounts(Pubkey::new_from_array([8u8; 32]));
    let p = provider(program());
    let mut gp1 = governance_provider(0);
    let mut gp2 = governance_provider(0);
    let c1 = create_governance_contract(&a, &id(), &p, &mut gp1, 1, 3, 100, 5, 1, 1, 2, 4).unwrap();
    let c2 = create_governance_contract(&a, &id(), &p, &mut gp2, 99, 3, 100, 777, 1, 1, 2, 4).unwrap();
    assert_eq!(c1.contract_end_timestamp, c2.contract_end_timestamp);
    assert_eq!(c1.contract_end_timestamp, 100 + 4 * 604_800);
    assert_eq!(gp1.contract_count, gp2.contract_count);
}
