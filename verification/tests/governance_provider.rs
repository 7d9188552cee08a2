use solana_program::pubkey::Pubkey;
use solana_validator_dao::address::Address;
use solana_validator_dao::errors::{AccountField, DaoError};
use solana_validator_dao::governance::AccountSnapshot;
use solana_validator_dao::ids::{governance_program_id, id};
use solana_validator_dao::instructions::{AddRegisteredProviderToGovernance, RegisterValidatorServiceProvider, SignerAccount};
use solana_validator_dao::processors::add_registered_provider_to_governance::{add_provider_requirements_hold, process};
use solana_validator_dao::program::{add_registered_provider_to_governance, checked_add_registered_provider_to_governance};
use solana_validator_dao::states::ValidatorProvider;

fn addr(p: &Pubkey) -> Address {
    Address::new(p.to_bytes())
}

fn gov_program() -> Pubkey {
    Pubkey::new_from_array(governance_program_id().bytes)
}

fn program() -> Pubkey {
    Pubkey::new_from_array(id().bytes)
}

fn provider(owner: Pubkey) -> ValidatorProvider {
    let a = RegisterValidatorServiceProvider {
        owner: SignerAccount { key: addr(&owner), is_signer: true },
        provider_data: Address::new([0u8; 32]),
        payment_mint: Address::new([9u8; 32]),
        system_program: addr(&solana_program::system_program::ID),
    };
    solana_validator_dao::processors::register_validator_provider::process(&a, 1, "P".to_string(), String::new())
        .unwrap()
}

fn accounts(governance: Pubkey, data: Vec<u8>) -> AddRegisteredProviderToGovernance {
    let treasury = spl_governance::state::native_treasury::get_native_treasury_address(&gov_program(), &governance);
    let provider_data = Pubkey::new_from_array([21u8; 32]);
    let (gp, _) = Pubkey::find_program_address(
        &[b"governance_provider", governance.as_ref(), provider_data.as_ref()],
        &program(),
    );
    AddRegisteredProviderToGovernance {
        governance_ai: AccountSnapshot { key: addr(&governance), owner: addr(&gov_program()), data },
        governance_native_treasury: SignerAccount { key: addr(&treasury), is_signer: true },
        provider_data: addr(&provider_data),
        governance_provider_data: addr(&gp),
        system_program: addr(&solana_program::system_program::ID),
        clock: addr(&solana_program::sysvar::clock::ID),
    }
}

#[test]
fn add_provider_writes_record_and_counts() {
    let governance = Pubkey::new_from_array([11u8; 32]);
    let a = accounts(governance, vec![18, 0, 0]);
    let owner = Pubkey::new_from_array([7u8; 32]);
    let mut p = provider(owner);
    let gp = process(&a, &mut p, 1_700_000_000).unwrap();
    assert_eq!(gp.governance_id.bytes, governance.to_bytes());
    assert_eq!(gp.validator_provider.bytes, [21u8; 32]);
    assert_eq!(gp.validator_provider_owner.bytes, owner.to_bytes());
    assert_eq!(gp.added_timestamp, 1_700_000_000);
    assert_eq!(gp.contract_count, 0);
    assert_eq!(p.serving_governance_count, 1);
    process(&a, &mut p, 5).unwrap();
    assert_eq!(p.serving_governance_count, 2);
}

#[test]
fn add_provider_negative_time_wraps() {
    let a = accounts(Pubkey::new_from_array([11u8; 32]), vec![3]);
    let mut p = provider(Pubkey::new_from_array([7u8; 32]));
    let gp = process(&a, &mut p, -1).unwrap();
    assert_eq!(gp.added_timestamp, u64::MAX);
}

#[test]
fn add_provider_accepts_every_governance_type() {
    for tag in [3u8, 4, 9, 10, 18, 19, 20, 21] {
        let a = accounts(Pubkey::new_from_array([11u8; 32]), vec![tag]);
        let mut p = provider(Pubkey::new_from_array([7u8; 32]));
        assert!(process(&a, &mut p, 0).is_ok(), "tag {}", tag);
    }
}

#[test]
fn add_provider_refuses_bad_governance_accounts() {
    let cases: Vec<(Vec<u8>, u64)> = vec![
        (vec![], 1101),
        (vec![1], 1103),
        (vec![0], 1103),
        (vec![22], 1103),
        (vec![24], 1103),
        (vec![25], 15u64 << 32),
        (vec![255], 15u64 << 32),
    ];
    for (data, code) in cases {
        let a = accounts(Pubkey::new_from_array([11u8; 32]), data);
        let mut p = provider(Pubkey::new_from_array([7u8; 32]));
        let r = process(&a, &mut p, 0);
        assert_eq!(r.unwrap_err(), DaoError::Program(code));
        assert_eq!(p.serving_governance_count, 0);
    }
}

#[test]
fn add_provider_refuses_foreign_owner() {
    let mut a = accounts(Pubkey::new_from_array([11u8; 32]), vec![18]);
    a.governance_ai.owner = Address::new([2u8; 32]);
    let mut p = provider(Pubkey::new_from_array([7u8; 32]));
    assert_eq!(process(&a, &mut p, 0).unwrap_err(), DaoError::Program(1102));
}

#[test]
fn add_provider_aborts_on_other_treasury() {
    let governance = Pubkey::new_from_array([11u8; 32]);
    let mut a = accounts(governance, vec![18]);
    a.governance_native_treasury.key = addr(&governance);
    let mut p = provider(program());
    assert!(!add_provider_requirements_hold(&a, &p));
    assert!(checked_add_registered_provider_to_governance(&a, &id(), &mut p, 0).is_none());
    assert_eq!(p.serving_governance_count, 0);
}

#[test]
fn add_provider_aborts_on_full_count() {
    let a = accounts(Pubkey::new_from_array([11u8; 32]), vec![18]);
    let mut p = provider(program());
    p.serving_governance_count = u32::MAX;
    assert!(!add_provider_requirements_hold(&a, &p));
    assert!(checked_add_registered_provider_to_governance(&a, &id(), &mut p, 0).is_none());
    assert_eq!(p.serving_governance_count, u32::MAX);
}

#[test]
fn add_provider_full_count_with_refused_governance_is_an_error() {
    let a = accounts(Pubkey::new_from_array([11u8; 32]), vec![5]);
    let mut p = provider(program());
    p.serving_governance_count = u32::MAX;
    let r = checked_add_registered_provider_to_governance(&a, &id(), &mut p, 0).unwrap();
    assert_eq!(r.unwrap_err(), DaoError::Program(1103));
}

#[test]
fn add_provider_instruction_needs_program_owned_record() {
    let a = accounts(Pubkey::new_from_array([11u8; 32]), vec![18]);
    let mut p = provider(Pubkey::new_from_array([7u8; 32]));
    let r = add_registered_provider_to_governance(&a, &id(), &mut p, 0);
    assert_eq!(r.unwrap_err(), DaoError::ConstraintRaw(AccountField::ProviderData));
    assert_eq!(p.serving_governance_count, 0);
}

#[test]
fn add_provider_instruction_succeeds() {
    let a = accounts(Pubkey::new_from_array([11u8; 32]), vec![18]);
    let mut p = provider(program());
    let gp = add_registered_provider_to_governance(&a, &id(), &mut p, 42).unwrap();
    assert_eq!(gp.added_timestamp, 42);
    assert_eq!(p.serving_governance_count, 1);
    let gp = checked_add_registered_provider_to_governance(&a, &id(), &mut p, 43).unwrap().unwrap();
    assert_eq!(gp.added_timestamp, 43);
    assert_eq!(p.serving_governance_count, 2);
}

#[test]
fn add_provider_instruction_checks_accounts() {
    let base = accounts(Pubkey::new_from_array([11u8; 32]), vec![18]);
    let mut p = provider(program());

    let mut a = base.clone();
    a.governance_native_treasury.is_signer = false;
    assert_eq!(
        add_registered_provider_to_governance(&a, &id(), &mut p, 0).unwrap_err(),
        DaoError::NotSigner(AccountField::GovernanceNativeTreasury)
    );

    let mut a = base.clone();
    a.clock = Address::new([0u8; 32]);
    assert_eq!(
        add_registered_provider_to_governance(&a, &id(), &mut p, 0).unwrap_err(),
        DaoError::SysvarMismatch(AccountField::Clock)
    );

    let mut a = base.clone();
    a.governance_provider_data = Address::new([1u8; 32]);
    assert_eq!(
        add_registered_provider_to_governance(&a, &id(), &mut p, 0).unwrap_err(),
        DaoError::ConstraintSeeds(AccountField::GovernanceProviderData)
    );

    let mut a = base.clone();
    a.governance_ai.owner = Address::new([1u8; 32]);
    assert_eq!(
        add_registered_provider_to_governance(&a, &id(), &mut p, 0).unwrap_err(),
        DaoError::ConstraintRaw(AccountField::GovernanceAi)
    );
    assert_eq!(p.serving_governance_count, 0);
}
