use solana_program::pubkey::Pubkey;
use solana_validator_dao::address::Address;
use solana_validator_dao::errors::{AccountField, DaoError, ValidatorDaoErrors};
use solana_validator_dao::ids::id;
use solana_validator_dao::instructions::{RegisterValidatorServiceProvider, SignerAccount};
use solana_validator_dao::processors::register_validator_provider::process;
use solana_validator_dao::program::register_validator_provider;
use solana_validator_dao::states::Datatype;

fn addr(p: &Pubkey) -> Address {
    Address::new(p.to_bytes())
}

fn program() -> Pubkey {
    Pubkey::new_from_array(id().bytes)
}

fn accounts(owner: Pubkey) -> RegisterValidatorServiceProvider {
    let (provider_data, _) = Pubkey::find_program_address(&[b"validator_provider", owner.as_ref()], &program());
    RegisterValidatorServiceProvider {
        owner: SignerAccount { key: addr(&owner), is_signer: true },
        provider_data: addr(&provider_data),
        payment_mint: Address::new([9u8; 32]),
        system_program: addr(&solana_program::system_program::ID),
    }
}

#[test]
fn register_writes_the_record() {
    let owner = Pubkey::new_from_array([7u8; 32]);
    let a = accounts(owner);
    let p = process(&a, 5, "Alpha".to_string(), "Runs validators".to_string()).unwrap();
    assert!(matches!(p.meta_data.datatype, Datatype::ValidatorProvider));
    assert!(p.meta_data.is_initialized);
    assert_eq!(p.meta_data.reserved, [0u8; 8]);
    assert_eq!(p.owner.bytes, owner.to_bytes());
    assert_eq!(p.payment_mint.bytes, [9u8; 32]);
    assert_eq!(p.services, 5);
    assert_eq!(p.rating, 0);
    assert_eq!(p.review_count, 0);
    assert_eq!(p.serving_governance_count, 0);
    assert_eq!(&p.name[..5], b"Alpha");
    assert!(p.name[5..].iter().all(|b| *b == 0));
    assert_eq!(&p.description[..15], b"Runs validators");
    assert!(p.description[15..].iter().all(|b| *b == 0));
    assert!(p.reserved.iter().all(|b| *b == 0));
}

#[test]
fn register_name_of_128_bytes_is_accepted() {
    let a = accounts(Pubkey::new_from_array([1u8; 32]));
    let name = "n".repeat(128);
    let p = process(&a, 0, name.clone(), String::new()).unwrap();
    assert_eq!(&p.name[..], name.as_bytes());
}

#[test]
fn register_name_of_129_bytes_is_refused() {
    let a = accounts(Pubkey::new_from_array([1u8; 32]));
    let r = process(&a, 0, "n".repeat(129), String::new());
    assert_eq!(r.unwrap_err(), DaoError::Dao(ValidatorDaoErrors::NameTooLarge));
}

#[test]
fn register_name_length_counts_bytes() {
    let a = accounts(Pubkey::new_from_array([1u8; 32]));
    assert!(process(&a, 0, "é".repeat(64), String::new()).is_ok());
    let r = process(&a, 0, "é".repeat(65), String::new());
    assert_eq!(r.unwrap_err(), DaoError::Dao(ValidatorDaoErrors::NameTooLarge));
}

#[test]
fn register_description_limits() {
    let a = accounts(Pubkey::new_from_array([1u8; 32]));
    let p = process(&a, 0, "x".to_string(), "d".repeat(1024)).unwrap();
    assert!(p.description[..1024].iter().all(|b| *b == b'd'));
    assert!(p.description[1024..].iter().all(|b| *b == 0));
    let r = process(&a, 0, "x".to_string(), "d".repeat(1025));
    assert_eq!(r.unwrap_err(), DaoError::Dao(ValidatorDaoErrors::DescriptionTooLarge));
}

#[test]
fn register_name_checked_before_description() {
    let a = accounts(Pubkey::new_from_array([1u8; 32]));
    let r = process(&a, 0, "n".repeat(200), "d".repeat(2000));
    assert_eq!(r.unwrap_err(), DaoError::Dao(ValidatorDaoErrors::NameTooLarge));
}

#[test]
fn register_instruction_derives_provider_record() {
    let owner = Pubkey::new_from_array([3u8; 32]);
    let a = accounts(owner);
    let p = register_validator_provider(&a, &id(), 1, "Beta".to_string(), String::new()).unwrap();
    assert_eq!(p.owner.bytes, owner.to_bytes());
}

#[test]
fn register_instruction_refuses_other_record() {
    let mut a = accounts(Pubkey::new_from_array([3u8; 32]));
    a.provider_data = a.owner.key;
    let r = register_validator_provider(&a, &id(), 1, "Beta".to_string(), String::new());
    assert_eq!(r.unwrap_err(), DaoError::ConstraintSeeds(AccountField::ProviderData));
}

#[test]
fn register_instruction_needs_owner_signature() {
    let mut a = accounts(Pubkey::new_from_array([3u8; 32]));
    a.owner.is_signer = false;
    let r = register_validator_provider(&a, &id(), 1, "Beta".to_string(), String::new());
    assert_eq!(r.unwrap_err(), DaoError::NotSigner(AccountField::Owner));
}

#[test]
fn register_instruction_needs_system_program() {
    let mut a = accounts(Pubkey::new_from_array([3u8; 32]));
    a.system_program = Address::new([1u8; 32]);
    let r = register_validator_provider(&a, &id(), 1, "Beta".to_string(), String::new());
    assert_eq!(r.unwrap_err(), DaoError::InvalidProgramId(AccountField::SystemProgram));
}

#[test]
fn program_id_matches_declared_id() {
    let declared: Pubkey = "AwyKDr1Z5BfdvK3jX1UWopyjsJSV5cq4cuJpoYLofyEn".parse().unwrap();
    assert_eq!(id().bytes, declared.to_bytes());
    let governance: Pubkey = "GovER5Lthms3bLBqWub97yVrMmEogzX7xNjdXpPPCVZw".parse().unwrap();
    assert_eq!(solana_validator_dao::ids::governance_program_id().bytes, governance.to_bytes());
}
