//! What each instruction does once its accounts have passed their declared checks.

pub mod add_registered_provider_to_governance;
pub mod create_governance_contract;
pub mod execute_contract;
pub mod process_stake;
pub mod register_validator_provider;
