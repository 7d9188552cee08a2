//! Verified core of a Solana validator DAO program: validator service
//! providers register, governances take them on, and governance contracts
//! pay them on a schedule.

pub mod address;
pub mod errors;
pub mod governance;
pub mod ids;
pub mod instruction_laws;
pub mod instructions;
pub mod laws;
pub mod pda;
pub mod periodicity;
pub mod processors;
pub mod program;
pub mod states;
