//! Errors of the program's instructions.
use vstd::prelude::*;

verus! {

/// The errors that the program's own rules raise.
#[derive(Clone, Copy, Debug, PartialEq, Eq, Structural)]
pub enum ValidatorDaoErrors {
    NameTooLarge,
    DescriptionTooLarge,
    ContractNotYetStarted,
    ContractNotSignedByProvider,
    UnknownPeriodicity,
    Default,
}

/// First code of the program's own errors; each variant takes the next one in order.
pub const ERROR_CODE_OFFSET: u32 = 6000;

/// The code that an error is reported with.
pub open spec fn error_code(e: ValidatorDaoErrors) -> u32 {
    match e {
        ValidatorDaoErrors::NameTooLarge => 6000,
        ValidatorDaoErrors::DescriptionTooLarge => 6001,
        ValidatorDaoErrors::ContractNotYetStarted => 6002,
        ValidatorDaoErrors::ContractNotSignedByProvider => 6003,
        ValidatorDaoErrors::UnknownPeriodicity => 6004,
        ValidatorDaoErrors::Default => 6005,
    }
}

impl ValidatorDaoErrors {
    /// The code that this error is reported with.
    pub fn code(&self) -> (r: u32)
        ensures
            r == error_code(*self),
    {
        match self {
            ValidatorDaoErrors::NameTooLarge => ERROR_CODE_OFFSET,
            ValidatorDaoErrors::DescriptionTooLarge => ERROR_CODE_OFFSET + 1,
            ValidatorDaoErrors::ContractNotYetStarted => ERROR_CODE_OFFSET + 2,
            ValidatorDaoErrors::ContractNotSignedByProvider => ERROR_CODE_OFFSET + 3,
            ValidatorDaoErrors::UnknownPeriodicity => ERROR_CODE_OFFSET + 4,
            ValidatorDaoErrors::Default => ERROR_CODE_OFFSET + 5,
        }
    }

    /// The message that the error is reported with.
    pub fn message(&self) -> (r: &'static str)
        ensures
            r@ == (match *self {
                ValidatorDaoErrors::NameTooLarge => "Name too large"@,
                ValidatorDaoErrors::DescriptionTooLarge => "Description too large"@,
                ValidatorDaoErrors::ContractNotYetStarted => "Contract has not started yet"@,
                ValidatorDaoErrors::ContractNotSignedByProvider => "Contract not yet signed by the provider"@,
                ValidatorDaoErrors::UnknownPeriodicity => "Unknown periodicity"@,
                ValidatorDaoErrors::Default => "default"@,
            }),
    {
        match self {
            ValidatorDaoErrors::NameTooLarge => "Name too large",
            ValidatorDaoErrors::DescriptionTooLarge => "Description too large",
            ValidatorDaoErrors::ContractNotYetStarted => "Contract has not started yet",
            ValidatorDaoErrors::ContractNotSignedByProvider => "Contract not yet signed by the provider",
            ValidatorDaoErrors::UnknownPeriodicity => "Unknown periodicity",
            ValidatorDaoErrors::Default => "default",
        }
    }
}

/// The accounts that an instruction names, to tell which one a check failed on.
#[derive(Clone, Copy, Debug, PartialEq, Eq, Structural)]
pub enum AccountField {
    GovernanceNativeTreasuryAccount,
    DaoStakeAccount,
    Payer,
    SystemProgram,
    RentProgram,
    ClockProgram,
    StakeHistory,
    Owner,
    ProviderData,
    GovernanceAi,
    GovernanceNativeTreasury,
    GovernanceProviderData,
    GovernanceContract,
    TokenAccount,
    Clock,
}

/// Why an instruction failed.
#[derive(Clone, Copy, Debug, PartialEq, Eq, Structural)]
pub enum DaoError {
    /// One of the program's own rules refused the instruction.
    Dao(ValidatorDaoErrors),
    /// The governance program's checks refused the governance account; the code is that of
    /// the program error it raised.
    Program(u64),
    /// An account that must sign the transaction did not.
    NotSigner(AccountField),
    /// An account that must be a given program is another one.
    InvalidProgramId(AccountField),
    /// An account that must be a given sysvar is another one.
    SysvarMismatch(AccountField),
    /// A constraint that the accounts declare does not hold.
    ConstraintRaw(AccountField),
    /// An account is not the address derived from its declared seeds.
    ConstraintSeeds(AccountField),
    /// No bump seed gives an address for the declared seeds.
    NoViableBump(AccountField),
}

} // verus!
