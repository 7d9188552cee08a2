//! Addresses of the programs and system accounts that the instructions name.
use vstd::prelude::*;
use crate::address::Address;

verus! {

/// Bytes of the SPL governance program's address
/// (`GovER5Lthms3bLBqWub97yVrMmEogzX7xNjdXpPPCVZw`).
pub open spec fn governance_program_key() -> Seq<u8> {
    seq![
        234u8, 228, 53, 189, 238, 117, 183, 52, 205, 89, 62, 207, 154, 48, 75, 128, 36, 186, 40,
        152, 103, 183, 105, 177, 249, 60, 167, 187, 184, 142, 70, 254,
    ]
}

/// Bytes of this program's own address (`AwyKDr1Z5BfdvK3jX1UWopyjsJSV5cq4cuJpoYLofyEn`).
pub open spec fn program_key() -> Seq<u8> {
    seq![
        147u8, 206, 56, 124, 209, 1, 118, 175, 198, 160, 181, 146, 186, 44, 145, 60, 184, 206, 248,
        160, 201, 11, 125, 143, 248, 55, 160, 77, 21, 210, 190, 111,
    ]
}

/// Bytes of the system program's address (`11111111111111111111111111111111`).
pub open spec fn system_program_key() -> Seq<u8> {
    Seq::new(32, |i: int| 0u8)
}

/// Bytes of the stake program's address (`Stake11111111111111111111111111111111111111`).
pub open spec fn stake_program_key() -> Seq<u8> {
    seq![
        6u8, 161, 216, 23, 145, 55, 84, 42, 152, 52, 55, 189, 254, 42, 122, 178, 85, 127, 83, 92,
        138, 120, 114, 43, 104, 164, 157, 192, 0, 0, 0, 0,
    ]
}

/// Bytes of the stake config account's address (`StakeConfig11111111111111111111111111111111`).
pub open spec fn stake_config_key() -> Seq<u8> {
    seq![
        6u8, 161, 216, 23, 165, 2, 5, 11, 104, 7, 145, 230, 206, 109, 184, 142, 30, 91, 113, 80,
        246, 31, 198, 121, 10, 78, 180, 209, 0, 0, 0, 0,
    ]
}

/// Bytes of the clock sysvar's address (`SysvarC1ock11111111111111111111111111111111`).
pub open spec fn clock_sysvar_key() -> Seq<u8> {
    seq![
        6u8, 167, 213, 23, 24, 199, 116, 201, 40, 86, 99, 152, 105, 29, 94, 182, 139, 94, 184, 163,
        155, 75, 109, 92, 115, 85, 91, 33, 0, 0, 0, 0,
    ]
}

/// Bytes of the rent sysvar's address (`SysvarRent111111111111111111111111111111111`).
pub open spec fn rent_sysvar_key() -> Seq<u8> {
    seq![
        6u8, 167, 213, 23, 25, 44, 92, 81, 33, 140, 201, 76, 61, 74, 241, 127, 88, 218, 238, 8, 155,
        161, 253, 68, 227, 219, 217, 138, 0, 0, 0, 0,
    ]
}

/// Bytes of the stake history sysvar's address
/// (`SysvarStakeHistory1111111111111111111111111`).
pub open spec fn stake_history_sysvar_key() -> Seq<u8> {
    seq![
        6u8, 167, 213, 23, 25, 53, 132, 208, 254, 237, 155, 179, 67, 29, 19, 32, 107, 229, 68, 40,
        27, 87, 184, 86, 108, 197, 55, 95, 244, 0, 0, 0,
    ]
}

/// The SPL governance program whose governances this program serves.
pub fn governance_program_id() -> (r: Address)
    ensures
        r@ == governance_program_key(),
{
    Address {
        bytes: [
            234u8, 228, 53, 189, 238, 117, 183, 52, 205, 89, 62, 207, 154, 48, 75, 128, 36, 186, 40,
            152, 103, 183, 105, 177, 249, 60, 167, 187, 184, 142, 70, 254,
        ],
    }
}

/// This program's own address.
pub fn id() -> (r: Address)
    ensures
        r@ == program_key(),
{
    Address {
        bytes: [
            147u8, 206, 56, 124, 209, 1, 118, 175, 198, 160, 181, 146, 186, 44, 145, 60, 184, 206,
            248, 160, 201, 11, 125, 143, 248, 55, 160, 77, 21, 210, 190, 111,
        ],
    }
}

/// `solana_program::system_program::ID`: the constant that
/// `declare_id!("11111111111111111111111111111111")` defines, whose bytes are all zero.
#[verifier::external_body]
pub(crate) fn system_program_id() -> (r: Address)
    ensures
        r@ == system_program_key(),
{
    Address { bytes: solana_program::system_program::ID.to_bytes() }
}

/// `solana_program::stake::program::ID`: the constant that
/// `declare_id!("Stake11111111111111111111111111111111111111")` defines; its contract
/// gives the base58 decoding of that string.
#[verifier::external_body]
pub(crate) fn stake_program_id() -> (r: Address)
    ensures
        r@ == stake_program_key(),
{
    Address { bytes: solana_program::stake::program::ID.to_bytes() }
}

/// `solana_program::stake::config::id()`: the constant that
/// `declare_deprecated_id!("StakeConfig11111111111111111111111111111111")` defines; its
/// contract gives the base58 decoding of that string.
#[verifier::external_body]
#[allow(deprecated)]
pub(crate) fn stake_config_id() -> (r: Address)
    ensures
        r@ == stake_config_key(),
{
    Address { bytes: solana_program::stake::config::id().to_bytes() }
}

/// `solana_program::sysvar::clock::id()`: the constant that
/// `declare_sysvar_id!("SysvarC1ock11111111111111111111111111111111", Clock)` defines; its
/// contract gives the base58 decoding of that string.
#[verifier::external_body]
pub(crate) fn clock_sysvar_id() -> (r: Address)
    ensures
        r@ == clock_sysvar_key(),
{
    Address { bytes: solana_program::sysvar::clock::id().to_bytes() }
}

/// `solana_program::sysvar::rent::id()`: the constant that
/// `declare_sysvar_id!("SysvarRent111111111111111111111111111111111", Rent)` defines; its
/// contract gives the base58 decoding of that string.
#[verifier::external_body]
pub(crate) fn rent_sysvar_id() -> (r: Address)
    ensures
        r@ == rent_sysvar_key(),
{
    Address { bytes: solana_program::sysvar::rent::id().to_bytes() }
}

/// `solana_program::sysvar::stake_history::id()`: the constant that
/// `declare_sysvar_id!("SysvarStakeHistory1111111111111111111111111", StakeHistory)` defines;
/// its contract gives the base58 decoding of that string.
#[verifier::external_body]
pub(crate) fn stake_history_sysvar_id() -> (r: Address)
    ensures
        r@ == stake_history_sysvar_key(),
{
    Address { bytes: solana_program::sysvar::stake_history::id().to_bytes() }
}

} // verus!
