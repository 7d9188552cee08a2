//! The records that the program keeps in its accounts.
use vstd::prelude::*;
use crate::address::Address;
use crate::periodicity::PaymentPeriodicity;

verus! {

/// Kind of record an account holds.
#[derive(Clone, Copy, Debug, PartialEq, Eq, Structural)]
pub enum Datatype {
    ValidatorProvider,
    Contract,
}

/// Header of a record: its kind and whether it has been written.
#[derive(Clone, Copy, Debug)]
pub struct Metadata {
    pub datatype: Datatype,
    pub is_initialized: bool,
    pub reserved: [u8; 8],
}

/// A validator service provider and its details.
#[derive(Clone, Debug)]
pub struct ValidatorProvider {
    pub meta_data: Metadata,
    pub owner: Address,
    pub payment_mint: Address,
    pub services: u64,
    pub rating: u32,
    pub review_count: u32,
    /// How many governances the provider is serving.
    pub serving_governance_count: u32,
    pub name: [u8; 128],
    pub description: [u8; 2048],
    pub reserved: [u8; 256],
}

/// A provider taken on by a governance.
#[derive(Clone, Copy, Debug)]
pub struct GovernanceProvider {
    pub governance_id: Address,
    pub validator_provider: Address,
    pub validator_provider_owner: Address,
    pub added_timestamp: u64,
    pub contract_count: u32,
}

/// A contract between a governance and a provider.
#[derive(Clone, Debug)]
pub struct GovernanceContract {
    pub meta_data: Metadata,
    pub governance_id: Address,
    pub contract_creator: Address,
    pub validator_provider: Address,
    pub validator_provider_owner: Address,
    pub provider_token_account: Address,
    pub services_to_be_provided: u64,
    pub contract_start_timestamp: u64,
    pub contract_end_timestamp: u64,
    pub initial_amount_paid: u64,
    pub recurring_amount_to_be_paid: u64,
    pub recurring_amount_already_paid: u64,
    pub periodicity: PaymentPeriodicity,
    pub number_of_periods: u32,
    pub payment_mint: Address,
    pub dao_payment_account: Address,
    pub has_signed_by_provider: bool,
    pub executed: bool,
    pub reserved: [u8; 256],
}

/// `n` zero bytes.
pub open spec fn zeros(n: nat) -> Seq<u8> {
    Seq::new(n, |i: int| 0u8)
}

/// `bytes` followed by zeros up to `n` bytes in all.
pub open spec fn zero_padded(bytes: Seq<u8>, n: nat) -> Seq<u8> {
    bytes + zeros((n - bytes.len()) as nat)
}

/// Whether a header marks an initialized record of the given kind.
pub open spec fn is_fresh_header(m: Metadata, kind: Datatype) -> bool {
    &&& m.datatype == kind
    &&& m.is_initialized
    &&& m.reserved@ == zeros(8)
}

/// The header of a freshly written record of the given kind.
pub fn fresh_header(kind: Datatype) -> (r: Metadata)
    ensures
        is_fresh_header(r, kind),
{
    let r = Metadata { datatype: kind, is_initialized: true, reserved: [0u8; 8] };
    assert(r.reserved@ =~= zeros(8));
    r
}

/// An array of 256 zero bytes.
pub fn zeroed_reserve() -> (r: [u8; 256])
    ensures
        r@ == zeros(256),
{
    let r = [0u8; 256];
    assert(r@ =~= zeros(256));
    r
}

} // verus!
