//! Registering a validator service provider.
use vstd::prelude::*;
use vstd::utf8::encode_utf8;
use crate::address::Address;
use crate::errors::{DaoError, ValidatorDaoErrors};
use crate::instructions::RegisterValidatorServiceProvider;
use crate::states::{fresh_header, is_fresh_header, zero_padded, zeroed_reserve, zeros, Datatype, ValidatorProvider};

verus! {

/// Longest name, in bytes, that a provider may register.
pub const MAX_NAME_LEN: usize = 128;
/// Longest description, in bytes, that a provider may register.
pub const MAX_DESCRIPTION_LEN: usize = 1024;

/// Whether `p` is the record of a provider just registered by `owner`, paid in
/// `payment_mint`, offering `services`, with the UTF-8 bytes `name` and `description`.
pub open spec fn is_new_provider(
    p: ValidatorProvider,
    owner: Seq<u8>,
    payment_mint: Seq<u8>,
    services: u64,
    name: Seq<u8>,
    description: Seq<u8>,
) -> bool {
    &&& is_fresh_header(p.meta_data, Datatype::ValidatorProvider)
    &&& p.owner@ == owner
    &&& p.payment_mint@ == payment_mint
    &&& p.services == services
    &&& p.rating == 0
    &&& p.review_count == 0
    &&& p.serving_governance_count == 0
    &&& p.name@ == zero_padded(name, 128)
    &&& p.description@ == zero_padded(description, 2048)
    &&& p.reserved@ == zeros(256)
}

/// Whether `r` is what registering answers for the UTF-8 bytes `name` and `description`: a
/// name over 128 bytes is refused, then a description over 1024 bytes; else the new record.
pub open spec fn is_register_process_outcome(
    r: Result<ValidatorProvider, DaoError>,
    a: RegisterValidatorServiceProvider,
    services: u64,
    name: Seq<u8>,
    description: Seq<u8>,
) -> bool {
    if name.len() > 128 {
        r == Err::<ValidatorProvider, DaoError>(DaoError::Dao(ValidatorDaoErrors::NameTooLarge))
    } else if description.len() > 1024 {
        r == Err::<ValidatorProvider, DaoError>(DaoError::Dao(ValidatorDaoErrors::DescriptionTooLarge))
    } else {
        r matches Ok(p) && is_new_provider(p, a.owner.key@, a.payment_mint@, services, name, description)
    }
}

/// `bytes` written at the start of 128 zero bytes.
fn name_field(bytes: &[u8]) -> (r: [u8; 128])
    requires
        bytes@.len() <= 128,
    ensures
        r@ == zero_padded(bytes@, 128),
{
    let mut field = [0u8; 128];
    let mut i: usize = 0;
    while i < bytes.len()
        invariant
            bytes@.len() <= 128,
            i <= bytes@.len(),
            forall|j: int| 0 <= j < i ==> field@[j] == bytes@[j],
            forall|j: int| i <= j < 128 ==> field@[j] == 0,
        decreases bytes@.len() - i,
    {
        field[i] = bytes[i];
        i = i + 1;
    }
    assert(field@ =~= zero_padded(bytes@, 128));
    field
}

/// `bytes` written at the start of 2048 zero bytes.
fn description_field(bytes: &[u8]) -> (r: [u8; 2048])
    requires
        bytes@.len() <= 2048,
    ensures
        r@ == zero_padded(bytes@, 2048),
{
    let mut field = [0u8; 2048];
    let mut i: usize = 0;
    while i < bytes.len()
        invariant
            bytes@.len() <= 2048,
            i <= bytes@.len(),
            forall|j: int| 0 <= j < i ==> field@[j] == bytes@[j],
            forall|j: int| i <= j < 2048 ==> field@[j] == 0,
        decreases bytes@.len() - i,
    {
        field[i] = bytes[i];
        i = i + 1;
    }
    assert(field@ =~= zero_padded(bytes@, 2048));
    field
}

/// Registers the provider owned by the accounts' owner: the name may hold at most 128
/// bytes and the description at most 1024; the record keeps both, zero-padded.
pub fn process(
    accounts: &RegisterValidatorServiceProvider,
    services: u64,
    name: String,
    description: String,
) -> (r: Result<ValidatorProvider, DaoError>)
    ensures
        is_register_process_outcome(r, *accounts, services, encode_utf8(name@), encode_utf8(description@)),
{
    let name_bytes = name.as_str().as_bytes();
    let description_bytes = description.as_str().as_bytes();
    if name_bytes.len() > MAX_NAME_LEN {
        return Err(DaoError::Dao(ValidatorDaoErrors::NameTooLarge));
    }
    if description_bytes.len() > MAX_DESCRIPTION_LEN {
        return Err(DaoError::Dao(ValidatorDaoErrors::DescriptionTooLarge));
    }
    Ok(ValidatorProvider {
        meta_data: fresh_header(Datatype::ValidatorProvider),
        owner: accounts.owner.key,
        payment_mint: accounts.payment_mint,
        services,
        rating: 0,
        review_count: 0,
        serving_governance_count: 0,
        name: name_field(name_bytes),
        description: description_field(description_bytes),
        reserved: zeroed_reserve(),
    })
}

} // verus!
