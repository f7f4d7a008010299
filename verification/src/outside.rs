//! What the library takes from `psa_crypto` and `parsec_interface`. Nothing in
//! this file is proved: each contract restates what the source of those crates
//! shows.

use vstd::prelude::*;
use parsec_interface::requests::{ProviderId, ResponseStatus};
use psa_crypto::types::key::Attributes;
use psa_crypto::types::status::Error;

verus! {

/// `psa_crypto::types::key::Attributes`, the description of a key. The library
/// never looks inside a value of it: it stores what the caller gave and hands
/// it back.
#[verifier::external_type_specification]
#[verifier::external_body]
pub struct ExAttributes(Attributes);

/// `psa_crypto::types::status::Error`, the code with which a backend operation
/// fails. The library passes it on unread.
#[verifier::external_type_specification]
#[verifier::external_body]
pub struct ExError(Error);

/// `parsec_interface::requests::ProviderId`, an enum of provider tags without
/// fields.
#[verifier::external_type_specification]
pub struct ExProviderId(ProviderId);

/// `parsec_interface::requests::ResponseStatus`, an enum of status codes
/// without fields.
#[verifier::external_type_specification]
pub struct ExResponseStatus(ResponseStatus);

/// The status that `parsec_interface` assigns to a backend error.
pub uninterp spec fn backend_status(error: Error) -> ResponseStatus;

/// Calls `<ResponseStatus as From<psa_crypto::types::status::Error>>::from`.
/// That function is a `match` with one arm for each error code, so its result
/// depends on the code alone; the contract gives that result its name and
/// says nothing else of it.
#[verifier::external_body]
pub(crate) fn response_status_from(error: Error) -> (status: ResponseStatus)
    ensures
        status == backend_status(error),
{
    ResponseStatus::from(error)
}

/// Reads the constant `psa_crypto::types::key::PSA_KEY_ID_USER_MAX`, which
/// `psa_crypto_sys` defines as `0x3fffffff`.
#[verifier::external_body]
pub(crate) fn key_id_user_max() -> (max: u32)
    ensures
        max == 0x3fff_ffffu32,
{
    psa_crypto::types::key::PSA_KEY_ID_USER_MAX
}

} // verus!
