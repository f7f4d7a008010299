//! The failures that the library reports.

use vstd::prelude::*;
use parsec_interface::requests::ResponseStatus;
use psa_crypto::types::status::Error;
use crate::outside::{backend_status, response_status_from};

verus! {

/// Why a key operation failed.
#[derive(Clone, Copy, Debug, PartialEq, Eq)]
pub enum KeyError {
    /// The store holds no record for the triple.
    DoesNotExist,
    /// The store already holds a record for the triple.
    AlreadyExists,
    /// Every identifier that the backend accepts has been handed out.
    ResourceExhausted,
    /// The store reported an error, or holds a record that cannot be read.
    StoreFailure,
    /// The backend refused the operation, with this code.
    BackendFailure(Error),
}

impl KeyError {
    /// The status code under which the failure travels to the client.
    pub open spec fn status(self) -> ResponseStatus {
        match self {
            KeyError::DoesNotExist => ResponseStatus::PsaErrorDoesNotExist,
            KeyError::AlreadyExists => ResponseStatus::PsaErrorAlreadyExists,
            KeyError::ResourceExhausted => ResponseStatus::PsaErrorInsufficientMemory,
            KeyError::StoreFailure => ResponseStatus::KeyInfoManagerError,
            KeyError::BackendFailure(error) => backend_status(error),
        }
    }

    pub fn to_response_status(self) -> (status: ResponseStatus)
        ensures
            status == self.status(),
    {
        match self {
            KeyError::DoesNotExist => ResponseStatus::PsaErrorDoesNotExist,
            KeyError::AlreadyExists => ResponseStatus::PsaErrorAlreadyExists,
            KeyError::ResourceExhausted => ResponseStatus::PsaErrorInsufficientMemory,
            KeyError::StoreFailure => ResponseStatus::KeyInfoManagerError,
            KeyError::BackendFailure(error) => response_status_from(error),
        }
    }
}

/// What the library makes of a store's answer: the value where there is one,
/// `StoreFailure` in place of any error text.
pub open spec fn store_answer<T>(outcome: Result<T, String>) -> Result<T, KeyError> {
    match outcome {
        Ok(value) => Ok(value),
        Err(_) => Err(KeyError::StoreFailure),
    }
}

/// Turns an error of the store into `StoreFailure`. Its text ends here: it never
/// reaches a client.
pub fn to_store_failure(message: String) -> (error: KeyError)
    ensures
        error == KeyError::StoreFailure,
{
    KeyError::StoreFailure
}

pub fn from_store<T>(outcome: Result<T, String>) -> (r: Result<T, KeyError>)
    ensures
        r == store_answer(outcome),
{
    match outcome {
        Ok(value) => Ok(value),
        Err(message) => Err(to_store_failure(message)),
    }
}

} // verus!
