//! Errors of the contract.

use vstd::prelude::*;
use cosmwasm_std::StdError;

verus! {

/// `cosmwasm_std::StdError`, the platform's error type, declared so that an
/// error that the host (storage, address API) reports can pass through the
/// contract unchanged. Verus sees nothing inside it, and nothing is claimed
/// of it: it is only carried.
#[verifier::external_type_specification]
#[verifier::external_body]
pub struct ExStdError(StdError);

/// Why a request was refused.
#[derive(Debug, PartialEq)]
pub enum ContractError {
    /// The sender is not the account that instantiated the contract.
    Unauthorized,
    /// An error that the host reported, passed on as it came.
    Std(StdError),
}

} // verus!
