//! The contract's persistent configuration.

use vstd::prelude::*;

verus! {

/// What the contract keeps between calls.
#[derive(Clone, Debug, PartialEq, Eq)]
pub struct State {
    /// The addresses that a registration hands to the badge module.
    pub addresses_to_register: Vec<String>,
    /// Canonical address (raw bytes) of the account that instantiated the contract.
    pub owner: Vec<u8>,
}

} // verus!
