//! The messages the contract accepts.

use vstd::prelude::*;

verus! {

/// Instantiation: the addresses that the contract will register.
#[derive(Clone, Debug, PartialEq, Eq)]
pub struct InitMsg {
    pub addresses_to_register: Vec<String>,
}

/// Execution requests.
#[derive(Clone, Debug, PartialEq, Eq)]
pub enum HandleMsg {
    /// Ask the badge module to register the stored addresses.
    Register {},
}

} // verus!
