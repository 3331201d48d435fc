//! A contract that, on behalf of the account that instantiated it, asks the
//! chain's badge module to register a fixed list of addresses.
//!
//! The verified library holds the contract's decisions: the state written at
//! instantiation, the owner check, and the message handed to the badge module.
//! Storage and the host's address API stay at the edge, with the caller.

pub mod bindings;
pub mod contract;
pub mod error;
pub mod msg;
pub mod state;

pub use bindings::{BadgeModuleMsg, BitbadgesMsg};
pub use contract::{handle, init, register, HandleResponse, InitResponse, LogAttribute};
pub use error::ContractError;
pub use msg::{HandleMsg, InitMsg};
pub use state::State;
