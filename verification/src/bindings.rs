//! Messages that the contract hands to the chain's native badge module.

use vstd::prelude::*;

verus! {

/// A custom chain message understood by the badge chain.
#[derive(Clone, Debug, PartialEq, Eq)]
pub enum BitbadgesMsg {
    BadgeModule(BadgeModuleMsg),
}

/// Every message that can go to the native badge module.
#[derive(Clone, Debug, PartialEq, Eq)]
pub enum BadgeModuleMsg {
    RegisterAddresses { addresses_to_register: Vec<String> },
}

impl From<BadgeModuleMsg> for BitbadgesMsg {
    /// Wraps a badge module message as a custom chain message.
    fn from(msg: BadgeModuleMsg) -> (wrapped: Self) {
        BitbadgesMsg::BadgeModule(msg)
    }
}

impl vstd::std_specs::convert::FromSpecImpl<BadgeModuleMsg> for BitbadgesMsg {
    open spec fn obeys_from_spec() -> bool {
        true
    }

    open spec fn from_spec(msg: BadgeModuleMsg) -> Self {
        BitbadgesMsg::BadgeModule(msg)
    }
}

/// The message that asks the badge module to register `addresses`.
pub open spec fn registration_msg(addresses: Vec<String>) -> BitbadgesMsg {
    BitbadgesMsg::BadgeModule(BadgeModuleMsg::RegisterAddresses { addresses_to_register: addresses })
}

} // verus!
