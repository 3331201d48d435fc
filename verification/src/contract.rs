//! The contract's entry points, as decisions over plain values.
//!
//! The caller loads and saves `State` and asks the host to humanize the
//! contract's own address; these functions take what those calls returned.

use vstd::prelude::*;
use cosmwasm_std::StdError;

use crate::bindings::{registration_msg, BadgeModuleMsg, BitbadgesMsg};
use crate::error::ContractError;
use crate::msg::{HandleMsg, InitMsg};
use crate::state::State;

verus! {

/// A key/value pair in a response's log.
#[derive(Clone, Debug, PartialEq, Eq)]
pub struct LogAttribute {
    pub key: String,
    pub value: String,
}

/// The answer to an instantiation. It dispatches no messages.
#[derive(Clone, Debug, PartialEq, Eq)]
pub struct InitResponse {
    pub log: Vec<LogAttribute>,
    pub data: Option<Vec<u8>>,
}

/// The answer to an execution: the custom chain messages to dispatch, in order.
#[derive(Clone, Debug, PartialEq, Eq)]
pub struct HandleResponse {
    pub messages: Vec<BitbadgesMsg>,
    pub log: Vec<LogAttribute>,
    pub data: Option<Vec<u8>>,
}

/// The state that instantiation by `sender` with `msg` writes.
pub open spec fn init_state(sender: Vec<u8>, msg: InitMsg) -> State {
    State { addresses_to_register: msg.addresses_to_register, owner: sender }
}

/// `res` is what a registration request answers, given the state as loaded
/// (or the load's error), the sender, and the host's humanization of the
/// contract's address (or its error). Errors come in this order: the load,
/// then the owner check, then the address API.
pub open spec fn register_outcome(
    loaded: Result<State, StdError>,
    sender: Seq<u8>,
    contract_human: Result<String, StdError>,
    res: Result<HandleResponse, ContractError>,
) -> bool {
    match loaded {
        Err(e) => res == Err::<HandleResponse, ContractError>(ContractError::Std(e)),
        Ok(state) => if state.owner@ != sender {
            res == Err::<HandleResponse, ContractError>(ContractError::Unauthorized)
        } else {
            match contract_human {
                Err(e) => res == Err::<HandleResponse, ContractError>(ContractError::Std(e)),
                Ok(_) => {
                    &&& res is Ok
                    &&& res->Ok_0.messages@ == seq![registration_msg(state.addresses_to_register)]
                    &&& res->Ok_0.log@ == Seq::<LogAttribute>::empty()
                    &&& res->Ok_0.data is None
                },
            }
        },
    }
}

/// Instantiation by `sender`: the state to save, and the response.
pub fn init(sender: Vec<u8>, msg: InitMsg) -> (out: (State, InitResponse))
    ensures
        out.0 == init_state(sender, msg),
        out.1.log@ == Seq::<LogAttribute>::empty(),
        out.1.data is None,
{
    let state = State { addresses_to_register: msg.addresses_to_register, owner: sender };
    (state, InitResponse { log: Vec::new(), data: None })
}

/// Dispatches an execution request.
pub fn handle(
    msg: HandleMsg,
    loaded: Result<State, StdError>,
    sender: &Vec<u8>,
    contract_human: Result<String, StdError>,
) -> (res: Result<HandleResponse, ContractError>)
    ensures
        match msg {
            HandleMsg::Register {} => register_outcome(loaded, sender@, contract_human, res),
        },
{
    match msg {
        HandleMsg::Register {} => register(loaded, sender, contract_human),
    }
}

/// Registration: only the owner may ask, and then the badge module is asked
/// to register the stored addresses.
pub fn register(
    loaded: Result<State, StdError>,
    sender: &Vec<u8>,
    contract_human: Result<String, StdError>,
) -> (res: Result<HandleResponse, ContractError>)
    ensures
        register_outcome(loaded, sender@, contract_human, res),
{
    let state = match loaded {
        Ok(state) => state,
        Err(e) => return Err(ContractError::Std(e)),
    };
    if !same_address(sender, &state.owner) {
        return Err(ContractError::Unauthorized);
    }
    match contract_human {
        Ok(_) => {},
        Err(e) => return Err(ContractError::Std(e)),
    }
    let msg = BitbadgesMsg::from(
        BadgeModuleMsg::RegisterAddresses { addresses_to_register: state.addresses_to_register },
    );
    let mut messages: Vec<BitbadgesMsg> = Vec::new();
    messages.push(msg);
    Ok(HandleResponse { messages, log: Vec::new(), data: None })
}

/// Whether two canonical addresses are the same bytes.
fn same_address(a: &Vec<u8>, b: &Vec<u8>) -> (same: bool)
    ensures
        same <==> a@ == b@,
{
    if a.len() != b.len() {
        return false;
    }
    let mut i: usize = 0;
    while i < a.len()
        invariant
            a@.len() == b@.len(),
            0 <= i <= a@.len(),
            forall|j: int| 0 <= j < i ==> a@[j] == b@[j],
        decreases a@.len() - i,
    {
        if a[i] != b[i] {
            return false;
        }
        i = i + 1;
    }
    assert(a@ =~= b@);
    true
}

/// Law: after `owner` instantiated the contract with `msg`, a registration
/// that `owner` sends, with the address API answering, is accepted and
/// dispatches exactly one message: the registration of the addresses given at
/// instantiation, with an empty log and no data.
pub proof fn lemma_owner_registers_instantiated_addresses(
    owner: Vec<u8>,
    msg: InitMsg,
    contract_human: String,
    res: Result<HandleResponse, ContractError>,
)
    requires
        register_outcome(Ok(init_state(owner, msg)), owner@, Ok(contract_human), res),
    ensures
        res is Ok,
        res->Ok_0.messages@ == seq![registration_msg(msg.addresses_to_register)],
        res->Ok_0.log@.len() == 0,
        res->Ok_0.data is None,
{
}

/// Law: after `owner` instantiated the contract, a registration from any other
/// account is refused as unauthorized, whatever the address API answers.
pub proof fn lemma_only_owner_registers(
    owner: Vec<u8>,
    msg: InitMsg,
    sender: Vec<u8>,
    contract_human: Result<String, StdError>,
    res: Result<HandleResponse, ContractError>,
)
    requires
        sender@ != owner@,
        register_outcome(Ok(init_state(owner, msg)), sender@, contract_human, res),
    ensures
        res == Err::<HandleResponse, ContractError>(ContractError::Unauthorized),
{
}

/// Law: registration reads the state and never depends on anything else that
/// could change between calls, the address API's answer included: two
/// registrations by the same sender from the same state, both with the address
/// API answering (with any names), give the same messages, log and data.
pub proof fn lemma_registration_repeats(
    state: State,
    sender: Seq<u8>,
    first_human: String,
    second_human: String,
    first: Result<HandleResponse, ContractError>,
    second: Result<HandleResponse, ContractError>,
)
    requires
        register_outcome(Ok(state), sender, Ok(first_human), first),
        register_outcome(Ok(state), sender, Ok(second_human), second),
    ensures
        first is Ok <==> second is Ok,
        first is Ok ==> first->Ok_0.messages@ == second->Ok_0.messages@,
        first is Ok ==> first->Ok_0.log@ == second->Ok_0.log@,
        first is Ok ==> first->Ok_0.data == second->Ok_0.data,
        first is Err ==> first == second,
{
}

/// Law: whatever the inputs, an accepted registration dispatches exactly one
/// message, the registration of the stored addresses, logs nothing and returns
/// no data; and only the stored owner's registration is ever accepted.
pub proof fn lemma_accepted_registration_shape(
    loaded: Result<State, StdError>,
    sender: Seq<u8>,
    contract_human: Result<String, StdError>,
    res: Result<HandleResponse, ContractError>,
)
    requires
        register_outcome(loaded, sender, contract_human, res),
        res is Ok,
    ensures
        loaded is Ok,
        loaded->Ok_0.owner@ == sender,
        contract_human is Ok,
        res->Ok_0.messages@.len() == 1,
        res->Ok_0.messages@[0] == registration_msg(loaded->Ok_0.addresses_to_register),
        res->Ok_0.log@.len() == 0,
        res->Ok_0.data is None,
{
}

/// Law: the host's errors are passed on unchanged and in order. A failed load
/// is answered with that very error, whatever else holds; with the state
/// loaded, any sender but the stored owner is refused as unauthorized, whatever
/// the address API answered; and only for the owner does an error of the
/// address API come back, as it came.
pub proof fn lemma_errors_in_order(
    loaded: Result<State, StdError>,
    sender: Seq<u8>,
    contract_human: Result<String, StdError>,
    res: Result<HandleResponse, ContractError>,
)
    requires
        register_outcome(loaded, sender, contract_human, res),
    ensures
        loaded is Err ==> res == Err::<HandleResponse, ContractError>(
            ContractError::Std(loaded->Err_0),
        ),
        loaded is Ok && loaded->Ok_0.owner@ != sender ==> res == Err::<
            HandleResponse,
            ContractError,
        >(ContractError::Unauthorized),
        loaded is Ok && loaded->Ok_0.owner@ == sender && contract_human is Err ==> res == Err::<
            HandleResponse,
            ContractError,
        >(ContractError::Std(contract_human->Err_0)),
        loaded is Ok && loaded->Ok_0.owner@ == sender && contract_human is Ok ==> res is Ok,
{
}

} // verus!
