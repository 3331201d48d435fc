use cosmwasm_std::{generic_err, not_found, StdError};
use maker::contract::{handle, init, register};
use maker::{BadgeModuleMsg, BitbadgesMsg, ContractError, HandleMsg, InitMsg, State};

fn addrs() -> Vec<String> {
    vec!["cosmos1alice".to_string(), "cosmos1bob".to_string()]
}

fn owner() -> Vec<u8> {
    b"creator".to_vec()
}

fn instantiated() -> State {
    init(owner(), InitMsg { addresses_to_register: addrs() }).0
}

fn registration(addresses: Vec<String>) -> BitbadgesMsg {
    BitbadgesMsg::BadgeModule(BadgeModuleMsg::RegisterAddresses {
        addresses_to_register: addresses,
    })
}

#[test]
fn init_stores_sender_and_addresses() {
    let (state, response) = init(owner(), InitMsg { addresses_to_register: addrs() });
    assert_eq!(state, State { addresses_to_register: addrs(), owner: owner() });
    assert!(response.log.is_empty());
    assert_eq!(response.data, None);
}

#[test]
fn init_with_no_addresses() {
    let (state, _) = init(vec![], InitMsg { addresses_to_register: vec![] });
    assert!(state.addresses_to_register.is_empty());
    assert!(state.owner.is_empty());
}

#[test]
fn owner_registers_the_stored_addresses() {
    let res = register(Ok(instantiated()), &owner(), Ok("contract".to_string())).unwrap();
    assert_eq!(res.messages, vec![registration(addrs())]);
    assert!(res.log.is_empty());
    assert_eq!(res.data, None);
}

#[test]
fn only_owner_can_register() {
    let res = register(Ok(instantiated()), &b"someone else".to_vec(), Ok("contract".to_string()));
    assert_eq!(res, Err(ContractError::Unauthorized));
}

#[test]
fn sender_that_is_a_prefix_of_the_owner_is_refused() {
    let res = register(Ok(instantiated()), &b"creat".to_vec(), Ok("contract".to_string()));
    assert_eq!(res, Err(ContractError::Unauthorized));
}

#[test]
fn sender_of_same_length_but_other_bytes_is_refused() {
    let res = register(Ok(instantiated()), &b"creatos".to_vec(), Ok("contract".to_string()));
    assert_eq!(res, Err(ContractError::Unauthorized));
}

#[test]
fn missing_state_is_reported_first() {
    let res = register(Err(not_found("State")), &owner(), Err(generic_err("api down")));
    assert_eq!(res, Err(ContractError::Std(not_found("State"))));
}

#[test]
fn unauthorized_comes_before_address_api_error() {
    let res = register(Ok(instantiated()), &b"intruder".to_vec(), Err(generic_err("api down")));
    assert_eq!(res, Err(ContractError::Unauthorized));
}

#[test]
fn address_api_error_is_passed_on_for_the_owner() {
    let res = register(Ok(instantiated()), &owner(), Err(generic_err("api down")));
    match res {
        Err(ContractError::Std(StdError::GenericErr { msg, .. })) => assert_eq!(msg, "api down"),
        other => panic!("expected the address API error, got {:?}", other),
    }
}

#[test]
fn handle_dispatches_register() {
    let direct = register(Ok(instantiated()), &owner(), Ok("contract".to_string()));
    let through = handle(HandleMsg::Register {}, Ok(instantiated()), &owner(), Ok("contract".to_string()));
    assert_eq!(direct, through);
    assert_eq!(through.unwrap().messages, vec![registration(addrs())]);
}

#[test]
fn registering_twice_gives_the_same_message() {
    let first = register(Ok(instantiated()), &owner(), Ok("a".to_string())).unwrap();
    let second = register(Ok(instantiated()), &owner(), Ok("b".to_string())).unwrap();
    assert_eq!(first.messages, second.messages);
}

#[test]
fn register_with_empty_address_list() {
    let (state, _) = init(owner(), InitMsg { addresses_to_register: vec![] });
    let res = register(Ok(state), &owner(), Ok("contract".to_string())).unwrap();
    assert_eq!(res.messages, vec![registration(vec![])]);
}

#[test]
fn badge_module_message_wraps_as_custom_message() {
    let inner = BadgeModuleMsg::RegisterAddresses { addresses_to_register: addrs() };
    let wrapped: BitbadgesMsg = inner.clone().into();
    assert_eq!(wrapped, BitbadgesMsg::BadgeModule(inner));
}
