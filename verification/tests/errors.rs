use counter_contract::contract::{count, execute, instantiate, query};
use counter_contract::entry;
use counter_contract::msg::{encode_execute, ExecuteMsg, InstantiateMsg, QueryMsg};
use counter_contract::state::{Identity, MessageInfo};
use counter_contract::store::{MemStore, Store};
use counter_contract::ContractError;

fn info(sender: &[u8]) -> MessageInfo {
    MessageInfo { sender: Identity::new(sender.to_vec()) }
}

#[test]
fn query_before_instantiation_is_uninitialized() {
    let store = MemStore::new();
    assert_eq!(query(&store, QueryMsg::GetCount {}).unwrap_err(), ContractError::Uninitialized);
    assert_eq!(count(&store).unwrap_err(), ContractError::Uninitialized);
}

#[test]
fn execute_before_instantiation_is_uninitialized() {
    let mut store = MemStore::new();
    let err = execute(&mut store, info(b"anyone"), ExecuteMsg::Increment {}).unwrap_err();
    assert_eq!(err, ContractError::Uninitialized);
    let err = execute(&mut store, info(b"anyone"), ExecuteMsg::Reset { count: 3 }).unwrap_err();
    assert_eq!(err, ContractError::Uninitialized);
    // the failed calls left the store untouched
    assert_eq!(count(&store).unwrap_err(), ContractError::Uninitialized);
}

#[test]
fn corrupt_record_is_a_serialization_error() {
    let mut store = MemStore::new();
    instantiate(&mut store, info(b"creator"), InstantiateMsg { count: 4 }).unwrap();
    // overwrite the record with bytes too short to hold a counter
    store.set(b"config".to_vec(), vec![1u8, 2u8, 3u8]);
    assert_eq!(count(&store).unwrap_err(), ContractError::SerializationError);
    let err = execute(&mut store, info(b"creator"), ExecuteMsg::Increment {}).unwrap_err();
    assert_eq!(err, ContractError::SerializationError);
}

#[test]
fn reset_by_non_owner_is_unauthorized() {
    let mut store = MemStore::new();
    instantiate(&mut store, info(b"creator"), InstantiateMsg { count: 4 }).unwrap();
    let err = execute(&mut store, info(b"intruder"), ExecuteMsg::Reset { count: 0 }).unwrap_err();
    assert_eq!(err, ContractError::Unauthorized);
    assert_eq!(count(&store).unwrap().count, 4);
}

#[test]
fn unparseable_messages_are_malformed() {
    let mut store = MemStore::new();
    let err = entry::instantiate(&mut store, info(b"creator"), &vec![1u8, 2u8]).unwrap_err();
    assert_eq!(err, ContractError::MalformedMessage);

    // set up properly, then feed garbage to execute and query
    entry::instantiate(&mut store, info(b"creator"), &vec![0u8, 0u8, 0u8, 128u8]).unwrap();
    let err = entry::execute(&mut store, info(b"creator"), &vec![9u8; 3]).unwrap_err();
    assert_eq!(err, ContractError::MalformedMessage);
    let err = entry::query(&store, &vec![]).unwrap_err();
    assert_eq!(err, ContractError::MalformedMessage);

    // a malformed execute left the counter alone
    assert_eq!(count(&store).unwrap().count, 0);

    // well-formed bytes still work
    let ok = entry::execute(&mut store, info(b"creator"), &encode_execute(ExecuteMsg::Increment {}));
    assert!(ok.is_ok());
    assert_eq!(count(&store).unwrap().count, 1);
}
