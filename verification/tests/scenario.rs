use counter_contract::contract::{count, execute, instantiate};
use counter_contract::msg::{ExecuteMsg, InstantiateMsg};
use counter_contract::state::{Identity, MessageInfo};
use counter_contract::store::{MemStore, Store};
use counter_contract::ContractError;

fn info(sender: &[u8]) -> MessageInfo {
    MessageInfo { sender: Identity::new(sender.to_vec()) }
}

#[test]
fn full_lifecycle_scenario() {
    let mut store = MemStore::new();

    // instantiate(count=17), then read it back
    instantiate(&mut store, info(b"creator"), InstantiateMsg { count: 17 }).unwrap();
    assert_eq!(count(&store).unwrap().count, 17);

    // any caller may increment
    execute(&mut store, info(b"anyone"), ExecuteMsg::Increment {}).unwrap();
    assert_eq!(count(&store).unwrap().count, 18);

    // a reset by a non-owner fails and changes nothing
    let err = execute(&mut store, info(b"anyone"), ExecuteMsg::Reset { count: 5 }).unwrap_err();
    assert_eq!(err, ContractError::Unauthorized);
    assert_eq!(count(&store).unwrap().count, 18);

    // a reset by the owner takes effect
    execute(&mut store, info(b"creator"), ExecuteMsg::Reset { count: 5 }).unwrap();
    assert_eq!(count(&store).unwrap().count, 5);
}

#[test]
fn repeated_queries_return_identical_results() {
    let mut store = MemStore::new();
    instantiate(&mut store, info(b"creator"), InstantiateMsg { count: -3 }).unwrap();

    let first = count(&store).unwrap();
    let second = count(&store).unwrap();
    let third = count(&store).unwrap();
    assert_eq!(first, second);
    assert_eq!(second, third);
    assert_eq!(first.count, -3);
}

#[test]
fn increment_wraps_at_the_top_of_the_range() {
    let mut store = MemStore::new();
    instantiate(&mut store, info(b"creator"), InstantiateMsg { count: i32::MAX }).unwrap();
    execute(&mut store, info(b"creator"), ExecuteMsg::Increment {}).unwrap();
    assert_eq!(count(&store).unwrap().count, i32::MIN);
}

#[test]
fn increments_add_up_for_any_callers() {
    let mut store = MemStore::new();
    instantiate(&mut store, info(b"creator"), InstantiateMsg { count: 40 }).unwrap();
    let callers: [&[u8]; 3] = [b"a", b"b", b"creator"];
    for caller in callers {
        execute(&mut store, info(caller), ExecuteMsg::Increment {}).unwrap();
    }
    assert_eq!(count(&store).unwrap().count, 43);
}

#[test]
fn owner_survives_resets_and_increments() {
    let mut store = MemStore::new();
    instantiate(&mut store, info(b"creator"), InstantiateMsg { count: 0 }).unwrap();
    execute(&mut store, info(b"creator"), ExecuteMsg::Reset { count: 100 }).unwrap();
    execute(&mut store, info(b"someone"), ExecuteMsg::Increment {}).unwrap();
    // still only the original creator may reset
    let err = execute(&mut store, info(b"someone"), ExecuteMsg::Reset { count: 0 }).unwrap_err();
    assert_eq!(err, ContractError::Unauthorized);
    execute(&mut store, info(b"creator"), ExecuteMsg::Reset { count: 7 }).unwrap();
    assert_eq!(count(&store).unwrap().count, 7);
}

#[test]
fn execute_announces_its_action() {
    let mut store = MemStore::new();
    let res = instantiate(&mut store, info(b"creator"), InstantiateMsg { count: 1 }).unwrap();
    assert!(res.messages.is_empty());
    assert!(res.attributes.is_empty());

    let res = execute(&mut store, info(b"creator"), ExecuteMsg::Increment {}).unwrap();
    assert_eq!(res.attributes, vec![(b"action".to_vec(), b"increment".to_vec())]);
    assert!(res.messages.is_empty());

    let res = execute(&mut store, info(b"creator"), ExecuteMsg::Reset { count: 2 }).unwrap();
    assert_eq!(res.attributes, vec![(b"action".to_vec(), b"reset".to_vec())]);
    assert!(res.messages.is_empty());
}

#[test]
fn store_set_replaces_earlier_values() {
    let mut store = MemStore::new();
    store.set(b"k".to_vec(), b"one".to_vec());
    store.set(b"k".to_vec(), b"two".to_vec());
    store.set(b"other".to_vec(), b"three".to_vec());
    assert_eq!(store.get(&b"k".to_vec()), Some(b"two".to_vec()));
    assert_eq!(store.get(&b"other".to_vec()), Some(b"three".to_vec()));
    assert_eq!(store.get(&b"absent".to_vec()), None);
}

#[test]
fn identities_compare_by_bytes() {
    let a = Identity::new(b"alice".to_vec());
    let b = Identity::new(b"alice".to_vec());
    let c = Identity::new(b"bob".to_vec());
    assert!(a == b);
    assert!(!(a == c));
    assert_eq!(a.duplicate().bytes, b.bytes);
}
