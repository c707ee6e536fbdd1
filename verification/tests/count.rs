use counter_contract::contract::{count, execute, instantiate, query};
use counter_contract::entry;
use counter_contract::msg::{
    decode_response, encode_query, ExecuteMsg, InstantiateMsg, QueryMsg,
};
use counter_contract::state::{Identity, MessageInfo};
use counter_contract::store::MemStore;
use counter_contract::ContractError;

// constants for testing
const USER: &[u8] = b"user";
const ADMIN: &[u8] = b"admin";

fn info(sender: &[u8]) -> MessageInfo {
    MessageInfo { sender: Identity::new(sender.to_vec()) }
}

/// Instantiates the contract on a fresh store, as the admin.
fn setup() -> MemStore {
    let mut store = MemStore::new();
    let msg = InstantiateMsg { count: 1i32 };
    instantiate(&mut store, info(ADMIN), msg).unwrap();
    store
}

#[test]
fn count_count() {
    // Set up the contract
    let mut store = setup();

    // Increment the count of the contract, with the caller set to user
    execute(&mut store, info(USER), ExecuteMsg::Increment {}).unwrap();

    // Get the count.
    let count1 = count(&store).unwrap();

    // or query it manually
    let count2 = decode_response(&query(&store, QueryMsg::GetCount {}).unwrap()).unwrap();
    assert_eq!(count1.count, count2.count);

    // Or get it through the serialized calling convention
    let query_bytes = encode_query(QueryMsg::GetCount {});
    let count3 = decode_response(&entry::query(&store, &query_bytes).unwrap()).unwrap();
    assert_eq!(count1.count, count3.count);

    // Check the count
    assert_eq!(count1.count, 2);
    // Reset
    execute(&mut store, info(ADMIN), ExecuteMsg::Reset { count: 0 }).unwrap();

    let value = count(&store).unwrap();
    assert_eq!(value.count, 0);

    // Check negative case
    let exec_res = execute(&mut store, info(USER), ExecuteMsg::Reset { count: 0 });

    let expected_err = ContractError::Unauthorized;
    assert_eq!(exec_res.unwrap_err(), expected_err);
}

#[test]
fn integration_tests_count() {
    // Set up the contract
    let mut store = setup();

    // Increment the count of the contract, with the caller set to user
    execute(&mut store, info(USER), ExecuteMsg::Increment {}).unwrap();

    // Get the count.
    let count1 = count(&store).unwrap();

    // or query it manually
    let count2 = decode_response(&query(&store, QueryMsg::GetCount {}).unwrap()).unwrap();
    assert_eq!(count1.count, count2.count);

    // Or get it through the serialized calling convention
    let query_bytes = encode_query(QueryMsg::GetCount {});
    let count3 = decode_response(&entry::query(&store, &query_bytes).unwrap()).unwrap();
    assert_eq!(count1.count, count3.count);

    // Check the count
    assert_eq!(count1.count, 2);
    // Reset
    execute(&mut store, info(ADMIN), ExecuteMsg::Reset { count: 0 }).unwrap();

    let value = count(&store).unwrap();
    assert_eq!(value.count, 0);

    // Check negative case
    let exec_res = execute(&mut store, info(USER), ExecuteMsg::Reset { count: 0 });

    let expected_err = ContractError::Unauthorized;
    assert_eq!(exec_res.unwrap_err(), expected_err);
}
