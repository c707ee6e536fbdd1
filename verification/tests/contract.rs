use counter_contract::contract::{count, execute, instantiate, query};
use counter_contract::msg::{decode_response, ExecuteMsg, InstantiateMsg, QueryMsg};
use counter_contract::state::{Identity, MessageInfo};
use counter_contract::store::MemStore;
use counter_contract::ContractError;

fn info(sender: &[u8]) -> MessageInfo {
    MessageInfo { sender: Identity::new(sender.to_vec()) }
}

#[test]
fn proper_initialization() {
    let mut deps = MemStore::new();

    let msg = InstantiateMsg { count: 17 };

    // we can just call .unwrap() to assert this was a success
    let res = instantiate(&mut deps, info(b"creator"), msg).unwrap();
    assert_eq!(0, res.messages.len());

    // it worked, let's query the state
    let res = query(&deps, QueryMsg::GetCount {}).unwrap();
    let value = decode_response(&res).unwrap();
    assert_eq!(17, value.count);
}

#[test]
fn increment() {
    let mut deps = MemStore::new();

    let msg = InstantiateMsg { count: 17 };
    let _res = instantiate(&mut deps, info(b"creator"), msg).unwrap();

    // beneficiary can release it
    let msg = ExecuteMsg::Increment {};
    let _res = execute(&mut deps, info(b"anyone"), msg).unwrap();

    // should increase counter by 1
    let res = query(&deps, QueryMsg::GetCount {}).unwrap();
    let value = decode_response(&res).unwrap();
    assert_eq!(18, value.count);
}

#[test]
fn reset() {
    let mut deps = MemStore::new();

    let msg = InstantiateMsg { count: 17 };
    let _res = instantiate(&mut deps, info(b"creator"), msg).unwrap();

    // beneficiary can release it
    let msg = ExecuteMsg::Reset { count: 5 };
    let res = execute(&mut deps, info(b"anyone"), msg);
    match res {
        Err(ContractError::Unauthorized) => {}
        _ => panic!("Must return unauthorized error"),
    }

    // only the original creator can reset the counter
    let msg = ExecuteMsg::Reset { count: 5 };
    let _res = execute(&mut deps, info(b"creator"), msg).unwrap();

    // should now be 5
    let value = count(&deps).unwrap();
    assert_eq!(5, value.count);
}
