use pointer_ledger::contract::{
    execute, instantiate, query, query_get_pointer, query_get_state,
};
use pointer_ledger::error::ContractError;
use pointer_ledger::msg::{ExecuteMsg, InstantiateMsg, QueryAnswer, QueryMsg};
use pointer_ledger::state::Store;

#[test]
fn instantiate_contract() {
    let mut store = Store::new();

    let instantiate_msg = InstantiateMsg { owner: "owner".to_string() };

    let res = instantiate(&mut store, instantiate_msg);
    assert!(res.is_ok());

    let state = query_get_state(&store).unwrap();
    assert_eq!(state.owner, "owner".to_string());
}

#[test]
fn change_owner() {
    let mut store = Store::new();

    let instantiate_msg = InstantiateMsg { owner: "owner".to_string() };

    let res = instantiate(&mut store, instantiate_msg);
    assert!(res.is_ok());

    let state = query_get_state(&store).unwrap();
    assert_eq!(state.owner, "owner".to_string());

    let message = ExecuteMsg::ChangeOwner { address: "creator".to_string() };
    let res = execute(&mut store, "owner".to_string(), true, message);
    assert!(res.is_ok());

    let state = query_get_state(&store).unwrap();
    assert_eq!(state.owner, "creator".to_string());
}

#[test]
fn set_pointer() {
    let mut store = Store::new();

    let instantiate_msg = InstantiateMsg { owner: "owner".to_string() };

    let res = instantiate(&mut store, instantiate_msg);
    assert!(res.is_ok());

    let state = query_get_state(&store).unwrap();
    assert_eq!(state.owner, "owner".to_string());

    let message = ExecuteMsg::SetPointer {
        address: "user1".to_string(),
        token_type: "luna".to_string(),
        pointer: 100,
    };
    execute(&mut store, "owner".to_string(), true, message).unwrap();

    let pointer = query_get_pointer(&store, "user1".to_string(), "luna".to_string()).unwrap();
    assert_eq!(pointer, 100);

    let message = ExecuteMsg::SetPointer {
        address: "user1".to_string(),
        token_type: "luna".to_string(),
        pointer: 120,
    };
    execute(&mut store, "owner".to_string(), true, message).unwrap();

    let pointer = query_get_pointer(&store, "user1".to_string(), "luna".to_string()).unwrap();
    assert_eq!(pointer, 220);

    let message = ExecuteMsg::SetPointer {
        address: "user1".to_string(),
        token_type: "uusd".to_string(),
        pointer: 120,
    };
    execute(&mut store, "owner".to_string(), true, message).unwrap();

    let pointer = query_get_pointer(&store, "user1".to_string(), "uusd".to_string()).unwrap();
    assert_eq!(pointer, 120);

    let pointer = query_get_pointer(&store, "user3".to_string(), "uusd".to_string()).unwrap();
    assert_eq!(pointer, 0);
}

#[test]
fn non_owner_is_rejected_and_changes_nothing() {
    let mut store = Store::new();
    instantiate(&mut store, InstantiateMsg { owner: "owner".to_string() }).unwrap();

    let message = ExecuteMsg::SetPointer {
        address: "user1".to_string(),
        token_type: "luna".to_string(),
        pointer: 7,
    };
    let res = execute(&mut store, "intruder".to_string(), true, message);
    assert_eq!(res, Err(ContractError::Unauthorized));

    let message = ExecuteMsg::ChangeOwner { address: "intruder".to_string() };
    let res = execute(&mut store, "intruder".to_string(), true, message);
    assert_eq!(res, Err(ContractError::Unauthorized));

    let state = query_get_state(&store).unwrap();
    assert_eq!(state.owner, "owner".to_string());
    let pointer = query_get_pointer(&store, "user1".to_string(), "luna".to_string()).unwrap();
    assert_eq!(pointer, 0);
}

#[test]
fn malformed_address_reported_before_authorization() {
    let mut store = Store::new();
    instantiate(&mut store, InstantiateMsg { owner: "owner".to_string() }).unwrap();

    let message = ExecuteMsg::SetPointer {
        address: "bad".to_string(),
        token_type: "luna".to_string(),
        pointer: 7,
    };
    let res = execute(&mut store, "intruder".to_string(), false, message);
    assert_eq!(res, Err(ContractError::InvalidAddress));

    let message = ExecuteMsg::ChangeOwner { address: "bad".to_string() };
    let res = execute(&mut store, "intruder".to_string(), false, message);
    assert_eq!(res, Err(ContractError::InvalidAddress));
}

#[test]
fn accumulate_overflow_is_fatal_and_mutates_nothing() {
    let mut store = Store::new();
    instantiate(&mut store, InstantiateMsg { owner: "owner".to_string() }).unwrap();

    let message = ExecuteMsg::SetPointer {
        address: "user1".to_string(),
        token_type: "luna".to_string(),
        pointer: u128::MAX,
    };
    execute(&mut store, "owner".to_string(), true, message).unwrap();

    let message = ExecuteMsg::SetPointer {
        address: "user1".to_string(),
        token_type: "luna".to_string(),
        pointer: 1,
    };
    let res = execute(&mut store, "owner".to_string(), true, message);
    assert_eq!(res, Err(ContractError::ArithmeticOverflow));

    let pointer = query_get_pointer(&store, "user1".to_string(), "luna".to_string()).unwrap();
    assert_eq!(pointer, u128::MAX);
}

#[test]
fn uninitialized_store_reports_not_found() {
    let mut store = Store::new();

    let res = query_get_state(&store);
    assert_eq!(res.err(), Some(ContractError::NotFound));

    let message = ExecuteMsg::SetPointer {
        address: "user1".to_string(),
        token_type: "luna".to_string(),
        pointer: 7,
    };
    let res = execute(&mut store, "owner".to_string(), true, message);
    assert_eq!(res, Err(ContractError::NotFound));

    // The owner change judges the address format before reading the record.
    let message = ExecuteMsg::ChangeOwner { address: "bad".to_string() };
    let res = execute(&mut store, "owner".to_string(), false, message);
    assert_eq!(res, Err(ContractError::InvalidAddress));
}

#[test]
fn accumulation_matches_single_write() {
    let mut first = Store::new();
    instantiate(&mut first, InstantiateMsg { owner: "owner".to_string() }).unwrap();
    let mut second = Store::new();
    instantiate(&mut second, InstantiateMsg { owner: "owner".to_string() }).unwrap();

    let msg_a = ExecuteMsg::SetPointer {
        address: "user1".to_string(),
        token_type: "luna".to_string(),
        pointer: 100,
    };
    let msg_b = ExecuteMsg::SetPointer {
        address: "user1".to_string(),
        token_type: "luna".to_string(),
        pointer: 120,
    };
    execute(&mut first, "owner".to_string(), true, msg_a).unwrap();
    execute(&mut first, "owner".to_string(), true, msg_b).unwrap();

    let msg_sum = ExecuteMsg::SetPointer {
        address: "user1".to_string(),
        token_type: "luna".to_string(),
        pointer: 220,
    };
    execute(&mut second, "owner".to_string(), true, msg_sum).unwrap();

    let split = query_get_pointer(&first, "user1".to_string(), "luna".to_string()).unwrap();
    let at_once = query_get_pointer(&second, "user1".to_string(), "luna".to_string()).unwrap();
    assert_eq!(split, 220);
    assert_eq!(split, at_once);
}

#[test]
fn owner_change_transfers_write_access() {
    let mut store = Store::new();
    instantiate(&mut store, InstantiateMsg { owner: "owner".to_string() }).unwrap();

    let message = ExecuteMsg::ChangeOwner { address: "creator".to_string() };
    execute(&mut store, "owner".to_string(), true, message).unwrap();

    // The former owner has lost write access.
    let message = ExecuteMsg::SetPointer {
        address: "user1".to_string(),
        token_type: "luna".to_string(),
        pointer: 5,
    };
    let res = execute(&mut store, "owner".to_string(), true, message);
    assert_eq!(res, Err(ContractError::Unauthorized));

    // The new owner has gained it.
    let message = ExecuteMsg::SetPointer {
        address: "user1".to_string(),
        token_type: "luna".to_string(),
        pointer: 5,
    };
    execute(&mut store, "creator".to_string(), true, message).unwrap();
    let pointer = query_get_pointer(&store, "user1".to_string(), "luna".to_string()).unwrap();
    assert_eq!(pointer, 5);
}

#[test]
fn query_dispatch_answers_both_requests() {
    let mut store = Store::new();
    instantiate(&mut store, InstantiateMsg { owner: "owner".to_string() }).unwrap();
    let message = ExecuteMsg::SetPointer {
        address: "user1".to_string(),
        token_type: "luna".to_string(),
        pointer: 42,
    };
    execute(&mut store, "owner".to_string(), true, message).unwrap();

    let answer = query(&store, QueryMsg::GetStateInfo {}).unwrap();
    match answer {
        QueryAnswer::StateInfo(state) => assert_eq!(state.owner, "owner".to_string()),
        QueryAnswer::Pointer(_) => panic!("state query answered with a pointer"),
    }

    let request = QueryMsg::GetPointer {
        address: "user1".to_string(),
        token_type: "luna".to_string(),
    };
    let answer = query(&store, request).unwrap();
    match answer {
        QueryAnswer::Pointer(value) => assert_eq!(value, 42),
        QueryAnswer::StateInfo(_) => panic!("pointer query answered with the state"),
    }
}
