//! Building the name-to-wrapper map of contract entry points that a test
//! harness registers, one wrapper per named contract.
use std::collections::HashMap;

use cosmwasm_std::{
    to_json_binary, Binary, Deps, DepsMut, Empty, Env, MessageInfo, Reply, Response, StdError,
};
use cw_multi_test::{Contract, ContractWrapper};

fn execute(
    _deps: DepsMut,
    _env: Env,
    _info: MessageInfo,
    _msg: Empty,
) -> Result<Response, StdError> {
    Ok(Response::new())
}

fn instantiate(
    _deps: DepsMut,
    _env: Env,
    _info: MessageInfo,
    _msg: Empty,
) -> Result<Response, StdError> {
    Ok(Response::new())
}

fn query(_deps: Deps, _env: Env, _msg: Empty) -> Result<Binary, StdError> {
    to_json_binary(&Empty {})
}

fn reply(_deps: DepsMut, _env: Env, _msg: Reply) -> Result<Response, StdError> {
    Ok(Response::new())
}

fn wrap(name: &str) -> (String, Box<dyn Contract<Empty>>) {
    (
        name.to_string(),
        Box::new(ContractWrapper::new_with_empty(execute, instantiate, query)),
    )
}

fn wrap_with_reply(name: &str) -> (String, Box<dyn Contract<Empty>>) {
    (
        name.to_string(),
        Box::new(ContractWrapper::new_with_empty(execute, instantiate, query).with_reply(reply)),
    )
}

#[test]
fn test_create_contract_wrappers_macro() {
    let contract_wrappers: HashMap<String, Box<dyn Contract<Empty>>> =
        vec![wrap("astroport_factory"), wrap("astroport-pair-stable")].into_iter().collect();

    assert_eq!(contract_wrappers.len(), 2);
}

#[test]
fn test_create_contract_wrappers_with_reply_macro() {
    let contract_wrappers: HashMap<String, Box<dyn Contract<Empty>>> = vec![
        wrap_with_reply("astroport_factory"),
        wrap_with_reply("astroport-pair-stable"),
    ]
    .into_iter()
    .collect();

    assert_eq!(contract_wrappers.len(), 2);
}
