//! Scenarios for the generic token-factory module, driven through the
//! type-url dispatcher with protobuf-encoded envelopes.
use cosmwasm_std::from_json;
use cw_module_sim::bank::Bank;
use cw_module_sim::msgs::ModuleResponse;
use cw_module_sim::state::SimStorage;
use cw_module_sim::token_factory::TokenFactory;
use osmosis_std::types::osmosis::tokenfactory::v1beta1::{
    MsgBurn, MsgCreateDenom, MsgCreateDenomResponse, MsgMint,
};

const DEFAULT_FEE: &str = "10000000uosmo";

fn factory() -> TokenFactory {
    TokenFactory::new("factory", 32, 16, 59 + 16, DEFAULT_FEE)
}

fn has_attr(resp: &ModuleResponse, ty: &str, key: &str, value: &str) -> bool {
    resp.events.iter().any(|e| {
        e.ty == ty && e.attributes.iter().any(|(k, v)| k == key && v == value)
    })
}

fn coin(denom: &str, amount: u128) -> osmosis_std::types::cosmos::base::v1beta1::Coin {
    osmosis_std::types::cosmos::base::v1beta1::Coin {
        denom: denom.to_string(),
        amount: amount.to_string(),
    }
}

#[test]
fn create_denom_charges_fee_and_reports_denom() {
    let tf = factory();
    let mut storage = SimStorage::new();
    let mut bank = Bank::new();
    bank.mint("sender", "uosmo", 10000000).unwrap();
    let msg = MsgCreateDenom { sender: "sender".to_string(), subdenom: "subdenom".to_string() };
    let resp = tf
        .handle_any(&mut bank, &"sender".to_string(), MsgCreateDenom::TYPE_URL, &msg.to_proto_bytes())
        .unwrap();
    assert!(has_attr(&resp, "create_denom", "creator", "sender"));
    assert!(has_attr(&resp, "create_denom", "new_token_denom", "factory/sender/subdenom"));
    let data: MsgCreateDenomResponse =
        prost_decode(&resp.data.unwrap());
    assert_eq!(data.new_token_denom, "factory/sender/subdenom");
    assert_eq!(bank.balance_of("sender", "uosmo"), 0);
    let _ = storage;
}

fn prost_decode(bytes: &[u8]) -> MsgCreateDenomResponse {
    MsgCreateDenomResponse::try_from(cosmwasm_std::Binary::new(bytes.to_vec())).unwrap()
}

#[test]
fn create_denom_rejects_creator_with_slash() {
    let tf = factory();
    let mut bank = Bank::new();
    bank.mint("sen/der", "uosmo", 10000000).unwrap();
    let msg = MsgCreateDenom { sender: "sen/der".to_string(), subdenom: "subdenom".to_string() };
    let err = tf
        .handle_any(&mut bank, &"sen/der".to_string(), MsgCreateDenom::TYPE_URL, &msg.to_proto_bytes())
        .unwrap_err();
    assert!(err.message().contains("creator address cannot contains"));
}

#[test]
fn create_denom_rejects_existing_supply() {
    let tf = factory();
    let mut bank = Bank::new();
    bank.mint("sender", "uosmo", 10000000).unwrap();
    bank.mint("sender", "factory/sender/subdenom", 100).unwrap();
    let msg = MsgCreateDenom { sender: "sender".to_string(), subdenom: "subdenom".to_string() };
    let err = tf
        .handle_any(&mut bank, &"sender".to_string(), MsgCreateDenom::TYPE_URL, &msg.to_proto_bytes())
        .unwrap_err();
    assert_eq!(err.message(), "Subdenom already exists");
}

#[test]
fn create_denom_rejects_unaffordable_fee() {
    let tf = factory();
    let mut bank = Bank::new();
    bank.mint("sender", "uosmo", 100000).unwrap();
    let msg = MsgCreateDenom { sender: "sender".to_string(), subdenom: "subdenom".to_string() };
    let err = tf
        .handle_any(&mut bank, &"sender".to_string(), MsgCreateDenom::TYPE_URL, &msg.to_proto_bytes())
        .unwrap_err();
    assert!(err.message().contains("Cannot Sub"));
}

#[test]
fn factory_mint_credits_recipient() {
    let tf = factory();
    let mut bank = Bank::new();
    let msg = MsgMint {
        sender: "sender".to_string(),
        amount: Some(coin("factory/sender/subdenom", 1000)),
        mint_to_address: "sender".to_string(),
    };
    let resp = tf
        .handle_any(&mut bank, &"sender".to_string(), MsgMint::TYPE_URL, &msg.to_proto_bytes())
        .unwrap();
    assert!(has_attr(&resp, "tf_mint", "mint_to_address", "sender"));
    assert!(has_attr(&resp, "tf_mint", "amount", "1000"));
    assert_eq!(bank.balance_of("sender", "factory/sender/subdenom"), 1000);
}

#[test]
fn factory_mint_zero_amount_fails() {
    let tf = factory();
    let mut bank = Bank::new();
    let msg = MsgMint {
        sender: "sender".to_string(),
        amount: Some(coin("factory/sender/subdenom", 0)),
        mint_to_address: "sender".to_string(),
    };
    let err = tf
        .handle_any(&mut bank, &"sender".to_string(), MsgMint::TYPE_URL, &msg.to_proto_bytes())
        .unwrap_err();
    assert_eq!(err.message(), "Invalid zero amount");
}

#[test]
fn factory_mint_by_non_creator_fails() {
    let tf = factory();
    let mut bank = Bank::new();
    let msg = MsgMint {
        sender: "sender".to_string(),
        amount: Some(coin("factory/creator/subdenom", 1000)),
        mint_to_address: "sender".to_string(),
    };
    let err = tf
        .handle_any(&mut bank, &"sender".to_string(), MsgMint::TYPE_URL, &msg.to_proto_bytes())
        .unwrap_err();
    assert_eq!(err.message(), "Unauthorized mint. Not the creator of the denom.");
}

#[test]
fn factory_burn_reduces_balance() {
    let tf = factory();
    let mut bank = Bank::new();
    bank.mint("sender", "factory/sender/subdenom", 2000).unwrap();
    let msg = MsgBurn {
        sender: "sender".to_string(),
        amount: Some(coin("factory/sender/subdenom", 1000)),
        burn_from_address: "sender".to_string(),
    };
    let resp = tf
        .handle_any(&mut bank, &"sender".to_string(), MsgBurn::TYPE_URL, &msg.to_proto_bytes())
        .unwrap();
    assert!(has_attr(&resp, "tf_burn", "burn_from_address", "sender"));
    assert!(has_attr(&resp, "tf_burn", "amount", "1000"));
    assert_eq!(bank.balance_of("sender", "factory/sender/subdenom"), 1000);
}

#[test]
fn factory_burn_more_than_held_fails() {
    let tf = factory();
    let mut bank = Bank::new();
    bank.mint("sender", "factory/sender/subdenom", 1000).unwrap();
    let msg = MsgBurn {
        sender: "sender".to_string(),
        amount: Some(coin("factory/sender/subdenom", 2000)),
        burn_from_address: "sender".to_string(),
    };
    let err = tf
        .handle_any(&mut bank, &"sender".to_string(), MsgBurn::TYPE_URL, &msg.to_proto_bytes())
        .unwrap_err();
    assert_eq!(err.message(), "Cannot Sub with 1000 and 2000");
}

#[test]
fn factory_burn_by_non_creator_fails() {
    let tf = factory();
    let mut bank = Bank::new();
    let msg = MsgBurn {
        sender: "sender".to_string(),
        amount: Some(coin("factory/creator/subdenom", 1000)),
        burn_from_address: "sender".to_string(),
    };
    let err = tf
        .handle_any(&mut bank, &"sender".to_string(), MsgBurn::TYPE_URL, &msg.to_proto_bytes())
        .unwrap_err();
    assert_eq!(err.message(), "Unauthorized burn. Not the creator of the denom.");
}

#[test]
fn factory_query_names_path_and_payload() {
    let tf = factory();
    let err = tf.query("/some.Query/Path", &[1, 2]).unwrap_err();
    assert_eq!(err.message(), "Unexpected stargate query: path=/some.Query/Path, data=[1, 2]");
    let err = tf.query("/some.Query/Path", &[]).unwrap_err();
    assert_eq!(err.message(), "Unexpected stargate query: path=/some.Query/Path, data=[]");
}
