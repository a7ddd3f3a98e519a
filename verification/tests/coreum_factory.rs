//! Fungible-token scenarios for the Coreum token-factory module.
use cw_module_sim::bank::Bank;
use cw_module_sim::errors::ModuleError;
use cw_module_sim::msgs::{BurnMsg, CoinMsg, IssueMsg, MintMsg, ModuleResponse};
use cw_module_sim::state::SimStorage;
use cw_module_sim::token_factory_coreum::TokenFactory;

const DEFAULT_FEE: &str = "10000000ucore";

fn factory() -> TokenFactory {
    TokenFactory::new("", 32, 16, 59 + 16, DEFAULT_FEE)
}

fn issue_msg(issuer: &str, subunit: &str, symbol: &str, initial: &str) -> IssueMsg {
    IssueMsg {
        issuer: issuer.to_string(),
        symbol: symbol.to_string(),
        subunit: subunit.to_string(),
        precision: 6,
        initial_amount: initial.to_string(),
        description: String::new(),
    }
}

fn has_attr(resp: &ModuleResponse, ty: &str, key: &str, value: &str) -> bool {
    resp.events.iter().any(|e| {
        e.ty == ty && e.attributes.iter().any(|(k, v)| k == key && v == value)
    })
}

fn fund_fee(bank: &mut Bank, account: &str) {
    bank.mint(account, "ucore", 10000000).unwrap();
}

#[test]
fn issue_creates_denom_and_emits_event() {
    let tf = factory();
    let mut storage = SimStorage::new();
    let mut bank = Bank::new();
    fund_fee(&mut bank, "sender");
    let msg = issue_msg("sender", "subdenom", "SUBDENOM", "");
    let resp = tf.issue(&mut storage, &mut bank, &msg, &"sender".to_string()).unwrap();
    assert!(has_attr(&resp, "/coreum.asset.ft.v1.EventIssued", "denom", "subdenom-sender"));
    assert!(has_attr(&resp, "/coreum.asset.ft.v1.EventIssued", "issuer", "sender"));
    // zero initial amount: nothing minted
    assert_eq!(bank.balance_of("sender", "subdenom-sender"), 0);
    // the issuance fee was burnt
    assert_eq!(bank.balance_of("sender", "ucore"), 0);
}

#[test]
fn issue_rejects_creator_with_slash() {
    let tf = factory();
    let mut storage = SimStorage::new();
    let mut bank = Bank::new();
    fund_fee(&mut bank, "sen/der");
    let msg = issue_msg("sen/der", "subdenom", "SUBDENOM", "");
    let err = tf.issue(&mut storage, &mut bank, &msg, &"sen/der".to_string()).unwrap_err();
    assert!(err.message().contains("creator address cannot contains"));
}

#[test]
fn issue_rejects_creator_too_long() {
    let tf = TokenFactory::new("", 32, 16, 8, DEFAULT_FEE);
    let mut storage = SimStorage::new();
    let mut bank = Bank::new();
    let long = "asdasdasdasdasdasdasdasdasdasdasdasdasdasdasd";
    fund_fee(&mut bank, long);
    let msg = issue_msg(long, "subdenom", "SUBDENOM", "");
    let err = tf.issue(&mut storage, &mut bank, &msg, &long.to_string()).unwrap_err();
    assert!(err.message().contains("Creator length is too long"));
}

#[test]
fn issue_rejects_existing_supply() {
    let tf = factory();
    let mut storage = SimStorage::new();
    let mut bank = Bank::new();
    fund_fee(&mut bank, "sender");
    // someone already holds coins of that denom
    bank.mint("sender", "subdenom-sender", 100).unwrap();
    let msg = issue_msg("sender", "subdenom", "SUBDENOM", "");
    let err = tf.issue(&mut storage, &mut bank, &msg, &"sender".to_string()).unwrap_err();
    assert_eq!(err.message(), "Subdenom already exists");
}

#[test]
fn issue_rejects_when_fee_unaffordable() {
    let tf = factory();
    let mut storage = SimStorage::new();
    let mut bank = Bank::new();
    bank.mint("sender", "ucore", 100000).unwrap();
    let msg = issue_msg("sender", "subdenom", "SUBDENOM", "");
    let err = tf.issue(&mut storage, &mut bank, &msg, &"sender".to_string()).unwrap_err();
    assert!(err.message().contains("Cannot Sub"));
}

#[test]
fn issue_twice_fails_the_second_time() {
    let tf = factory();
    let mut storage = SimStorage::new();
    let mut bank = Bank::new();
    fund_fee(&mut bank, "sender");
    fund_fee(&mut bank, "sender");
    let msg = issue_msg("sender", "subdenom", "SUBDENOM", "500");
    tf.issue(&mut storage, &mut bank, &msg, &"sender".to_string()).unwrap();
    let err = tf.issue(&mut storage, &mut bank, &msg, &"sender".to_string()).unwrap_err();
    assert_eq!(err.message(), "Subdenom already exists");
}

#[test]
fn issue_initial_amount_round_trip() {
    let tf = factory();
    let mut storage = SimStorage::new();
    let mut bank = Bank::new();
    fund_fee(&mut bank, "sender");
    let msg = issue_msg("sender", "subdenom", "SUBDENOM", "12345");
    tf.issue(&mut storage, &mut bank, &msg, &"sender".to_string()).unwrap();
    assert_eq!(bank.balance_of("sender", "subdenom-sender"), 12345);
    assert_eq!(bank.supply_of("subdenom-sender"), 12345);
}

fn mint_msg(sender: &str, denom: &str, amount: &str, recipient: &str) -> MintMsg {
    MintMsg {
        sender: sender.to_string(),
        coin: Some(CoinMsg { denom: denom.to_string(), amount: amount.to_string() }),
        recipient: recipient.to_string(),
    }
}

#[test]
fn mint_unissued_denom_fails() {
    let tf = factory();
    let mut storage = SimStorage::new();
    let mut bank = Bank::new();
    let msg = mint_msg("sender", "subdenom-sender", "1000", "sender");
    let err = tf.mint(&mut storage, &mut bank, &msg, &"sender".to_string()).unwrap_err();
    assert_eq!(err.message(), "MsgMint for unknown Coreum FT denom `subdenom-sender`");
}

#[test]
fn mint_after_issue_credits_recipient() {
    let tf = factory();
    let mut storage = SimStorage::new();
    let mut bank = Bank::new();
    fund_fee(&mut bank, "sender");
    let issue = issue_msg("sender", "subdenom", "SUBDENOM", "");
    tf.issue(&mut storage, &mut bank, &issue, &"sender".to_string()).unwrap();
    let msg = mint_msg("sender", "subdenom-sender", "1000", "sender");
    let resp = tf.mint(&mut storage, &mut bank, &msg, &"sender".to_string()).unwrap();
    assert!(has_attr(&resp, "tf_mint", "recipient", "sender"));
    assert!(has_attr(&resp, "tf_mint", "amount", "1000"));
    assert_eq!(bank.balance_of("sender", "subdenom-sender"), 1000);
}

#[test]
fn mint_with_empty_recipient_credits_the_sender() {
    let tf = factory();
    let mut storage = SimStorage::new();
    let mut bank = Bank::new();
    fund_fee(&mut bank, "sender");
    let issue = issue_msg("sender", "subdenom", "SUBDENOM", "");
    tf.issue(&mut storage, &mut bank, &issue, &"sender".to_string()).unwrap();
    let msg = mint_msg("sender", "subdenom-sender", "750", "");
    let resp = tf.mint(&mut storage, &mut bank, &msg, &"sender".to_string()).unwrap();
    assert!(has_attr(&resp, "tf_mint", "recipient", "sender"));
    // the ledger credit follows the defaulted recipient, not the raw field
    assert_eq!(bank.balance_of("sender", "subdenom-sender"), 750);
    assert_eq!(bank.balance_of("", "subdenom-sender"), 0);
}

#[test]
fn mint_zero_amount_fails() {
    let tf = factory();
    let mut storage = SimStorage::new();
    let mut bank = Bank::new();
    fund_fee(&mut bank, "sender");
    let issue = issue_msg("sender", "subdenom", "SUBDENOM", "");
    tf.issue(&mut storage, &mut bank, &issue, &"sender".to_string()).unwrap();
    let msg = mint_msg("sender", "subdenom-sender", "0", "sender");
    let err = tf.mint(&mut storage, &mut bank, &msg, &"sender".to_string()).unwrap_err();
    assert_eq!(err.message(), "Invalid zero amount");
}

#[test]
fn mint_by_non_issuer_fails() {
    let tf = factory();
    let mut storage = SimStorage::new();
    let mut bank = Bank::new();
    let msg = mint_msg("sender", "subdenom-creator", "1000", "sender");
    let err = tf.mint(&mut storage, &mut bank, &msg, &"sender".to_string()).unwrap_err();
    assert_eq!(err.message(), "Unauthorized mint. Not the issuer of the denom.");
}

fn burn_msg(sender: &str, denom: &str, amount: &str) -> BurnMsg {
    BurnMsg {
        sender: sender.to_string(),
        coin: Some(CoinMsg { denom: denom.to_string(), amount: amount.to_string() }),
    }
}

#[test]
fn burn_reduces_balance() {
    let tf = factory();
    let mut storage = SimStorage::new();
    let mut bank = Bank::new();
    fund_fee(&mut bank, "sender");
    let issue = issue_msg("sender", "subdenom", "SUBDENOM", "2000");
    tf.issue(&mut storage, &mut bank, &issue, &"sender".to_string()).unwrap();
    let msg = burn_msg("sender", "subdenom-sender", "1000");
    let resp = tf.burn(&mut storage, &mut bank, &msg, &"sender".to_string()).unwrap();
    assert!(has_attr(&resp, "tf_burn", "burn_from_address", "sender"));
    assert!(has_attr(&resp, "tf_burn", "amount", "1000"));
    assert_eq!(bank.balance_of("sender", "subdenom-sender"), 1000);
}

#[test]
fn burn_more_than_held_fails() {
    let tf = factory();
    let mut storage = SimStorage::new();
    let mut bank = Bank::new();
    fund_fee(&mut bank, "sender");
    let issue = issue_msg("sender", "subdenom", "SUBDENOM", "1000");
    tf.issue(&mut storage, &mut bank, &issue, &"sender".to_string()).unwrap();
    let msg = burn_msg("sender", "subdenom-sender", "2000");
    let err = tf.burn(&mut storage, &mut bank, &msg, &"sender".to_string()).unwrap_err();
    assert_eq!(err.message(), "Cannot Sub with 1000 and 2000");
}

#[test]
fn burn_by_non_issuer_fails() {
    let tf = factory();
    let mut storage = SimStorage::new();
    let mut bank = Bank::new();
    let msg = burn_msg("sender", "subdenom-creator", "1000");
    let err = tf.burn(&mut storage, &mut bank, &msg, &"sender".to_string()).unwrap_err();
    assert_eq!(err.message(), "Unauthorized burn. Not the issuer of the denom.");
}
