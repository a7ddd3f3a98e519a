//! One input per failure kind, and the exact texts of the formatted ones.
use cw_module_sim::bank::Bank;
use cw_module_sim::errors::ModuleError;
use cw_module_sim::msgs::{BurnMsg, CoinMsg, IssueClassMsg, IssueMsg, MintMsg, NftBurnMsg,
    NftMintMsg, NftSendMsg};
use cw_module_sim::queries::CoreumQueryModule;
use cw_module_sim::state::SimStorage;
use cw_module_sim::token_factory_coreum::TokenFactory;

const DEFAULT_FEE: &str = "10000000ucore";

fn factory() -> TokenFactory {
    TokenFactory::new("", 32, 16, 59 + 16, DEFAULT_FEE)
}

fn base_issue(issuer: &str) -> IssueMsg {
    IssueMsg {
        issuer: issuer.to_string(),
        symbol: "SYM".to_string(),
        subunit: "sub".to_string(),
        precision: 6,
        initial_amount: String::new(),
        description: String::new(),
    }
}

fn base_class(issuer: &str) -> IssueClassMsg {
    IssueClassMsg {
        issuer: issuer.to_string(),
        name: "Name".to_string(),
        symbol: "SYM".to_string(),
        description: String::new(),
        uri: String::new(),
        uri_hash: String::new(),
        data: None,
        features: vec![],
    }
}

#[test]
fn subdenom_too_long_names_the_limit() {
    let tf = TokenFactory::new("", 4, 16, 75, DEFAULT_FEE);
    let mut storage = SimStorage::new();
    let mut bank = Bank::new();
    let mut msg = base_issue("sender");
    msg.subunit = "waytoolong".to_string();
    let err = tf.issue(&mut storage, &mut bank, &msg, &"sender".to_string()).unwrap_err();
    assert_eq!(err.message(), "Subdenom length is too long, max length is 4");
}

#[test]
fn issuer_other_than_sender_is_rejected() {
    let tf = factory();
    let mut storage = SimStorage::new();
    let mut bank = Bank::new();
    let msg = base_issue("alice");
    let err = tf.issue(&mut storage, &mut bank, &msg, &"bob".to_string()).unwrap_err();
    assert_eq!(
        err.message(),
        "Invalid creator address, creator address must be the same as the sender"
    );
}

#[test]
fn malformed_subunit_and_symbol_are_rejected() {
    let tf = factory();
    let mut storage = SimStorage::new();
    let mut bank = Bank::new();
    let mut msg = base_issue("sender");
    msg.subunit = "a".to_string();
    let err = tf.issue(&mut storage, &mut bank, &msg, &"sender".to_string()).unwrap_err();
    assert!(err.message().starts_with("subunit must match regex format"));
    let mut msg = base_issue("sender");
    msg.symbol = "1bad".to_string();
    let err = tf.issue(&mut storage, &mut bank, &msg, &"sender".to_string()).unwrap_err();
    assert!(err.message().starts_with("symbol must match regex format"));
}

#[test]
fn bad_initial_amount_is_rejected() {
    let tf = factory();
    let mut storage = SimStorage::new();
    let mut bank = Bank::new();
    bank.mint("sender", "ucore", 10000000).unwrap();
    let mut msg = base_issue("sender");
    msg.initial_amount = "12x".to_string();
    let err = tf.issue(&mut storage, &mut bank, &msg, &"sender".to_string()).unwrap_err();
    assert_eq!(err.message(), "invalid initial_amount `12x`");
}

#[test]
fn mint_without_coin_is_rejected() {
    let tf = factory();
    let mut storage = SimStorage::new();
    let mut bank = Bank::new();
    let msg = MintMsg { sender: "s".to_string(), coin: None, recipient: String::new() };
    let err = tf.mint(&mut storage, &mut bank, &msg, &"s".to_string()).unwrap_err();
    assert_eq!(err.message(), "MsgMint.coin is None");
    let msg = BurnMsg { sender: "s".to_string(), coin: None };
    let err = tf.burn(&mut storage, &mut bank, &msg, &"s".to_string()).unwrap_err();
    assert_eq!(err.message(), "MsgBurn.coin is None");
}

#[test]
fn denom_without_single_dash_is_rejected() {
    let tf = factory();
    let mut storage = SimStorage::new();
    let mut bank = Bank::new();
    let msg = MintMsg {
        sender: "s".to_string(),
        coin: Some(CoinMsg { denom: "a-b-c".to_string(), amount: "1".to_string() }),
        recipient: String::new(),
    };
    let err = tf.mint(&mut storage, &mut bank, &msg, &"s".to_string()).unwrap_err();
    assert_eq!(err.message(), "Invalid denom");
}

#[test]
fn sender_field_must_match_transaction_sender() {
    let tf = factory();
    let mut storage = SimStorage::new();
    let mut bank = Bank::new();
    let msg = MintMsg {
        sender: "other".to_string(),
        coin: Some(CoinMsg { denom: "sub-s".to_string(), amount: "1".to_string() }),
        recipient: String::new(),
    };
    let err = tf.mint(&mut storage, &mut bank, &msg, &"s".to_string()).unwrap_err();
    assert_eq!(err.message(), "Invalid sender. Sender in msg must be same as sender of transaction.");
}

#[test]
fn unparsable_amount_is_rejected() {
    let tf = factory();
    let mut storage = SimStorage::new();
    let mut bank = Bank::new();
    bank.mint("s", "ucore", 10000000).unwrap();
    let mut issue = base_issue("s");
    issue.subunit = "sub".to_string();
    tf.issue(&mut storage, &mut bank, &issue, &"s".to_string()).unwrap();
    let msg = MintMsg {
        sender: "s".to_string(),
        coin: Some(CoinMsg { denom: "sub-s".to_string(), amount: "9x9".to_string() }),
        recipient: "s".to_string(),
    };
    let err = tf.mint(&mut storage, &mut bank, &msg, &"s".to_string()).unwrap_err();
    assert_eq!(err.message(), "invalid coin amount `9x9`");
}

#[test]
fn supply_overflow_is_rejected_and_state_kept() {
    let tf = factory();
    let mut storage = SimStorage::new();
    let mut bank = Bank::new();
    bank.mint("s", "ucore", 10000000).unwrap();
    let issue = base_issue("s");
    tf.issue(&mut storage, &mut bank, &issue, &"s".to_string()).unwrap();
    let huge = u128::MAX.to_string();
    let msg = MintMsg {
        sender: "s".to_string(),
        coin: Some(CoinMsg { denom: "sub-s".to_string(), amount: huge }),
        recipient: "s".to_string(),
    };
    tf.mint(&mut storage, &mut bank, &msg, &"s".to_string()).unwrap();
    let msg = MintMsg {
        sender: "s".to_string(),
        coin: Some(CoinMsg { denom: "sub-s".to_string(), amount: "1".to_string() }),
        recipient: "s".to_string(),
    };
    let err = tf.mint(&mut storage, &mut bank, &msg, &"s".to_string()).unwrap_err();
    assert!(err.message().contains("supply overflow"));
    assert_eq!(bank.balance_of("s", "sub-s"), u128::MAX);
}

#[test]
fn class_issuance_errors() {
    let tf = factory();
    let mut storage = SimStorage::new();
    let mut bank = Bank::new();
    let msg = base_class("alice");
    let err = tf.issue_class(&mut storage, &mut bank, &msg, &"bob".to_string()).unwrap_err();
    assert_eq!(err.message(), "Invalid issuer. issuer in msg must match sender.");
    tf.issue_class(&mut storage, &mut bank, &msg, &"alice".to_string()).unwrap();
    let err = tf.issue_class(&mut storage, &mut bank, &msg, &"alice".to_string()).unwrap_err();
    assert_eq!(err.message(), "NFT class already exists: sym-alice");
}

#[test]
fn nft_mint_errors() {
    let tf = factory();
    let mut storage = SimStorage::new();
    let mut bank = Bank::new();
    let mint = NftMintMsg {
        sender: "alice".to_string(),
        class_id: "sym-alice".to_string(),
        id: "n1".to_string(),
        uri: String::new(),
        recipient: String::new(),
        data: None,
    };
    let err = tf.nft_mint(&mut storage, &mut bank, &mint, &"bob".to_string()).unwrap_err();
    assert_eq!(err.message(), "Invalid sender. sender in msg must match tx sender.");
    let err = tf.nft_mint(&mut storage, &mut bank, &mint, &"alice".to_string()).unwrap_err();
    assert_eq!(err.message(), "MsgMint for unknown Coreum NFT class `sym-alice`");
    tf.issue_class(&mut storage, &mut bank, &base_class("alice"), &"alice".to_string()).unwrap();
    let stranger_mint = NftMintMsg { sender: "eve".to_string(), ..clone_mint(&mint) };
    let err = tf.nft_mint(&mut storage, &mut bank, &stranger_mint, &"eve".to_string()).unwrap_err();
    assert_eq!(err.message(), "Unauthorized mint. Not the issuer of class `sym-alice`");
}

fn clone_mint(m: &NftMintMsg) -> NftMintMsg {
    NftMintMsg {
        sender: m.sender.clone(),
        class_id: m.class_id.clone(),
        id: m.id.clone(),
        uri: m.uri.clone(),
        recipient: m.recipient.clone(),
        data: m.data.clone(),
    }
}

#[test]
fn nft_send_and_burn_not_found_errors() {
    let tf = factory();
    let mut storage = SimStorage::new();
    let mut bank = Bank::new();
    let send = NftSendMsg {
        sender: "alice".to_string(),
        class_id: "sym-alice".to_string(),
        id: "n1".to_string(),
        receiver: "bob".to_string(),
    };
    let err = tf.nft_send(&mut storage, &mut bank, &send, &"alice".to_string()).unwrap_err();
    assert_eq!(err.message(), "Class id not found: sym-alice");
    tf.issue_class(&mut storage, &mut bank, &base_class("alice"), &"alice".to_string()).unwrap();
    let err = tf.nft_send(&mut storage, &mut bank, &send, &"alice".to_string()).unwrap_err();
    assert_eq!(err.message(), "NFT not found: sym-alice/n1");
    let burn = NftBurnMsg {
        sender: "alice".to_string(),
        class_id: "sym-alice".to_string(),
        id: "n1".to_string(),
    };
    let err = tf.nft_burn(&mut storage, &mut bank, &burn, &"alice".to_string()).unwrap_err();
    assert_eq!(err.message(), "NFT not found: sym-alice/n1");
}

#[test]
fn nft_send_empty_receiver_and_foreign_burn_fail() {
    let tf = factory();
    let mut storage = SimStorage::new();
    let mut bank = Bank::new();
    tf.issue_class(&mut storage, &mut bank, &base_class("alice"), &"alice".to_string()).unwrap();
    let mint = NftMintMsg {
        sender: "alice".to_string(),
        class_id: "sym-alice".to_string(),
        id: "n1".to_string(),
        uri: String::new(),
        recipient: "carol".to_string(),
        data: None,
    };
    tf.nft_mint(&mut storage, &mut bank, &mint, &"alice".to_string()).unwrap();
    let send = NftSendMsg {
        sender: "carol".to_string(),
        class_id: "sym-alice".to_string(),
        id: "n1".to_string(),
        receiver: String::new(),
    };
    let err = tf.nft_send(&mut storage, &mut bank, &send, &"carol".to_string()).unwrap_err();
    assert_eq!(err.message(), "MsgSend.receiver is empty");
    // without the burning feature, the issuer may not burn a stranger's token
    let burn = NftBurnMsg {
        sender: "alice".to_string(),
        class_id: "sym-alice".to_string(),
        id: "n1".to_string(),
    };
    let err = tf.nft_burn(&mut storage, &mut bank, &burn, &"alice".to_string()).unwrap_err();
    assert_eq!(err.message(), "Unauthorized burn. Only owner or issuer can burn sym-alice/n1");
}

#[test]
fn decode_failure_reports_the_message_kind() {
    let tf = factory();
    let mut storage = SimStorage::new();
    let mut bank = Bank::new();
    let garbage: Vec<u8> = vec![0xff, 0xff, 0xff, 0xff];
    let err = tf
        .handle_any(
            &mut storage,
            &mut bank,
            &"s".to_string(),
            "/coreum.asset.ft.v1.MsgIssue",
            &garbage,
        )
        .unwrap_err();
    assert!(err.message().starts_with("failed to decode MsgIssue:"));
}

#[test]
fn query_module_refuses_execute_and_allows_sudo() {
    let q = CoreumQueryModule::new();
    let mut storage = SimStorage::new();
    let mut bank = Bank::new();
    let err = q.execute(&mut storage, &mut bank, &"s".to_string()).unwrap_err();
    assert_eq!(err.message(), "CoreumQueryModule execute is not implemented");
    let resp = q.sudo(&mut storage, &mut bank).unwrap();
    assert!(resp.events.is_empty());
    assert!(resp.data.is_none());
}

#[test]
fn token_factory_refuses_generic_queries_and_allows_sudo() {
    let tf = factory();
    let mut storage = SimStorage::new();
    let mut bank = Bank::new();
    let err = TokenFactory::query(&tf, &storage, "/some.Query/Path", &[]).unwrap_err();
    assert_eq!(err.message(), "Unsupported query type: Stargate queries are disabled");
    let resp = TokenFactory::sudo(&tf, &mut storage, &mut bank).unwrap();
    assert!(resp.events.is_empty());
}
