//! NFT lifecycle flows: class issuance, mint, transfer, owner queries, burn.
//! The messages travel as protobuf-encoded envelopes through the type-url
//! dispatcher, and the queries come back as the SDK's JSON shapes.
use coreum_wasm_sdk::deprecated::nft::{NFTsResponse, OwnerResponse};
use coreum_wasm_sdk::types::coreum::asset::nft::v1::{
    MsgBurn as MsgNftBurn, MsgIssueClass, MsgMint as MsgNftMint,
};
use coreum_wasm_sdk::types::cosmos::nft::v1beta1::MsgSend as MsgNftSend;
use cosmwasm_std::from_json;
use cw_module_sim::bank::Bank;
use cw_module_sim::msgs::ModuleResponse;
use cw_module_sim::queries::{CoreumQuery, CoreumQueryModule};
use cw_module_sim::state::SimStorage;
use cw_module_sim::token_factory_coreum::TokenFactory;

const DEFAULT_FEE: &str = "10000000ucore";

fn factory() -> TokenFactory {
    TokenFactory::new("factory", 32, 16, 59 + 16, DEFAULT_FEE)
}

fn has_attr(resp: &ModuleResponse, ty: &str, key: &str, value: &str) -> bool {
    resp.events.iter().any(|e| {
        e.ty == ty && e.attributes.iter().any(|(k, v)| k == key && v == value)
    })
}

fn run_flow(stargate: &TokenFactory, storage: &mut SimStorage, bank: &mut Bank) {
    let sender = "sender".to_string();
    let receiver = "receiver".to_string();
    let queries = CoreumQueryModule::new();

    // 1) Issue class
    let issue_class = MsgIssueClass {
        issuer: sender.clone(),
        name: "My NFT Class".to_string(),
        symbol: "NFTCLASS".to_string(),
        description: "test".to_string(),
        uri: "ipfs://class".to_string(),
        ..MsgIssueClass::default()
    };
    let res = stargate
        .handle_any(
            storage,
            bank,
            &sender,
            MsgIssueClass::TYPE_URL,
            &issue_class.to_proto_bytes(),
        )
        .unwrap();
    assert!(has_attr(&res, "/coreum.asset.nft.v1.EventClassIssued", "issuer", "sender"));
    assert!(has_attr(&res, "/coreum.asset.nft.v1.EventClassIssued", "class_id", "nftclass-sender"));

    // 2) Mint NFT
    let mint = MsgNftMint {
        sender: sender.clone(),
        class_id: "nftclass-sender".to_string(),
        id: "nft1".to_string(),
        uri: "ipfs://nft1".to_string(),
        recipient: sender.clone(),
        ..MsgNftMint::default()
    };
    let res = stargate
        .handle_any(storage, bank, &sender, MsgNftMint::TYPE_URL, &mint.to_proto_bytes())
        .unwrap();
    assert!(has_attr(&res, "/coreum.asset.nft.v1.EventMinted", "class_id", "nftclass-sender"));
    assert!(has_attr(&res, "/coreum.asset.nft.v1.EventMinted", "id", "nft1"));
    assert!(has_attr(&res, "/coreum.asset.nft.v1.EventMinted", "owner", "sender"));

    // 3) Send NFT to receiver (transfer)
    let send = MsgNftSend {
        sender: sender.clone(),
        class_id: "nftclass-sender".to_string(),
        id: "nft1".to_string(),
        receiver: receiver.clone(),
    };
    let res = stargate
        .handle_any(storage, bank, &sender, MsgNftSend::TYPE_URL, &send.to_proto_bytes())
        .unwrap();
    assert!(has_attr(&res, "/coreum.asset.nft.v1.EventSent", "sender", "sender"));
    assert!(has_attr(&res, "/coreum.asset.nft.v1.EventSent", "receiver", "receiver"));

    // 4) Query NFTs and owner, and confirm the token still exists
    let q = CoreumQuery::Nfts {
        class_id: Some("nftclass-sender".to_string()),
        owner: Some(receiver.clone()),
    };
    let resp: NFTsResponse = from_json(queries.query(storage, &q).unwrap()).unwrap();
    assert_eq!(resp.nfts.len(), 1);
    assert_eq!(resp.nfts[0].class_id, "nftclass-sender");
    assert_eq!(resp.nfts[0].id, "nft1");

    let q = CoreumQuery::NftOwner {
        class_id: "nftclass-sender".to_string(),
        id: "nft1".to_string(),
    };
    let resp: OwnerResponse = from_json(queries.query(storage, &q).unwrap()).unwrap();
    assert_eq!(resp.owner, receiver);

    // 5) Burn: done by the current owner
    let burn = MsgNftBurn {
        sender: receiver.clone(),
        class_id: "nftclass-sender".to_string(),
        id: "nft1".to_string(),
    };
    let res = stargate
        .handle_any(storage, bank, &receiver, MsgNftBurn::TYPE_URL, &burn.to_proto_bytes())
        .unwrap();
    assert!(has_attr(&res, "/coreum.asset.nft.v1.EventBurned", "owner", "receiver"));

    // Query again: gone
    let q = CoreumQuery::Nfts {
        class_id: Some("nftclass-sender".to_string()),
        owner: Some(receiver.clone()),
    };
    let resp: NFTsResponse = from_json(queries.query(storage, &q).unwrap()).unwrap();
    assert_eq!(resp.nfts.len(), 0);
}

#[test]
fn nft_flow_issue_mint_send_burn() {
    let stargate = factory();
    let mut storage = SimStorage::new();
    let mut bank = Bank::new();
    bank.mint("sender", "ucore", 10000000).unwrap();
    run_flow(&stargate, &mut storage, &mut bank);
}

#[test]
fn nft_flow_issue_mint_send_burn_coreum() {
    let stargate = TokenFactory::new("", 32, 16, 59 + 16, DEFAULT_FEE);
    let mut storage = SimStorage::new();
    let mut bank = Bank::new();
    bank.mint("sender", "ucore", 10000000).unwrap();
    run_flow(&stargate, &mut storage, &mut bank);
}

#[test]
fn soulbound_send_by_non_owner_non_issuer_fails() {
    let stargate = factory();
    let mut storage = SimStorage::new();
    let mut bank = Bank::new();
    let issuer = "issuer".to_string();
    // Soulbound class: issue with the soulbound feature flag set.
    let issue_class = MsgIssueClass {
        issuer: issuer.clone(),
        name: "Bound".to_string(),
        symbol: "BOUND".to_string(),
        features: vec![
            coreum_wasm_sdk::types::coreum::asset::nft::v1::ClassFeature::Soulbound as i32,
        ],
        ..MsgIssueClass::default()
    };
    stargate
        .handle_any(
            &mut storage,
            &mut bank,
            &issuer,
            MsgIssueClass::TYPE_URL,
            &issue_class.to_proto_bytes(),
        )
        .unwrap();
    let mint = MsgNftMint {
        sender: issuer.clone(),
        class_id: "bound-issuer".to_string(),
        id: "nft1".to_string(),
        recipient: "holder".to_string(),
        ..MsgNftMint::default()
    };
    stargate
        .handle_any(&mut storage, &mut bank, &issuer, MsgNftMint::TYPE_URL, &mint.to_proto_bytes())
        .unwrap();
    // The holder owns it, but a third party may not move a soulbound token.
    let send = MsgNftSend {
        sender: "intruder".to_string(),
        class_id: "bound-issuer".to_string(),
        id: "nft1".to_string(),
        receiver: "elsewhere".to_string(),
    };
    let err = stargate
        .handle_any(
            &mut storage,
            &mut bank,
            &"intruder".to_string(),
            MsgNftSend::TYPE_URL,
            &send.to_proto_bytes(),
        )
        .unwrap_err();
    assert!(err.message().contains("Unauthorized send"));
    // The holder itself cannot move it either: transfers stay with the issuer.
    let send = MsgNftSend {
        sender: "holder".to_string(),
        class_id: "bound-issuer".to_string(),
        id: "nft1".to_string(),
        receiver: "elsewhere".to_string(),
    };
    let err = stargate
        .handle_any(
            &mut storage,
            &mut bank,
            &"holder".to_string(),
            MsgNftSend::TYPE_URL,
            &send.to_proto_bytes(),
        )
        .unwrap_err();
    assert!(err.message().contains("Unauthorized send"));
    // The issuer, as custodian, may.
    let send = MsgNftSend {
        sender: issuer.clone(),
        class_id: "bound-issuer".to_string(),
        id: "nft1".to_string(),
        receiver: "elsewhere".to_string(),
    };
    stargate
        .handle_any(&mut storage, &mut bank, &issuer, MsgNftSend::TYPE_URL, &send.to_proto_bytes())
        .unwrap();
}

#[test]
fn burnable_class_lets_issuer_burn() {
    let stargate = factory();
    let mut storage = SimStorage::new();
    let mut bank = Bank::new();
    let issuer = "issuer".to_string();
    let issue_class = MsgIssueClass {
        issuer: issuer.clone(),
        name: "Burny".to_string(),
        symbol: "BURNY".to_string(),
        features: vec![
            coreum_wasm_sdk::types::coreum::asset::nft::v1::ClassFeature::Burning as i32,
        ],
        ..MsgIssueClass::default()
    };
    stargate
        .handle_any(
            &mut storage,
            &mut bank,
            &issuer,
            MsgIssueClass::TYPE_URL,
            &issue_class.to_proto_bytes(),
        )
        .unwrap();
    let mint = MsgNftMint {
        sender: issuer.clone(),
        class_id: "burny-issuer".to_string(),
        id: "nft1".to_string(),
        recipient: "holder".to_string(),
        ..MsgNftMint::default()
    };
    stargate
        .handle_any(&mut storage, &mut bank, &issuer, MsgNftMint::TYPE_URL, &mint.to_proto_bytes())
        .unwrap();
    let burn = MsgNftBurn {
        sender: issuer.clone(),
        class_id: "burny-issuer".to_string(),
        id: "nft1".to_string(),
    };
    stargate
        .handle_any(&mut storage, &mut bank, &issuer, MsgNftBurn::TYPE_URL, &burn.to_proto_bytes())
        .unwrap();
}

#[test]
fn minting_same_token_twice_fails() {
    let stargate = factory();
    let mut storage = SimStorage::new();
    let mut bank = Bank::new();
    let issuer = "issuer".to_string();
    let issue_class = MsgIssueClass {
        issuer: issuer.clone(),
        name: "Once".to_string(),
        symbol: "ONCE".to_string(),
        ..MsgIssueClass::default()
    };
    stargate
        .handle_any(
            &mut storage,
            &mut bank,
            &issuer,
            MsgIssueClass::TYPE_URL,
            &issue_class.to_proto_bytes(),
        )
        .unwrap();
    let mint = MsgNftMint {
        sender: issuer.clone(),
        class_id: "once-issuer".to_string(),
        id: "nft1".to_string(),
        ..MsgNftMint::default()
    };
    stargate
        .handle_any(&mut storage, &mut bank, &issuer, MsgNftMint::TYPE_URL, &mint.to_proto_bytes())
        .unwrap();
    let err = stargate
        .handle_any(&mut storage, &mut bank, &issuer, MsgNftMint::TYPE_URL, &mint.to_proto_bytes())
        .unwrap_err();
    assert_eq!(err.message(), "NFT already minted: once-issuer/nft1");
}

#[test]
fn nft_listing_is_ascending_by_class_and_id() {
    let stargate = factory();
    let mut storage = SimStorage::new();
    let mut bank = Bank::new();
    let issuer = "alice".to_string();
    for symbol in ["ZOO", "ART"] {
        let issue_class = MsgIssueClass {
            issuer: issuer.clone(),
            name: symbol.to_string(),
            symbol: symbol.to_string(),
            ..MsgIssueClass::default()
        };
        stargate
            .handle_any(
                &mut storage,
                &mut bank,
                &issuer,
                MsgIssueClass::TYPE_URL,
                &issue_class.to_proto_bytes(),
            )
            .unwrap();
    }
    for (class_id, id) in [("zoo-alice", "n2"), ("art-alice", "n9"), ("zoo-alice", "n1")] {
        let mint = MsgNftMint {
            sender: issuer.clone(),
            class_id: class_id.to_string(),
            id: id.to_string(),
            ..MsgNftMint::default()
        };
        stargate
            .handle_any(
                &mut storage,
                &mut bank,
                &issuer,
                MsgNftMint::TYPE_URL,
                &mint.to_proto_bytes(),
            )
            .unwrap();
    }
    let queries = CoreumQueryModule::new();
    let q = CoreumQuery::Nfts { class_id: None, owner: None };
    let resp: NFTsResponse = from_json(queries.query(&storage, &q).unwrap()).unwrap();
    let keys: Vec<(String, String)> =
        resp.nfts.iter().map(|n| (n.class_id.clone(), n.id.clone())).collect();
    assert_eq!(
        keys,
        vec![
            ("art-alice".to_string(), "n9".to_string()),
            ("zoo-alice".to_string(), "n1".to_string()),
            ("zoo-alice".to_string(), "n2".to_string()),
        ]
    );
}

#[test]
fn unknown_type_url_fails() {
    let stargate = factory();
    let mut storage = SimStorage::new();
    let mut bank = Bank::new();
    let err = stargate
        .handle_any(&mut storage, &mut bank, &"sender".to_string(), "/unknown.Msg", &[])
        .unwrap_err();
    assert_eq!(err.message(), "Unknown message type /unknown.Msg");
}
