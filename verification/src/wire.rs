//! Trusted boundary to the outside SDK crates: wire-format decoding and
//! encoding of the message and response types, and the host's case folding.
//! Each item's contract states no more than the called crate's source shows.
use coreum_wasm_sdk::deprecated::assetft::{Token, TokenResponse, TokensResponse};
use coreum_wasm_sdk::deprecated::assetnft::{Class, ClassResponse, ClassesResponse};
use coreum_wasm_sdk::deprecated::nft::{NFTResponse, NFTsResponse, OwnerResponse, NFT};
use coreum_wasm_sdk::deprecated::pagination::PageResponse;
use vstd::prelude::*;

verus! {

/// What `str::to_lowercase` returns for a given character sequence.
pub uninterp spec fn lower_of(s: Seq<char>) -> Seq<char>;

/// Relies on `str::to_lowercase`: the result depends on the characters alone.
#[allow(deprecated)]
#[verifier::external_body]
pub(crate) fn lowercase(s: &str) -> (r: String)
    ensures
        r@ == lower_of(s@),
{
    s.to_lowercase()
}


/// JSON encoding of a single-NFT query response.
pub uninterp spec fn nft_response_json(n: crate::queries::NftViewV) -> Seq<u8>;

/// Relies on `cosmwasm_std::to_json_binary` over the SDK's NFT response
/// shape: the bytes depend on the field contents alone. Serialization of
/// this plain struct cannot fail.
#[allow(deprecated)]
#[verifier::external_body]
pub(crate) fn nft_response_encode(v: &crate::queries::NftView) -> (r: Vec<u8>)
    ensures
        r@ == nft_response_json(v@),
{
    let nft = NFT {
        class_id: v.class_id.clone(),
        id: v.id.clone(),
        uri: v.uri.clone(),
        uri_hash: None,
        data: v.data.clone().map(cosmwasm_std::Binary::new),
    };
    cosmwasm_std::to_json_binary(&NFTResponse { nft }).unwrap().to_vec()
}

/// JSON encoding of an NFT listing response with its pagination report.
pub uninterp spec fn nfts_response_json(
    ns: Seq<crate::queries::NftViewV>,
    next_key: Option<Seq<char>>,
    total: Option<u64>,
) -> Seq<u8>;

/// Relies on `cosmwasm_std::to_json_binary` over the SDK's NFT listing
/// response: the bytes depend on the listed records and the pagination
/// report alone.
/// Serialization of this plain struct cannot fail.
#[allow(deprecated)]
#[verifier::external_body]
pub(crate) fn nfts_response_encode(
    vs: &Vec<crate::queries::NftView>,
    next_key: &Option<String>,
    total: Option<u64>,
) -> (r: Vec<u8>)
    ensures
        r@ == nfts_response_json(
            vs@.map_values(|x: crate::queries::NftView| x@),
            match *next_key {
                Some(ref k) => Some(k@),
                None => None,
            },
            total,
        ),
{
    let nfts = vs.iter().map(|v| NFT {
        class_id: v.class_id.clone(),
        id: v.id.clone(),
        uri: v.uri.clone(),
        uri_hash: None,
        data: v.data.clone().map(cosmwasm_std::Binary::new),
    }).collect();
    let pagination = PageResponse { next_key: next_key.clone(), total };
    cosmwasm_std::to_json_binary(&NFTsResponse { nfts, pagination }).unwrap().to_vec()
}

/// JSON encoding of an NFT owner query response.
pub uninterp spec fn owner_response_json(owner: Seq<char>) -> Seq<u8>;

/// Relies on `cosmwasm_std::to_json_binary` over the SDK's owner response:
/// the bytes depend on the owner string alone.
/// Serialization of this plain struct cannot fail.
#[allow(deprecated)]
#[verifier::external_body]
pub(crate) fn owner_response_encode(owner: &String) -> (r: Vec<u8>)
    ensures
        r@ == owner_response_json(owner@),
{
    let resp = OwnerResponse { owner: owner.clone() };
    cosmwasm_std::to_json_binary(&resp).unwrap().to_vec()
}

/// JSON encoding of a single-class query response.
pub uninterp spec fn class_response_json(c: crate::queries::ClassViewV) -> Seq<u8>;

/// Relies on `cosmwasm_std::to_json_binary` over the SDK's class response:
/// the bytes depend on the field contents alone.
/// Serialization of this plain struct cannot fail.
#[allow(deprecated)]
#[verifier::external_body]
pub(crate) fn class_response_encode(v: &crate::queries::ClassView) -> (r: Vec<u8>)
    ensures
        r@ == class_response_json(v@),
{
    let class = Class {
        id: v.id.clone(), issuer: v.issuer.clone(), name: v.name.clone(), symbol: v.symbol.clone(),
        description: Some(v.description.clone()), uri: Some(v.uri.clone()),
        uri_hash: Some(v.uri_hash.clone()), data: v.data.clone().map(cosmwasm_std::Binary::new),
        features: Some(v.features.clone()), royalty_rate: Some(v.royalty_rate.clone()),
    };
    cosmwasm_std::to_json_binary(&ClassResponse { class }).unwrap().to_vec()
}

/// JSON encoding of a class listing response with its pagination report.
pub uninterp spec fn classes_response_json(
    cs: Seq<crate::queries::ClassViewV>,
    next_key: Option<Seq<char>>,
    total: Option<u64>,
) -> Seq<u8>;

/// Relies on `cosmwasm_std::to_json_binary` over the SDK's class listing
/// response: the bytes depend on the listed classes and the pagination
/// report alone.
/// Serialization of this plain struct cannot fail.
#[allow(deprecated)]
#[verifier::external_body]
pub(crate) fn classes_response_encode(
    vs: &Vec<crate::queries::ClassView>,
    next_key: &Option<String>,
    total: Option<u64>,
) -> (r: Vec<u8>)
    ensures
        r@ == classes_response_json(
            vs@.map_values(|x: crate::queries::ClassView| x@),
            match *next_key {
                Some(ref k) => Some(k@),
                None => None,
            },
            total,
        ),
{
    let classes = vs.iter().map(|v| Class {
        id: v.id.clone(), issuer: v.issuer.clone(), name: v.name.clone(), symbol: v.symbol.clone(),
        description: Some(v.description.clone()), uri: Some(v.uri.clone()),
        uri_hash: Some(v.uri_hash.clone()), data: v.data.clone().map(cosmwasm_std::Binary::new),
        features: Some(v.features.clone()), royalty_rate: Some(v.royalty_rate.clone()),
    }).collect();
    let pagination = PageResponse { next_key: next_key.clone(), total };
    cosmwasm_std::to_json_binary(&ClassesResponse { classes, pagination }).unwrap().to_vec()
}

/// JSON encoding of a single-token query response.
pub uninterp spec fn token_response_json(t: crate::queries::TokenViewV) -> Seq<u8>;

/// Relies on `cosmwasm_std::to_json_binary` over the SDK's token response:
/// the bytes depend on the field contents alone (URI fields empty, no
/// extension, no admin, as that response shape reports them).
/// Serialization of this plain struct cannot fail.
#[allow(deprecated)]
#[verifier::external_body]
pub(crate) fn token_response_encode(v: &crate::queries::TokenView) -> (r: Vec<u8>)
    ensures
        r@ == token_response_json(v@),
{
    let token = Token {
        denom: v.denom.clone(), issuer: v.issuer.clone(), symbol: v.symbol.clone(),
        subunit: v.subunit.clone(), precision: v.precision, description: Some(v.description.clone()),
        globally_frozen: Some(v.globally_frozen), features: Some(v.features.clone()),
        burn_rate: v.burn_rate.clone(), send_commission_rate: v.send_commission_rate.clone(),
        version: v.version, uri: Some(String::new()),
        uri_hash: Some(String::new()), extension_cw_address: None, admin: None,
    };
    cosmwasm_std::to_json_binary(&TokenResponse { token }).unwrap().to_vec()
}

/// JSON encoding of a token listing response with its pagination report.
pub uninterp spec fn tokens_response_json(
    ts: Seq<crate::queries::TokenViewV>,
    next_key: Option<Seq<char>>,
    total: Option<u64>,
) -> Seq<u8>;

/// Relies on `cosmwasm_std::to_json_binary` over the SDK's token listing
/// response: the bytes depend on the listed tokens and the pagination
/// report alone.
/// Serialization of this plain struct cannot fail.
#[allow(deprecated)]
#[verifier::external_body]
pub(crate) fn tokens_response_encode(
    vs: &Vec<crate::queries::TokenView>,
    next_key: &Option<String>,
    total: Option<u64>,
) -> (r: Vec<u8>)
    ensures
        r@ == tokens_response_json(
            vs@.map_values(|x: crate::queries::TokenView| x@),
            match *next_key {
                Some(ref k) => Some(k@),
                None => None,
            },
            total,
        ),
{
    let tokens = vs.iter().map(|v| Token {
        denom: v.denom.clone(), issuer: v.issuer.clone(), symbol: v.symbol.clone(),
        subunit: v.subunit.clone(), precision: v.precision, description: Some(v.description.clone()),
        globally_frozen: Some(v.globally_frozen), features: Some(v.features.clone()),
        burn_rate: v.burn_rate.clone(), send_commission_rate: v.send_commission_rate.clone(),
        version: v.version, uri: Some(String::new()),
        uri_hash: Some(String::new()), extension_cw_address: None, admin: None,
    }).collect();
    let pagination = PageResponse { next_key: next_key.clone(), total };
    cosmwasm_std::to_json_binary(&TokensResponse { tokens, pagination }).unwrap().to_vec()
}


/// What decoding a binary payload as the FT `MsgIssue` yields.
pub uninterp spec fn ft_issue_decoded(b: Seq<u8>) -> Option<crate::msgs::IssueMsgV>;

/// Relies on prost decoding of `coreum.asset.ft.v1.MsgIssue`: deterministic
/// in the bytes, `None` exactly when they do not decode.
#[verifier::external_body]
pub(crate) fn decode_ft_issue(b: &[u8]) -> (r: Result<crate::msgs::IssueMsg, String>)
    ensures
        match r {
            Ok(m) => ft_issue_decoded(b@) == Some(m@),
            Err(_) => ft_issue_decoded(b@) is None,
        },
{
    let m: coreum_wasm_sdk::types::coreum::asset::ft::v1::MsgIssue =
        match prost::Message::decode(b) {
            Ok(m) => m,
            Err(e) => return Err(format!("{e}")),
        };
    Ok(crate::msgs::IssueMsg {
        issuer: m.issuer, symbol: m.symbol, subunit: m.subunit, precision: m.precision,
        initial_amount: m.initial_amount, description: m.description,
    })
}

/// What decoding a binary payload as the FT `MsgMint` yields.
pub uninterp spec fn ft_mint_decoded(b: Seq<u8>) -> Option<crate::msgs::MintMsgV>;

/// Relies on prost decoding of `coreum.asset.ft.v1.MsgMint`: deterministic
/// in the bytes, `None` exactly when they do not decode.
#[verifier::external_body]
pub(crate) fn decode_ft_mint(b: &[u8]) -> (r: Result<crate::msgs::MintMsg, String>)
    ensures
        match r {
            Ok(m) => ft_mint_decoded(b@) == Some(m@),
            Err(_) => ft_mint_decoded(b@) is None,
        },
{
    let m: coreum_wasm_sdk::types::coreum::asset::ft::v1::MsgMint =
        match prost::Message::decode(b) {
            Ok(m) => m,
            Err(e) => return Err(format!("{e}")),
        };
    Ok(crate::msgs::MintMsg {
        sender: m.sender,
        coin: m.coin.map(|c| crate::msgs::CoinMsg { denom: c.denom, amount: c.amount }),
        recipient: m.recipient,
    })
}

/// What decoding a binary payload as the FT `MsgBurn` yields.
pub uninterp spec fn ft_burn_decoded(b: Seq<u8>) -> Option<crate::msgs::BurnMsgV>;

/// Relies on prost decoding of `coreum.asset.ft.v1.MsgBurn`: deterministic
/// in the bytes, `None` exactly when they do not decode.
#[verifier::external_body]
pub(crate) fn decode_ft_burn(b: &[u8]) -> (r: Result<crate::msgs::BurnMsg, String>)
    ensures
        match r {
            Ok(m) => ft_burn_decoded(b@) == Some(m@),
            Err(_) => ft_burn_decoded(b@) is None,
        },
{
    let m: coreum_wasm_sdk::types::coreum::asset::ft::v1::MsgBurn =
        match prost::Message::decode(b) {
            Ok(m) => m,
            Err(e) => return Err(format!("{e}")),
        };
    Ok(crate::msgs::BurnMsg {
        sender: m.sender,
        coin: m.coin.map(|c| crate::msgs::CoinMsg { denom: c.denom, amount: c.amount }),
    })
}

/// What decoding a binary payload as the NFT `MsgIssueClass` yields.
pub uninterp spec fn nft_issue_class_decoded(b: Seq<u8>) -> Option<crate::msgs::IssueClassMsgV>;

/// Relies on prost decoding of `coreum.asset.nft.v1.MsgIssueClass`:
/// deterministic in the bytes, `None` exactly when they do not decode.
#[verifier::external_body]
pub(crate) fn decode_nft_issue_class(b: &[u8]) -> (r: Result<crate::msgs::IssueClassMsg, String>)
    ensures
        match r {
            Ok(m) => nft_issue_class_decoded(b@) == Some(m@),
            Err(_) => nft_issue_class_decoded(b@) is None,
        },
{
    let m: coreum_wasm_sdk::types::coreum::asset::nft::v1::MsgIssueClass =
        match prost::Message::decode(b) {
            Ok(m) => m,
            Err(e) => return Err(format!("{e}")),
        };
    Ok(crate::msgs::IssueClassMsg {
        issuer: m.issuer, name: m.name, symbol: m.symbol, description: m.description,
        uri: m.uri, uri_hash: m.uri_hash, data: m.data.map(|a| a.value), features: m.features,
    })
}

/// What decoding a binary payload as the NFT `MsgMint` yields.
pub uninterp spec fn nft_mint_decoded(b: Seq<u8>) -> Option<crate::msgs::NftMintMsgV>;

/// Relies on prost decoding of `coreum.asset.nft.v1.MsgMint`: deterministic
/// in the bytes, `None` exactly when they do not decode.
#[verifier::external_body]
pub(crate) fn decode_nft_mint(b: &[u8]) -> (r: Result<crate::msgs::NftMintMsg, String>)
    ensures
        match r {
            Ok(m) => nft_mint_decoded(b@) == Some(m@),
            Err(_) => nft_mint_decoded(b@) is None,
        },
{
    let m: coreum_wasm_sdk::types::coreum::asset::nft::v1::MsgMint =
        match prost::Message::decode(b) {
            Ok(m) => m,
            Err(e) => return Err(format!("{e}")),
        };
    Ok(crate::msgs::NftMintMsg {
        sender: m.sender, class_id: m.class_id, id: m.id, uri: m.uri,
        recipient: m.recipient, data: m.data.map(|a| a.value),
    })
}

/// What decoding a binary payload as the NFT `MsgBurn` yields.
pub uninterp spec fn nft_burn_decoded(b: Seq<u8>) -> Option<crate::msgs::NftBurnMsgV>;

/// Relies on prost decoding of `coreum.asset.nft.v1.MsgBurn`: deterministic
/// in the bytes, `None` exactly when they do not decode.
#[verifier::external_body]
pub(crate) fn decode_nft_burn(b: &[u8]) -> (r: Result<crate::msgs::NftBurnMsg, String>)
    ensures
        match r {
            Ok(m) => nft_burn_decoded(b@) == Some(m@),
            Err(_) => nft_burn_decoded(b@) is None,
        },
{
    let m: coreum_wasm_sdk::types::coreum::asset::nft::v1::MsgBurn =
        match prost::Message::decode(b) {
            Ok(m) => m,
            Err(e) => return Err(format!("{e}")),
        };
    Ok(crate::msgs::NftBurnMsg { sender: m.sender, class_id: m.class_id, id: m.id })
}

/// What decoding a binary payload as the NFT `MsgSend` yields.
pub uninterp spec fn nft_send_decoded(b: Seq<u8>) -> Option<crate::msgs::NftSendMsgV>;

/// Relies on prost decoding of `cosmos.nft.v1beta1.MsgSend`: deterministic
/// in the bytes, `None` exactly when they do not decode.
#[verifier::external_body]
pub(crate) fn decode_nft_send(b: &[u8]) -> (r: Result<crate::msgs::NftSendMsg, String>)
    ensures
        match r {
            Ok(m) => nft_send_decoded(b@) == Some(m@),
            Err(_) => nft_send_decoded(b@) is None,
        },
{
    let m: coreum_wasm_sdk::types::cosmos::nft::v1beta1::MsgSend =
        match prost::Message::decode(b) {
            Ok(m) => m,
            Err(e) => return Err(format!("{e}")),
        };
    Ok(crate::msgs::NftSendMsg {
        sender: m.sender, class_id: m.class_id, id: m.id, receiver: m.receiver,
    })
}


/// Protobuf encoding of the denom-creation response for a new denom.
pub uninterp spec fn create_denom_resp_encoded(d: Seq<char>) -> Seq<u8>;

/// Relies on prost encoding of `osmosis.tokenfactory.v1beta1.MsgCreateDenomResponse`:
/// the bytes depend on the new denom alone.
#[verifier::external_body]
pub(crate) fn encode_create_denom_resp(denom: &String) -> (r: Vec<u8>)
    ensures
        r@ == create_denom_resp_encoded(denom@),
{
    let resp = osmosis_std::types::osmosis::tokenfactory::v1beta1::MsgCreateDenomResponse {
        new_token_denom: denom.clone(),
    };
    resp.to_proto_bytes()
}

/// Relies on prost encoding of a message without fields (the mint and burn
/// responses): the encoding is empty.
#[verifier::external_body]
pub(crate) fn encode_empty_resp() -> (r: Vec<u8>)
    ensures
        r@ == Seq::<u8>::empty(),
{
    let resp = osmosis_std::types::osmosis::tokenfactory::v1beta1::MsgMintResponse {};
    resp.to_proto_bytes()
}


/// What decoding a binary payload as `MsgCreateDenom` yields.
pub uninterp spec fn create_denom_decoded(b: Seq<u8>) -> Option<crate::msgs::CreateDenomMsgV>;

/// Relies on the SDK's `TryFrom<Binary>` (prost decoding) for
/// `osmosis.tokenfactory.v1beta1.MsgCreateDenom`: deterministic in the
/// bytes, `None` exactly when they do not decode.
#[verifier::external_body]
pub(crate) fn decode_create_denom(b: &[u8]) -> (r: Result<crate::msgs::CreateDenomMsg, String>)
    ensures
        match r {
            Ok(m) => create_denom_decoded(b@) == Some(m@),
            Err(_) => create_denom_decoded(b@) is None,
        },
{
    let bin = cosmwasm_std::Binary::new(b.to_vec());
    let m = match osmosis_std::types::osmosis::tokenfactory::v1beta1::MsgCreateDenom::try_from(
        bin,
    ) {
        Ok(m) => m,
        Err(e) => return Err(e.to_string()),
    };
    Ok(crate::msgs::CreateDenomMsg { sender: m.sender, subdenom: m.subdenom })
}

/// What decoding a binary payload as the factory `MsgMint` yields.
pub uninterp spec fn osmo_mint_decoded(b: Seq<u8>) -> Option<crate::msgs::OsmoMintMsgV>;

/// Relies on the SDK's `TryFrom<Binary>` (prost decoding) for
/// `osmosis.tokenfactory.v1beta1.MsgMint`: deterministic in the bytes,
/// `None` exactly when they do not decode.
#[verifier::external_body]
pub(crate) fn decode_osmo_mint(b: &[u8]) -> (r: Result<crate::msgs::OsmoMintMsg, String>)
    ensures
        match r {
            Ok(m) => osmo_mint_decoded(b@) == Some(m@),
            Err(_) => osmo_mint_decoded(b@) is None,
        },
{
    let bin = cosmwasm_std::Binary::new(b.to_vec());
    let m = match osmosis_std::types::osmosis::tokenfactory::v1beta1::MsgMint::try_from(bin) {
        Ok(m) => m,
        Err(e) => return Err(e.to_string()),
    };
    Ok(crate::msgs::OsmoMintMsg {
        sender: m.sender,
        amount: m.amount.map(|c| crate::msgs::CoinMsg { denom: c.denom, amount: c.amount }),
        mint_to_address: m.mint_to_address,
    })
}

/// What decoding a binary payload as the factory `MsgBurn` yields.
pub uninterp spec fn osmo_burn_decoded(b: Seq<u8>) -> Option<crate::msgs::OsmoBurnMsgV>;

/// Relies on the SDK's `TryFrom<Binary>` (prost decoding) for
/// `osmosis.tokenfactory.v1beta1.MsgBurn`: deterministic in the bytes,
/// `None` exactly when they do not decode.
#[verifier::external_body]
pub(crate) fn decode_osmo_burn(b: &[u8]) -> (r: Result<crate::msgs::OsmoBurnMsg, String>)
    ensures
        match r {
            Ok(m) => osmo_burn_decoded(b@) == Some(m@),
            Err(_) => osmo_burn_decoded(b@) is None,
        },
{
    let bin = cosmwasm_std::Binary::new(b.to_vec());
    let m = match osmosis_std::types::osmosis::tokenfactory::v1beta1::MsgBurn::try_from(bin) {
        Ok(m) => m,
        Err(e) => return Err(e.to_string()),
    };
    Ok(crate::msgs::OsmoBurnMsg {
        sender: m.sender,
        amount: m.amount.map(|c| crate::msgs::CoinMsg { denom: c.denom, amount: c.amount }),
        burn_from_address: m.burn_from_address,
    })
}


/// What decoding a binary payload as `QueryAllBalancesRequest` yields: the
/// queried address.
pub uninterp spec fn all_balances_req_decoded(b: Seq<u8>) -> Option<Seq<char>>;

/// Relies on the SDK's `TryFrom<Binary>` (prost decoding) for
/// `cosmos.bank.v1beta1.QueryAllBalancesRequest`.
#[verifier::external_body]
pub(crate) fn decode_all_balances_req(b: &[u8]) -> (r: Result<String, String>)
    ensures
        match r {
            Ok(a) => all_balances_req_decoded(b@) == Some(a@),
            Err(_) => all_balances_req_decoded(b@) is None,
        },
{
    let bin = cosmwasm_std::Binary::new(b.to_vec());
    match osmosis_std::types::cosmos::bank::v1beta1::QueryAllBalancesRequest::try_from(bin) {
        Ok(m) => Ok(m.address),
        Err(e) => Err(e.to_string()),
    }
}

/// What decoding a binary payload as `QueryBalanceRequest` yields: the
/// queried address and denom.
pub uninterp spec fn balance_req_decoded(b: Seq<u8>) -> Option<(Seq<char>, Seq<char>)>;

/// Relies on the SDK's `TryFrom<Binary>` (prost decoding) for
/// `cosmos.bank.v1beta1.QueryBalanceRequest`.
#[verifier::external_body]
pub(crate) fn decode_balance_req(b: &[u8]) -> (r: Result<(String, String), String>)
    ensures
        match r {
            Ok(p) => balance_req_decoded(b@) == Some((p.0@, p.1@)),
            Err(_) => balance_req_decoded(b@) is None,
        },
{
    let bin = cosmwasm_std::Binary::new(b.to_vec());
    match osmosis_std::types::cosmos::bank::v1beta1::QueryBalanceRequest::try_from(bin) {
        Ok(m) => Ok((m.address, m.denom)),
        Err(e) => Err(e.to_string()),
    }
}

/// What decoding a binary payload as `QuerySupplyOfRequest` yields: the
/// queried denom.
pub uninterp spec fn supply_req_decoded(b: Seq<u8>) -> Option<Seq<char>>;

/// Relies on the SDK's `TryFrom<Binary>` (prost decoding) for
/// `cosmos.bank.v1beta1.QuerySupplyOfRequest`.
#[verifier::external_body]
pub(crate) fn decode_supply_req(b: &[u8]) -> (r: Result<String, String>)
    ensures
        match r {
            Ok(d) => supply_req_decoded(b@) == Some(d@),
            Err(_) => supply_req_decoded(b@) is None,
        },
{
    let bin = cosmwasm_std::Binary::new(b.to_vec());
    match osmosis_std::types::cosmos::bank::v1beta1::QuerySupplyOfRequest::try_from(bin) {
        Ok(m) => Ok(m.denom),
        Err(e) => Err(e.to_string()),
    }
}

/// What decoding a binary payload as `QuerySmartContractStateRequest`
/// yields: the contract address and the inner query bytes.
pub uninterp spec fn smart_req_decoded(b: Seq<u8>) -> Option<(Seq<char>, Seq<u8>)>;

/// Relies on the SDK's `TryFrom<Binary>` (prost decoding) for
/// `cosmwasm.wasm.v1.QuerySmartContractStateRequest`.
#[verifier::external_body]
pub(crate) fn decode_smart_req(b: &[u8]) -> (r: Result<(String, Vec<u8>), String>)
    ensures
        match r {
            Ok(p) => smart_req_decoded(b@) == Some((p.0@, p.1@)),
            Err(_) => smart_req_decoded(b@) is None,
        },
{
    let bin = cosmwasm_std::Binary::new(b.to_vec());
    match osmosis_std::types::cosmwasm::wasm::v1::QuerySmartContractStateRequest::try_from(bin) {
        Ok(m) => Ok((m.address, m.query_data)),
        Err(e) => Err(e.to_string()),
    }
}

/// What decoding a binary payload as `QueryContractInfoRequest` yields: the
/// contract address.
pub uninterp spec fn contract_info_req_decoded(b: Seq<u8>) -> Option<Seq<char>>;

/// Relies on the SDK's `TryFrom<Binary>` (prost decoding) for
/// `cosmwasm.wasm.v1.QueryContractInfoRequest`.
#[verifier::external_body]
pub(crate) fn decode_contract_info_req(b: &[u8]) -> (r: Result<String, String>)
    ensures
        match r {
            Ok(a) => contract_info_req_decoded(b@) == Some(a@),
            Err(_) => contract_info_req_decoded(b@) is None,
        },
{
    let bin = cosmwasm_std::Binary::new(b.to_vec());
    match osmosis_std::types::cosmwasm::wasm::v1::QueryContractInfoRequest::try_from(bin) {
        Ok(m) => Ok(m.address),
        Err(e) => Err(e.to_string()),
    }
}

/// JSON encoding of an all-balances response over (denom, amount) pairs.
pub uninterp spec fn all_balances_resp_json(coins: Seq<(Seq<char>, Seq<char>)>) -> Seq<u8>;

/// Relies on `cosmwasm_std::to_json_binary` over the SDK's
/// `QueryAllBalancesResponse`: the bytes depend on the coin list alone.
/// Serialization of this plain struct cannot fail.
#[verifier::external_body]
pub(crate) fn encode_all_balances_resp(coins: &Vec<(String, String)>) -> (r: Vec<u8>)
    ensures
        r@ == all_balances_resp_json(coins@.map_values(|p: (String, String)| (p.0@, p.1@))),
{
    let balances = coins.iter().map(|p| osmosis_std::types::cosmos::base::v1beta1::Coin {
        denom: p.0.clone(),
        amount: p.1.clone(),
    }).collect();
    let resp = osmosis_std::types::cosmos::bank::v1beta1::QueryAllBalancesResponse {
        balances,
        pagination: None,
    };
    cosmwasm_std::to_json_binary(&resp).unwrap().to_vec()
}

/// JSON encoding of a single-balance response.
pub uninterp spec fn balance_resp_json(denom: Seq<char>, amount: Seq<char>) -> Seq<u8>;

/// Relies on `cosmwasm_std::to_json_binary` over the SDK's
/// `QueryBalanceResponse`: the bytes depend on the coin alone.
/// Serialization of this plain struct cannot fail.
#[verifier::external_body]
pub(crate) fn encode_balance_resp(denom: &String, amount: &String) -> (r: Vec<u8>)
    ensures
        r@ == balance_resp_json(denom@, amount@),
{
    let resp = osmosis_std::types::cosmos::bank::v1beta1::QueryBalanceResponse {
        balance: Some(osmosis_std::types::cosmos::base::v1beta1::Coin {
            denom: denom.clone(),
            amount: amount.clone(),
        }),
    };
    cosmwasm_std::to_json_binary(&resp).unwrap().to_vec()
}

/// JSON encoding of a supply-of response.
pub uninterp spec fn supply_resp_json(denom: Seq<char>, amount: Seq<char>) -> Seq<u8>;

/// Relies on `cosmwasm_std::to_json_binary` over the SDK's
/// `QuerySupplyOfResponse`: the bytes depend on the coin alone.
/// Serialization of this plain struct cannot fail.
#[verifier::external_body]
pub(crate) fn encode_supply_resp(denom: &String, amount: &String) -> (r: Vec<u8>)
    ensures
        r@ == supply_resp_json(denom@, amount@),
{
    let resp = osmosis_std::types::cosmos::bank::v1beta1::QuerySupplyOfResponse {
        amount: Some(osmosis_std::types::cosmos::base::v1beta1::Coin {
            denom: denom.clone(),
            amount: amount.clone(),
        }),
    };
    cosmwasm_std::to_json_binary(&resp).unwrap().to_vec()
}

/// JSON encoding of a smart-contract-state response carrying raw result
/// bytes.
pub uninterp spec fn smart_resp_json(data: Seq<u8>) -> Seq<u8>;

/// Relies on `cosmwasm_std::to_json_binary` over the SDK's
/// `QuerySmartContractStateResponse`: the bytes depend on the payload alone.
/// Serialization of this plain struct cannot fail.
#[verifier::external_body]
pub(crate) fn encode_smart_resp(data: &Vec<u8>) -> (r: Vec<u8>)
    ensures
        r@ == smart_resp_json(data@),
{
    let resp = osmosis_std::types::cosmwasm::wasm::v1::QuerySmartContractStateResponse {
        data: data.clone(),
    };
    cosmwasm_std::to_json_binary(&resp).unwrap().to_vec()
}

/// JSON encoding of a contract-info response.
pub uninterp spec fn contract_info_resp_json(
    address: Seq<char>,
    code_id: u64,
    creator: Seq<char>,
    admin: Seq<char>,
    ibc_port: Seq<char>,
) -> Seq<u8>;

/// Relies on `cosmwasm_std::to_json_binary` over the SDK's
/// `QueryContractInfoResponse`: the bytes depend on the fields alone (label
/// empty, no creation data, no extension, as the bridge reports them).
/// Serialization of this plain struct cannot fail.
#[verifier::external_body]
pub(crate) fn encode_contract_info_resp(
    address: &String,
    code_id: u64,
    creator: &String,
    admin: &String,
    ibc_port: &String,
) -> (r: Vec<u8>)
    ensures
        r@ == contract_info_resp_json(address@, code_id, creator@, admin@, ibc_port@),
{
    let info = osmosis_std::types::cosmwasm::wasm::v1::ContractInfo {
        code_id, creator: creator.clone(), admin: admin.clone(), label: String::new(),
        created: None, ibc_port_id: ibc_port.clone(), extension: None,
    };
    let resp = osmosis_std::types::cosmwasm::wasm::v1::QueryContractInfoResponse {
        address: address.clone(),
        contract_info: Some(info),
    };
    cosmwasm_std::to_json_binary(&resp).unwrap().to_vec()
}

} // verus!
