//! The unified query bridge against the bank and a stub contract host, and
//! the token/class sides of the custom query module.
use coreum_wasm_sdk::deprecated::assetft::{TokenResponse, TokensResponse};
use coreum_wasm_sdk::deprecated::assetnft::{ClassResponse, ClassesResponse};
use cosmwasm_std::from_json;
use cw_module_sim::bank::Bank;
use cw_module_sim::errors::ModuleError;
use cw_module_sim::msgs::IssueMsg;
use cw_module_sim::queries::{CoreumQuery, CoreumQueryModule};
use cw_module_sim::state::SimStorage;
use cw_module_sim::token_factory_coreum::TokenFactory;
use cw_module_sim::unified_stargate::{
    ContractInfoVals, UnifiedStargate, WasmHost, QUERY_ALL_BALANCES_PATH, QUERY_BALANCE_PATH,
    QUERY_SUPPLY_PATH, QUERY_WASM_CONTRACT_INFO_PATH, QUERY_WASM_CONTRACT_SMART_PATH,
};
use osmosis_std::types::cosmos::bank::v1beta1::{
    QueryAllBalancesRequest, QueryAllBalancesResponse, QueryBalanceRequest, QueryBalanceResponse,
    QuerySupplyOfRequest, QuerySupplyOfResponse,
};
use osmosis_std::types::cosmwasm::wasm::v1::{
    QueryContractInfoRequest, QueryContractInfoResponse, QuerySmartContractStateRequest,
    QuerySmartContractStateResponse,
};

struct StubHost;

impl WasmHost for StubHost {
    fn contract_info(&self, address: &String) -> Result<ContractInfoVals, ModuleError> {
        if address == "contract_1_1" {
            Ok(ContractInfoVals {
                code_id: 1,
                creator: "creator".to_string(),
                admin: String::new(),
                ibc_port: String::new(),
            })
        } else {
            Err(ModuleError::HostError { message: format!("no contract at {address}") })
        }
    }

    fn smart_query(&self, address: &String, msg: &Vec<u8>) -> Result<Vec<u8>, ModuleError> {
        if address == "contract_1_1" {
            let mut out = msg.clone();
            out.reverse();
            Ok(out)
        } else {
            Err(ModuleError::HostError { message: "Generic error: not found".to_string() })
        }
    }
}

type Bridge = UnifiedStargate<TokenFactory>;

#[test]
fn bridge_answers_balance_query() {
    let bridge: Bridge = UnifiedStargate::new_without_extra();
    let storage = SimStorage::new();
    let mut bank = Bank::new();
    bank.mint("alice", "ucore", 550).unwrap();
    let req = QueryBalanceRequest { address: "alice".to_string(), denom: "ucore".to_string() };
    let out = bridge
        .query(&storage, &bank, &StubHost, QUERY_BALANCE_PATH, &req.to_proto_bytes())
        .unwrap();
    let resp: QueryBalanceResponse = from_json(out).unwrap();
    let coin = resp.balance.unwrap();
    assert_eq!(coin.denom, "ucore");
    assert_eq!(coin.amount, "550");
}

#[test]
fn bridge_answers_all_balances_query() {
    let bridge: Bridge = UnifiedStargate::new_without_extra();
    let storage = SimStorage::new();
    let mut bank = Bank::new();
    bank.mint("alice", "ucore", 5).unwrap();
    bank.mint("alice", "uusd", 7).unwrap();
    bank.mint("bob", "ucore", 11).unwrap();
    let req = QueryAllBalancesRequest { address: "alice".to_string(), pagination: None, resolve_denom: false };
    let out = bridge
        .query(&storage, &bank, &StubHost, QUERY_ALL_BALANCES_PATH, &req.to_proto_bytes())
        .unwrap();
    let resp: QueryAllBalancesResponse = from_json(out).unwrap();
    assert_eq!(resp.balances.len(), 2);
    assert_eq!(resp.balances[0].denom, "ucore");
    assert_eq!(resp.balances[0].amount, "5");
    assert_eq!(resp.balances[1].denom, "uusd");
    assert_eq!(resp.balances[1].amount, "7");
}

#[test]
fn bridge_answers_supply_query() {
    let bridge: Bridge = UnifiedStargate::new_without_extra();
    let storage = SimStorage::new();
    let mut bank = Bank::new();
    bank.mint("alice", "ucore", 5).unwrap();
    bank.mint("bob", "ucore", 11).unwrap();
    let req = QuerySupplyOfRequest { denom: "ucore".to_string() };
    let out = bridge
        .query(&storage, &bank, &StubHost, QUERY_SUPPLY_PATH, &req.to_proto_bytes())
        .unwrap();
    let resp: QuerySupplyOfResponse = from_json(out).unwrap();
    let coin = resp.amount.unwrap();
    assert_eq!(coin.denom, "ucore");
    assert_eq!(coin.amount, "16");
}

#[test]
fn bridge_passes_smart_query_result_through() {
    let bridge: Bridge = UnifiedStargate::new_without_extra();
    let storage = SimStorage::new();
    let bank = Bank::new();
    let req = QuerySmartContractStateRequest {
        address: "contract_1_1".to_string(),
        query_data: vec![1, 2, 3],
    };
    let out = bridge
        .query(&storage, &bank, &StubHost, QUERY_WASM_CONTRACT_SMART_PATH, &req.to_proto_bytes())
        .unwrap();
    let resp: QuerySmartContractStateResponse = from_json(out).unwrap();
    assert_eq!(resp.data, vec![3, 2, 1]);
}

#[test]
fn bridge_propagates_smart_query_error() {
    let bridge: Bridge = UnifiedStargate::new_without_extra();
    let storage = SimStorage::new();
    let bank = Bank::new();
    let req = QuerySmartContractStateRequest {
        address: "missing".to_string(),
        query_data: vec![],
    };
    let err = bridge
        .query(&storage, &bank, &StubHost, QUERY_WASM_CONTRACT_SMART_PATH, &req.to_proto_bytes())
        .unwrap_err();
    assert_eq!(err.message(), "Generic error: not found");
}

#[test]
fn bridge_answers_contract_info_query() {
    let bridge: Bridge = UnifiedStargate::new_without_extra();
    let storage = SimStorage::new();
    let bank = Bank::new();
    let req = QueryContractInfoRequest { address: "contract_1_1".to_string() };
    let out = bridge
        .query(&storage, &bank, &StubHost, QUERY_WASM_CONTRACT_INFO_PATH, &req.to_proto_bytes())
        .unwrap();
    let resp: QueryContractInfoResponse = from_json(out).unwrap();
    assert_eq!(resp.address, "contract_1_1");
    let info = resp.contract_info.unwrap();
    assert_eq!(info.code_id, 1);
    assert_eq!(info.creator, "creator");
}

#[test]
fn bridge_rejects_unknown_path_without_extension() {
    let bridge: Bridge = UnifiedStargate::new_without_extra();
    let storage = SimStorage::new();
    let bank = Bank::new();
    let err = bridge
        .query(&storage, &bank, &StubHost, "/unknown.Query/Nope", &[7, 0, 255])
        .unwrap_err();
    assert_eq!(
        err.message(),
        "Unexpected stargate query: path=/unknown.Query/Nope, data=[7, 0, 255]"
    );
}

#[test]
fn bridge_forwards_unknown_path_to_extension() {
    let extra = TokenFactory::new("", 32, 16, 75, "10000000ucore");
    let bridge: Bridge = UnifiedStargate::new_with_extra(extra);
    let storage = SimStorage::new();
    let bank = Bank::new();
    // the nested token factory refuses generic queries
    let err = bridge
        .query(&storage, &bank, &StubHost, "/unknown.Query/Nope", &[])
        .unwrap_err();
    assert_eq!(err.message(), "Unsupported query type: Stargate queries are disabled");
}

#[test]
fn bridge_execute_without_extension_fails() {
    let bridge: Bridge = UnifiedStargate::new_without_extra();
    let mut storage = SimStorage::new();
    let mut bank = Bank::new();
    let err = bridge
        .execute(&mut storage, &mut bank, &"sender".to_string(), "/a.Msg", &[])
        .unwrap_err();
    assert_eq!(err.message(), "No stargate exec handler for /a.Msg");
}

fn issued(storage: &mut SimStorage, bank: &mut Bank, subunit: &str, issuer: &str) {
    let tf = TokenFactory::new("", 32, 16, 75, "10000000ucore");
    bank.mint(issuer, "ucore", 10000000).unwrap();
    let msg = IssueMsg {
        issuer: issuer.to_string(),
        symbol: format!("{}sym", subunit).to_uppercase(),
        subunit: subunit.to_string(),
        precision: 6,
        initial_amount: "100".to_string(),
        description: "a token".to_string(),
    };
    tf.issue(storage, bank, &msg, &issuer.to_string()).unwrap();
}

#[test]
fn token_query_reads_issuance_record() {
    let mut storage = SimStorage::new();
    let mut bank = Bank::new();
    issued(&mut storage, &mut bank, "ashare", "core1issuer");
    let queries = CoreumQueryModule::new();
    let q = CoreumQuery::AssetFtToken { denom: "ashare-core1issuer".to_string() };
    let resp: TokenResponse = from_json(queries.query(&storage, &q).unwrap()).unwrap();
    assert_eq!(resp.token.denom, "ashare-core1issuer");
    assert_eq!(resp.token.issuer, "core1issuer");
    assert_eq!(resp.token.subunit, "ashare");
    assert_eq!(resp.token.precision, 6);
}

#[test]
fn token_query_answers_native_denom() {
    let storage = SimStorage::new();
    let queries = CoreumQueryModule::new();
    let q = CoreumQuery::AssetFtToken { denom: "ucore".to_string() };
    let resp: TokenResponse = from_json(queries.query(&storage, &q).unwrap()).unwrap();
    assert_eq!(resp.token.symbol, "CORE");
    assert_eq!(resp.token.precision, 6);
    assert_eq!(resp.token.description.unwrap(), "Native Coreum token");
}

#[test]
fn token_query_unknown_denom_fails() {
    let storage = SimStorage::new();
    let queries = CoreumQueryModule::new();
    let q = CoreumQuery::AssetFtToken { denom: "nothere".to_string() };
    let err = queries.query(&storage, &q).unwrap_err();
    assert_eq!(err.message(), "FT not found for denom `nothere`");
}

#[test]
fn tokens_listing_filters_by_issuer() {
    let mut storage = SimStorage::new();
    let mut bank = Bank::new();
    issued(&mut storage, &mut bank, "ashare", "alice");
    issued(&mut storage, &mut bank, "bshare", "bob");
    let queries = CoreumQueryModule::new();
    let q = CoreumQuery::AssetFtTokens { issuer: "alice".to_string() };
    let resp: TokensResponse = from_json(queries.query(&storage, &q).unwrap()).unwrap();
    assert_eq!(resp.tokens.len(), 1);
    assert_eq!(resp.tokens[0].denom, "ashare-alice");
    let q = CoreumQuery::AssetFtTokens { issuer: String::new() };
    let resp: TokensResponse = from_json(queries.query(&storage, &q).unwrap()).unwrap();
    assert_eq!(resp.tokens.len(), 2);
}

#[test]
fn class_query_and_listing() {
    let mut storage = SimStorage::new();
    let mut bank = Bank::new();
    let tf = TokenFactory::new("", 32, 16, 75, "10000000ucore");
    let msg = cw_module_sim::msgs::IssueClassMsg {
        issuer: "alice".to_string(),
        name: "Gallery".to_string(),
        symbol: "ART".to_string(),
        description: "pictures".to_string(),
        uri: "ipfs://gallery".to_string(),
        uri_hash: String::new(),
        data: None,
        features: vec![],
    };
    tf.issue_class(&mut storage, &mut bank, &msg, &"alice".to_string()).unwrap();
    let queries = CoreumQueryModule::new();
    let q = CoreumQuery::AssetNftClass { id: "art-alice".to_string() };
    let resp: ClassResponse = from_json(queries.query(&storage, &q).unwrap()).unwrap();
    assert_eq!(resp.class.id, "art-alice");
    assert_eq!(resp.class.issuer, "alice");
    assert_eq!(resp.class.name, "Gallery");
    let q = CoreumQuery::AssetNftClasses { issuer: "alice".to_string() };
    let resp: ClassesResponse = from_json(queries.query(&storage, &q).unwrap()).unwrap();
    assert_eq!(resp.classes.len(), 1);
    let q = CoreumQuery::AssetNftClasses { issuer: "nobody".to_string() };
    let resp: ClassesResponse = from_json(queries.query(&storage, &q).unwrap()).unwrap();
    assert_eq!(resp.classes.len(), 0);
}

#[test]
fn class_query_unknown_id_fails() {
    let storage = SimStorage::new();
    let queries = CoreumQueryModule::new();
    let q = CoreumQuery::AssetNftClass { id: "ghost-alice".to_string() };
    let err = queries.query(&storage, &q).unwrap_err();
    assert_eq!(err.message(), "NFT class not found for id `ghost-alice`");
}

#[test]
fn unsupported_query_variants_fail() {
    let storage = SimStorage::new();
    let queries = CoreumQueryModule::new();
    let q = CoreumQuery::NftOther { detail: "Supply { class_id: \"c\" }".to_string() };
    let err = queries.query(&storage, &q).unwrap_err();
    assert_eq!(
        err.message(),
        "Coreum NFT query not implemented: Supply { class_id: \"c\" }"
    );
    let q = CoreumQuery::Other { detail: "Gov(Proposal)".to_string() };
    let err = queries.query(&storage, &q).unwrap_err();
    assert_eq!(err.message(), "Coreum query not implemented: Gov(Proposal)");
}

#[test]
fn contract_addresses_are_deterministic() {
    let g = cw_module_sim::addr::MockAddressGenerator;
    assert_eq!(g.contract_address_string(1, 1), "contract_1_1");
    assert_eq!(g.contract_address_string(7, 42), "contract_7_42");
}

#[test]
fn tokens_listing_is_ascending_by_denom() {
    let mut storage = SimStorage::new();
    let mut bank = Bank::new();
    issued(&mut storage, &mut bank, "zshare", "alice");
    issued(&mut storage, &mut bank, "ashare", "alice");
    issued(&mut storage, &mut bank, "mshare", "alice");
    let queries = CoreumQueryModule::new();
    let q = CoreumQuery::AssetFtTokens { issuer: String::new() };
    let resp: TokensResponse = from_json(queries.query(&storage, &q).unwrap()).unwrap();
    let denoms: Vec<String> = resp.tokens.iter().map(|t| t.denom.clone()).collect();
    assert_eq!(denoms, vec!["ashare-alice", "mshare-alice", "zshare-alice"]);
}
