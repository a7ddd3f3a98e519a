//! The unified query bridge: answers a fixed menu of well-known generic
//! query paths against the native ledger (bank balances and supply, contract
//! info, smart contract state), and forwards anything else to an optional
//! nested extension module.
use vstd::prelude::*;

use crate::bank::Bank;
use crate::dispatch::StargateModule;
use crate::errors::ModuleError;
use crate::msgs::ModuleResponse;
use crate::state::SimStorage;
use crate::text::{dec_str, str_eq, u128_to_dec};
use crate::wire::{
    all_balances_req_decoded, all_balances_resp_json, balance_req_decoded, balance_resp_json,
    contract_info_req_decoded, contract_info_resp_json, decode_all_balances_req,
    decode_balance_req, decode_contract_info_req, decode_smart_req, decode_supply_req,
    encode_all_balances_resp, encode_balance_resp, encode_contract_info_resp, encode_smart_resp,
    encode_supply_resp, smart_req_decoded, smart_resp_json, supply_req_decoded, supply_resp_json,
};

verus! {

/// Query path for all balances of an account.
pub const QUERY_ALL_BALANCES_PATH: &'static str = "/cosmos.bank.v1beta1.Query/AllBalances";

/// Query path for one balance of an account.
pub const QUERY_BALANCE_PATH: &'static str = "/cosmos.bank.v1beta1.Query/Balance";

/// Query path for the supply of a denom.
pub const QUERY_SUPPLY_PATH: &'static str = "/cosmos.bank.v1beta1.Query/SupplyOf";

/// Query path for a smart contract query.
pub const QUERY_WASM_CONTRACT_SMART_PATH: &'static str =
    "/cosmwasm.wasm.v1.Query/SmartContractState";

/// Query path for raw contract state (not bridged).
pub const QUERY_WASM_CONTRACT_RAW_PATH: &'static str = "/cosmwasm.wasm.v1.Query/RawContractState";

/// Query path for contract metadata.
pub const QUERY_WASM_CONTRACT_INFO_PATH: &'static str = "/cosmwasm.wasm.v1.Query/ContractInfo";

/// Query path for code metadata (not bridged).
pub const QUERY_WASM_CODE_INFO_PATH: &'static str = "/cosmwasm.wasm.v1.Query/CodeInfo";

/// Contract metadata the host hands back for an info query.
pub struct ContractInfoVals {
    pub code_id: u64,
    pub creator: String,
    pub admin: String,
    pub ibc_port: String,
}

/// The host ledger's contract surface, which the simulator itself does not
/// implement: the bridge translates into these calls and re-encodes what
/// they return.
pub trait WasmHost {
    /// Metadata of a deployed contract.
    fn contract_info(&self, address: &String) -> (r: Result<ContractInfoVals, ModuleError>);

    /// A smart query against a contract; an application-level error comes
    /// back as a failure with the application's own text.
    fn smart_query(&self, address: &String, msg: &Vec<u8>) -> (r: Result<Vec<u8>, ModuleError>);
}

/// The bridge module: a fixed menu of well-known paths, then the optional
/// extension.
pub struct UnifiedStargate<Extra> {
    pub extra: Option<Extra>,
}

impl<Extra: StargateModule> UnifiedStargate<Extra> {
    /// A bridge without a nested extension module.
    pub fn new_without_extra() -> (r: Self)
        ensures
            r.extra is None,
    {
        UnifiedStargate { extra: None }
    }

    /// A bridge that forwards unknown traffic to the extension.
    pub fn new_with_extra(extra: Extra) -> (r: Self)
        ensures
            r.extra is Some,
    {
        UnifiedStargate { extra: Some(extra) }
    }

    /// Executes a message: the bridge itself handles none, so everything
    /// goes to the extension, or fails when none is configured.
    pub fn execute(
        &self,
        storage: &mut SimStorage,
        bank: &mut Bank,
        sender: &String,
        type_url: &str,
        value: &[u8],
    ) -> (r: Result<ModuleResponse, ModuleError>)
        requires
            old(storage).wf(),
            old(bank).inv(),
        ensures
            final(storage).wf(),
            final(bank).inv(),
            self.extra is None ==> *final(storage) == *old(storage) && *final(bank) == *old(bank)
                && (r matches Err(e) && (e matches ModuleError::NoStargateExecHandler {
                type_url: u,
            } && u@ == type_url@)),
    {
        match &self.extra {
            Some(extra) => extra.execute(storage, bank, sender, type_url, value),
            None => Err(ModuleError::NoStargateExecHandler { type_url: type_url.to_owned() }),
        }
    }

    /// Privileged entry: forwarded to the extension, or an empty success.
    pub fn sudo(&self, storage: &mut SimStorage, bank: &mut Bank) -> (r: Result<
        ModuleResponse,
        ModuleError,
    >)
        requires
            old(storage).wf(),
            old(bank).inv(),
        ensures
            final(storage).wf(),
            final(bank).inv(),
            self.extra is None ==> *final(storage) == *old(storage) && *final(bank) == *old(bank)
                && (r matches Ok(resp) && resp@.data is None && resp@.events.len() == 0),
    {
        match &self.extra {
            Some(extra) => extra.sudo(storage, bank),
            None => Ok(ModuleResponse { data: None, events: Vec::new() }),
        }
    }

    /// Answers a well-known query path from the bank or the contract host,
    /// re-encoded in the generic wire format; unknown paths go to the
    /// extension or fail.
    #[verifier::rlimit(60)]
    #[verifier::spinoff_prover]
    pub fn query<H: WasmHost>(
        &self,
        storage: &SimStorage,
        bank: &Bank,
        host: &H,
        path: &str,
        data: &[u8],
    ) -> (r: Result<Vec<u8>, ModuleError>)
        requires
            storage.wf(),
            bank.inv(),
        ensures
            path@ == QUERY_ALL_BALANCES_PATH@ ==> match all_balances_req_decoded(data@) {
                Some(addr) => r matches Ok(out) && out@ == all_balances_resp_json(
                    bank.entry_seq().filter(crate::bank::holder_pred(addr)).map_values(
                        |e: (Seq<char>, Seq<char>, u128)| (e.1, dec_str(e.2 as nat)),
                    ),
                ),
                None => bridge_decode_failed(r, "QueryAllBalancesRequest"@),
            },
            path@ != QUERY_ALL_BALANCES_PATH@ && path@ == QUERY_BALANCE_PATH@ ==> match
                balance_req_decoded(data@) {
                Some(q) => r matches Ok(out) && out@ == balance_resp_json(
                    q.1,
                    dec_str(bank.spec_balance(q.0, q.1) as nat),
                ),
                None => bridge_decode_failed(r, "QueryBalanceRequest"@),
            },
            path@ != QUERY_ALL_BALANCES_PATH@ && path@ != QUERY_BALANCE_PATH@ && path@
                == QUERY_SUPPLY_PATH@ ==> match supply_req_decoded(data@) {
                Some(d) => r matches Ok(out) && out@ == supply_resp_json(
                    d,
                    dec_str(bank.spec_supply(d) as nat),
                ),
                None => bridge_decode_failed(r, "QuerySupplyOfRequest"@),
            },
            path@ != QUERY_ALL_BALANCES_PATH@ && path@ != QUERY_BALANCE_PATH@ && path@
                != QUERY_SUPPLY_PATH@ && path@ == QUERY_WASM_CONTRACT_SMART_PATH@ ==> match
                smart_req_decoded(data@) {
                Some(q) => r matches Ok(out) ==> exists|b: Seq<u8>| out@ == smart_resp_json(b),
                None => bridge_decode_failed(r, "QuerySmartContractStateRequest"@),
            },
            path@ != QUERY_ALL_BALANCES_PATH@ && path@ != QUERY_BALANCE_PATH@ && path@
                != QUERY_SUPPLY_PATH@ && path@ != QUERY_WASM_CONTRACT_SMART_PATH@ && path@
                == QUERY_WASM_CONTRACT_INFO_PATH@ ==> match contract_info_req_decoded(data@) {
                Some(addr) => r matches Ok(out) ==> exists|
                    code_id: u64,
                    creator: Seq<char>,
                    admin: Seq<char>,
                    ibc: Seq<char>,
                |
                    out@ == contract_info_resp_json(addr, code_id, creator, admin, ibc),
                None => bridge_decode_failed(r, "QueryContractInfoRequest"@),
            },
            path@ != QUERY_ALL_BALANCES_PATH@ && path@ != QUERY_BALANCE_PATH@ && path@
                != QUERY_SUPPLY_PATH@ && path@ != QUERY_WASM_CONTRACT_SMART_PATH@ && path@
                != QUERY_WASM_CONTRACT_INFO_PATH@ && self.extra is None ==> (r matches Err(e) && (
            e matches ModuleError::UnexpectedQuery { path: p2, data: d2 } && p2@ == path@ && d2@
                == data@)),
    {
        if str_eq(path, QUERY_ALL_BALANCES_PATH) {
            let addr = match decode_all_balances_req(data) {
                Ok(a) => a,
                Err(detail) => {
                    return Err(
                        ModuleError::DecodeFail {
                            msg_kind: String::from_str("QueryAllBalancesRequest"),
                            detail,
                        },
                    );
                },
            };
            let raw = bank.balances_of(addr.as_str());
            let ghost raw0 = raw@;
            let ghost fmap = |p: (String, String)| (p.0@, p.1@);
            let ghost gmap = |e: (String, u128)| (e.0@, dec_str(e.1 as nat));
            let mut coins: Vec<(String, String)> = Vec::new();
            let n = raw.len();
            let mut i: usize = 0;
            while i < n
                invariant
                    n == raw@.len(),
                    raw@ == raw0,
                    fmap == (|p: (String, String)| (p.0@, p.1@)),
                    gmap == (|e: (String, u128)| (e.0@, dec_str(e.1 as nat))),
                    i <= n,
                    coins@.map_values(fmap) =~= raw0.take(i as int).map_values(gmap),
                decreases n - i,
            {
                proof {
                    assert(raw0.take(i + 1).drop_last() =~= raw0.take(i as int));
                    assert(raw0.take(i + 1).last() == raw0[i as int]);
                }
                let ghost coins0 = coins@;
                let denom = raw[i].0.clone();
                let amount = u128_to_dec(raw[i].1);
                coins.push((denom, amount));
                proof {
                    assert(coins@ =~= coins0.push((denom, amount)));
                    assert(denom@ == raw0[i as int].0@);
                    assert(amount@ == dec_str(raw0[i as int].1 as nat));
                    assert(fmap((denom, amount)) == gmap(raw0[i as int]));
                    assert(coins0.map_values(fmap).len() == coins0.len());
                    assert(raw0.take(i as int).map_values(gmap).len() == i);
                    assert(coins0.len() == i);
                    assert(coins@.len() == i + 1);
                    assert forall|j: int| 0 <= j < coins@.len() implies #[trigger] coins@.map_values(
                        fmap,
                    )[j] == raw0.take(i + 1).map_values(gmap)[j] by {
                        assert(coins@.map_values(fmap)[j] == fmap(coins@[j]));
                        assert(raw0.take(i + 1).map_values(gmap)[j] == gmap(raw0.take(i + 1)[j]));
                        if j < i {
                            assert(coins@[j] == coins0[j]);
                            assert(coins0.map_values(fmap)[j] == fmap(coins0[j]));
                            assert(raw0.take(i as int).map_values(gmap)[j] == gmap(
                                raw0.take(i as int)[j],
                            ));
                            assert(raw0.take(i as int)[j] == raw0.take(i + 1)[j]);
                        } else {
                            assert(coins@[j] == (denom, amount));
                            assert(raw0.take(i + 1)[j] == raw0[i as int]);
                        }
                    }
                    assert(coins@.map_values(fmap) =~= raw0.take(i + 1).map_values(gmap));
                }
                i += 1;
            }
            proof {
                assert(raw0.take(n as int) =~= raw0);
                assert(coins@.map_values(fmap) == raw0.map_values(gmap));
                assert(coins@.map_values(|p: (String, String)| (p.0@, p.1@)) =~= coins@.map_values(
                    fmap,
                ));
                assert(coins@.map_values(|p: (String, String)| (p.0@, p.1@)) =~= bank.entry_seq()
                    .filter(crate::bank::holder_pred(addr@)).map_values(
                    |e: (Seq<char>, Seq<char>, u128)| (e.1, dec_str(e.2 as nat)),
                )) by {
                    let lhs = raw0.map_values(gmap);
                    let mid = raw0.map_values(crate::bank::coin_view());
                    let flt = bank.entry_seq().filter(crate::bank::holder_pred(addr@));
                    assert(raw@ == raw0);
                    assert(raw@.map_values(crate::bank::coin_view()) == flt.map_values(
                        crate::bank::coin_proj(),
                    ));
                    assert(mid == flt.map_values(crate::bank::coin_proj()));
                    assert(mid.len() == flt.len());
                    assert forall|j: int| 0 <= j < lhs.len() implies lhs[j] == (
                    flt[j].1,
                    dec_str(flt[j].2 as nat),
                    ) by {
                        assert(lhs[j] == gmap(raw0[j]));
                        assert(mid[j] == crate::bank::coin_view()(raw0[j]));
                        assert(mid[j] == crate::bank::coin_proj()(flt[j]));
                        assert(raw0[j].0@ == flt[j].1);
                        assert(raw0[j].1 == flt[j].2);
                    }
                    assert(lhs =~= flt.map_values(
                        |e: (Seq<char>, Seq<char>, u128)| (e.1, dec_str(e.2 as nat)),
                    ));
                }
            }
            Ok(encode_all_balances_resp(&coins))
        } else if str_eq(path, QUERY_BALANCE_PATH) {
            let q = match decode_balance_req(data) {
                Ok(q) => q,
                Err(detail) => {
                    return Err(
                        ModuleError::DecodeFail {
                            msg_kind: String::from_str("QueryBalanceRequest"),
                            detail,
                        },
                    );
                },
            };
            let amount = bank.balance_of(q.0.as_str(), q.1.as_str());
            let amount_str = u128_to_dec(amount);
            Ok(encode_balance_resp(&q.1, &amount_str))
        } else if str_eq(path, QUERY_SUPPLY_PATH) {
            let denom = match decode_supply_req(data) {
                Ok(d) => d,
                Err(detail) => {
                    return Err(
                        ModuleError::DecodeFail {
                            msg_kind: String::from_str("QuerySupplyOfRequest"),
                            detail,
                        },
                    );
                },
            };
            let amount = bank.supply_of(denom.as_str());
            let amount_str = u128_to_dec(amount);
            Ok(encode_supply_resp(&denom, &amount_str))
        } else if str_eq(path, QUERY_WASM_CONTRACT_SMART_PATH) {
            let q = match decode_smart_req(data) {
                Ok(q) => q,
                Err(detail) => {
                    return Err(
                        ModuleError::DecodeFail {
                            msg_kind: String::from_str("QuerySmartContractStateRequest"),
                            detail,
                        },
                    );
                },
            };
            let outcome = encode_smart_outcome(host.smart_query(&q.0, &q.1));
            proof {
                if outcome is Ok {
                    let out = outcome->Ok_0;
                    assert(exists|b: Seq<u8>| out@ == smart_resp_json(b));
                }
            }
            outcome
        } else if str_eq(path, QUERY_WASM_CONTRACT_INFO_PATH) {
            let addr = match decode_contract_info_req(data) {
                Ok(a) => a,
                Err(detail) => {
                    return Err(
                        ModuleError::DecodeFail {
                            msg_kind: String::from_str("QueryContractInfoRequest"),
                            detail,
                        },
                    );
                },
            };
            let outcome = encode_contract_info_outcome(&addr, host.contract_info(&addr));
            proof {
                let spec_addr = contract_info_req_decoded(data@)->Some_0;
                assert(spec_addr == addr@);
                if outcome is Ok {
                    let out = outcome->Ok_0;
                    assert(exists|code_id: u64, creator: Seq<char>, admin: Seq<char>, ibc: Seq<char>|
                        out@ == contract_info_resp_json(spec_addr, code_id, creator, admin, ibc));
                }
            }
            outcome
        } else {
            match &self.extra {
                Some(extra) => extra.query(storage, bank, path, data),
                None => Err(
                    ModuleError::UnexpectedQuery {
                        path: path.to_owned(),
                        data: vstd::slice::slice_to_vec(data),
                    },
                ),
            }
        }
    }
}

/// Re-encodes a contract host's smart-query outcome: a success becomes the
/// smart-state encoding of exactly the host's bytes, unreinterpreted; a
/// failure is handed on unchanged, carrying the host's own text.
pub fn encode_smart_outcome(host_result: Result<Vec<u8>, ModuleError>) -> (r: Result<
    Vec<u8>,
    ModuleError,
>)
    ensures
        match host_result {
            Ok(b) => r matches Ok(out) && out@ == smart_resp_json(b@),
            Err(e) => r matches Err(e2) && e2 == e,
        },
{
    match host_result {
        Ok(b) => Ok(encode_smart_resp(&b)),
        Err(e) => Err(e),
    }
}

/// Re-encodes a contract host's info outcome: a success becomes the
/// contract-info encoding of exactly the host's values for the queried
/// address; a failure is handed on unchanged.
pub fn encode_contract_info_outcome(
    address: &String,
    host_result: Result<ContractInfoVals, ModuleError>,
) -> (r: Result<Vec<u8>, ModuleError>)
    ensures
        match host_result {
            Ok(info) => r matches Ok(out) && out@ == contract_info_resp_json(
                address@,
                info.code_id,
                info.creator@,
                info.admin@,
                info.ibc_port@,
            ),
            Err(e) => r matches Err(e2) && e2 == e,
        },
{
    match host_result {
        Ok(info) => Ok(
            encode_contract_info_resp(
                address,
                info.code_id,
                &info.creator,
                &info.admin,
                &info.ibc_port,
            ),
        ),
        Err(e) => Err(e),
    }
}

/// A decode failure of the named request kind.
pub open spec fn bridge_decode_failed(r: Result<Vec<u8>, ModuleError>, kind: Seq<char>) -> bool {
    r matches Err(e) && (e matches ModuleError::DecodeFail { msg_kind, detail } && msg_kind@
        == kind)
}

} // verus!
