//! The Coreum token-factory module: fungible-token issuance, mint and burn,
//! and the NFT class/token lifecycle, over the record store and the bank.
//!
//! Every handler validates first and writes only once all checks have
//! passed, so a failed call leaves no visible state change.
use vstd::prelude::*;

use crate::bank::Bank;
use crate::denom::{
    coin_from_sdk_string_coreum, run_end, sdk_amount_val, sdk_denom_of, shape_coreum_sdk,
};
use crate::errors::ModuleError;
use crate::msgs::{
    BurnMsg, BurnMsgV, Event, IssueClassMsg, IssueClassMsgV, IssueMsg, IssueMsgV, MintMsg,
    MintMsgV, ModuleResponse, NftBurnMsg, NftBurnMsgV, NftMintMsg, NftMintMsgV, NftRecord,
    NftRecordV, NftSendMsg, NftSendMsgV,
};
use crate::state::SimStorage;
use crate::wire::{
    decode_ft_burn, decode_ft_issue, decode_ft_mint, decode_nft_burn, decode_nft_issue_class,
    decode_nft_mint, decode_nft_send, ft_burn_decoded, ft_issue_decoded, ft_mint_decoded,
    lower_of, lowercase, nft_burn_decoded, nft_issue_class_decoded, nft_mint_decoded,
    nft_send_decoded,
};
use crate::text::{
    all_digits, contains_char, dec_str, dec_to_u128, dec_val, concat3, is_digit_c, is_lower_c,
    first_index_of, is_upper_c, str_byte_len, str_eq, string_eq, u128_to_dec,
};

verus! {

/// Length of a character sequence in UTF-8 bytes, as the host counts it.
pub open spec fn byte_len(s: Seq<char>) -> nat {
    vstd::utf8::encode_utf8(s).len()
}

/// The characters a subunit or symbol may contain after its leading letter.
pub open spec fn is_symbol_class_c(c: char) -> bool {
    is_lower_c(c) || is_upper_c(c) || is_digit_c(c) || c == '/' || c == ':' || c == '.' || c == '_'
        || c == '-'
}

/// Subunit/symbol format: a letter, then two to 127 characters of the class.
pub open spec fn symbol_format_ok(s: Seq<char>) -> bool {
    &&& 3 <= s.len() <= 128
    &&& is_lower_c(s[0]) || is_upper_c(s[0])
    &&& forall|j: int| 1 <= j < s.len() ==> is_symbol_class_c(#[trigger] s[j])
}

/// The denom an issuance creates: `{subunit}-{issuer}`.
pub open spec fn issue_denom_v(m: IssueMsgV) -> Seq<char> {
    m.subunit + "-"@ + m.issuer
}

/// The initial amount an accepted issuance mints (zero when the field is
/// empty).
pub open spec fn initial_mint_val(m: IssueMsgV) -> nat {
    if m.initial_amount.len() == 0 {
        0
    } else {
        dec_val(m.initial_amount)
    }
}

/// Configuration of the token factory.
pub ghost struct TfConfigV {
    pub prefix: Seq<char>,
    pub max_subdenom_len: usize,
    pub max_hrp_len: usize,
    pub max_creator_len: usize,
    pub fee: Seq<char>,
}

/// Whether an issuance request passes every check, given the denom's current
/// supply and the sender's balance of the fee denom.
pub open spec fn issue_accepted(
    cfg: TfConfigV,
    m: IssueMsgV,
    sender: Seq<char>,
    supply_d: u128,
    fee_bal: u128,
) -> bool {
    &&& byte_len(m.subunit) <= cfg.max_subdenom_len
    &&& byte_len(m.issuer) <= cfg.max_creator_len
    &&& !m.issuer.contains('/')
    &&& m.issuer == sender
    &&& symbol_format_ok(m.subunit)
    &&& symbol_format_ok(m.symbol)
    &&& supply_d == 0
    &&& shape_coreum_sdk(cfg.fee)
    &&& sdk_amount_val(cfg.fee) <= u128::MAX
    &&& fee_bal >= sdk_amount_val(cfg.fee)
    &&& m.initial_amount.len() == 0 || (all_digits(m.initial_amount) && dec_val(m.initial_amount)
        <= u128::MAX)
}

/// The failure an issuance request produces, in check order.
pub open spec fn issue_rejected(
    cfg: TfConfigV,
    m: IssueMsgV,
    sender: Seq<char>,
    supply_d: u128,
    fee_bal: u128,
    e: ModuleError,
) -> bool {
    if byte_len(m.subunit) > cfg.max_subdenom_len {
        e matches ModuleError::SubdenomTooLong { max } && max == cfg.max_subdenom_len
    } else if byte_len(m.issuer) > cfg.max_creator_len {
        e matches ModuleError::CreatorTooLong { max } && max == cfg.max_creator_len
    } else if m.issuer.contains('/') {
        e is CreatorContainsSlash
    } else if m.issuer != sender {
        e is CreatorNotSender
    } else if !symbol_format_ok(m.subunit) {
        e is BadSubunitFormat
    } else if !symbol_format_ok(m.symbol) {
        e is BadSymbolFormat
    } else if supply_d != 0 {
        e is SubdenomExists
    } else if !shape_coreum_sdk(cfg.fee) {
        e is InvalidSdkString
    } else if sdk_amount_val(cfg.fee) > u128::MAX {
        e matches ModuleError::BadAmountString { amount } && amount@ == cfg.fee.take(run_end(cfg.fee))
    } else if fee_bal < sdk_amount_val(cfg.fee) {
        e matches ModuleError::InsufficientFunds { balance, needed } && balance == fee_bal
            && needed as nat == sdk_amount_val(cfg.fee)
    } else if m.initial_amount.len() > 0 && (!all_digits(m.initial_amount) || dec_val(
        m.initial_amount,
    ) > u128::MAX) {
        e matches ModuleError::BadInitialAmount { amount } && amount@ == m.initial_amount
    } else {
        false
    }
}

/// How an accepted issuance changes the bank: the fee leaves the sender's
/// account and its supply, and the initial amount is minted to the issuer.
pub open spec fn issue_bank_post(
    cfg: TfConfigV,
    m: IssueMsgV,
    sender: Seq<char>,
    b0: &Bank,
    b1: &Bank,
) -> bool {
    let fee_d = sdk_denom_of(cfg.fee);
    let fee_a = sdk_amount_val(cfg.fee);
    let d = issue_denom_v(m);
    let n = initial_mint_val(m);
    &&& b1.inv()
    &&& forall|a2: Seq<char>, d2: Seq<char>| #[trigger]
        b1.spec_balance(a2, d2) as int == b0.spec_balance(a2, d2) - (if (a2, d2) == (
            sender,
            fee_d,
        ) {
            fee_a as int
        } else {
            0
        }) + (if (a2, d2) == (m.issuer, d) {
            n as int
        } else {
            0
        })
    &&& forall|d2: Seq<char>| #[trigger]
        b1.spec_supply(d2) as int == b0.spec_supply(d2) - (if d2 == fee_d {
            fee_a as int
        } else {
            0
        }) + (if d2 == d {
            n as int
        } else {
            0
        })
}

/// Splits a Coreum denom at its dash when it has exactly one.
pub open spec fn one_dash(s: Seq<char>) -> bool {
    exists|i: int|
        #![trigger s[i]]
        0 <= i < s.len() && s[i] == '-' && (forall|j: int|
            0 <= j < s.len() && j != i ==> s[j] != '-')
}

/// The position of the only dash.
pub open spec fn dash_at(s: Seq<char>) -> int {
    choose|i: int|
        #![trigger s[i]]
        0 <= i < s.len() && s[i] == '-' && (forall|j: int|
            0 <= j < s.len() && j != i ==> s[j] != '-')
}

/// The issuer part of a two-part denom: what follows the only dash.
pub open spec fn denom_issuer_part(s: Seq<char>) -> Seq<char> {
    s.skip(dash_at(s) + 1)
}

/// The account a mint credits: the declared recipient, or the sender when
/// the field is empty.
pub open spec fn ft_mint_recipient(m: MintMsgV) -> Seq<char> {
    if m.recipient.len() == 0 {
        m.sender
    } else {
        m.recipient
    }
}

/// Whether a mint request passes every check.
pub open spec fn ft_mint_accepted(
    tokens: Map<Seq<char>, IssueMsgV>,
    m: MintMsgV,
    sender: Seq<char>,
    supply_d: u128,
) -> bool {
    &&& m.coin is Some
    &&& one_dash(m.coin->Some_0.denom)
    &&& denom_issuer_part(m.coin->Some_0.denom) == sender
    &&& m.sender == sender
    &&& tokens.contains_key(m.coin->Some_0.denom)
    &&& m.coin->Some_0.amount.len() > 0
    &&& all_digits(m.coin->Some_0.amount)
    &&& dec_val(m.coin->Some_0.amount) <= u128::MAX
    &&& dec_val(m.coin->Some_0.amount) > 0
    &&& supply_d + dec_val(m.coin->Some_0.amount) <= u128::MAX
}

/// The failure a mint request produces, in check order.
pub open spec fn ft_mint_rejected(
    tokens: Map<Seq<char>, IssueMsgV>,
    m: MintMsgV,
    sender: Seq<char>,
    supply_d: u128,
    e: ModuleError,
) -> bool {
    if m.coin is None {
        e is MissingCoinMint
    } else {
        let c = m.coin->Some_0;
        if !one_dash(c.denom) {
            e is InvalidDenom
        } else if denom_issuer_part(c.denom) != sender {
            e is UnauthorizedMintIssuer
        } else if m.sender != sender {
            e is SenderMismatch
        } else if !tokens.contains_key(c.denom) {
            e matches ModuleError::UnknownFtDenomMint { denom } && denom@ == c.denom
        } else if c.amount.len() == 0 || !all_digits(c.amount) || dec_val(c.amount) > u128::MAX {
            e matches ModuleError::BadAmountString { amount } && amount@ == c.amount
        } else if dec_val(c.amount) == 0 {
            e is ZeroAmount
        } else if supply_d + dec_val(c.amount) > u128::MAX {
            e matches ModuleError::SupplyOverflow { denom } && denom@ == c.denom
        } else {
            false
        }
    }
}

/// Whether a burn request passes every check, given the sender's balance.
pub open spec fn ft_burn_accepted(
    tokens: Map<Seq<char>, IssueMsgV>,
    m: BurnMsgV,
    sender: Seq<char>,
    bal: u128,
) -> bool {
    &&& m.coin is Some
    &&& one_dash(m.coin->Some_0.denom)
    &&& denom_issuer_part(m.coin->Some_0.denom) == sender
    &&& m.sender == sender
    &&& tokens.contains_key(m.coin->Some_0.denom)
    &&& m.coin->Some_0.amount.len() > 0
    &&& all_digits(m.coin->Some_0.amount)
    &&& dec_val(m.coin->Some_0.amount) <= u128::MAX
    &&& dec_val(m.coin->Some_0.amount) > 0
    &&& bal >= dec_val(m.coin->Some_0.amount)
}

/// The failure a burn request produces, in check order.
pub open spec fn ft_burn_rejected(
    tokens: Map<Seq<char>, IssueMsgV>,
    m: BurnMsgV,
    sender: Seq<char>,
    bal: u128,
    e: ModuleError,
) -> bool {
    if m.coin is None {
        e is MissingCoinBurn
    } else {
        let c = m.coin->Some_0;
        if !one_dash(c.denom) {
            e is InvalidDenom
        } else if denom_issuer_part(c.denom) != sender {
            e is UnauthorizedBurnIssuer
        } else if m.sender != sender {
            e is SenderMismatch
        } else if !tokens.contains_key(c.denom) {
            e matches ModuleError::UnknownFtDenomBurn { denom } && denom@ == c.denom
        } else if c.amount.len() == 0 || !all_digits(c.amount) || dec_val(c.amount) > u128::MAX {
            e matches ModuleError::BadAmountString { amount } && amount@ == c.amount
        } else if dec_val(c.amount) == 0 {
            e is ZeroAmount
        } else if bal < dec_val(c.amount) {
            e matches ModuleError::InsufficientFunds { balance, needed } && balance == bal
                && needed as nat == dec_val(c.amount)
        } else {
            false
        }
    }
}

/// Simulates the Coreum token-factory module.
#[derive(Clone)]
pub struct TokenFactory {
    pub module_denom_prefix: String,
    pub max_subdenom_len: usize,
    pub max_hrp_len: usize,
    pub max_creator_len: usize,
    pub denom_creation_fee: String,
}

impl View for TokenFactory {
    type V = TfConfigV;

    open spec fn view(&self) -> TfConfigV {
        TfConfigV {
            prefix: self.module_denom_prefix@,
            max_subdenom_len: self.max_subdenom_len,
            max_hrp_len: self.max_hrp_len,
            max_creator_len: self.max_creator_len,
            fee: self.denom_creation_fee@,
        }
    }
}

impl Default for TokenFactory {
    /// The module as the Coreum chain configures it: denoms carry no module
    /// prefix and issuance costs ten core.
    fn default() -> (r: Self)
        ensures
            r@ == (TfConfigV {
                prefix: ""@,
                max_subdenom_len: 32,
                max_hrp_len: 16,
                max_creator_len: 75,
                fee: "10000000ucore"@,
            }),
    {
        TokenFactory::new("", 32, 16, 75, "10000000ucore")
    }
}

impl TokenFactory {
    /// Creates a new TokenFactory instance with the given parameters.
    pub fn new(
        prefix: &str,
        max_subdenom_len: usize,
        max_hrp_len: usize,
        max_creator_len: usize,
        denom_creation_fee: &str,
    ) -> (r: Self)
        ensures
            r@ == (TfConfigV {
                prefix: prefix@,
                max_subdenom_len,
                max_hrp_len,
                max_creator_len,
                fee: denom_creation_fee@,
            }),
    {
        TokenFactory {
            module_denom_prefix: prefix.to_owned(),
            max_subdenom_len,
            max_hrp_len,
            max_creator_len,
            denom_creation_fee: denom_creation_fee.to_owned(),
        }
    }

    /// Issues a fungible token: validates the request, checks the denom is
    /// unissued (zero supply), charges the issuance fee, mints the initial
    /// amount to the issuer, and persists the record.
    pub fn issue(
        &self,
        storage: &mut SimStorage,
        bank: &mut Bank,
        msg: &IssueMsg,
        sender: &String,
    ) -> (r: Result<ModuleResponse, ModuleError>)
        requires
            old(storage).wf(),
            old(bank).inv(),
        ensures
            final(storage).wf(),
            final(storage).classes == old(storage).classes,
            final(storage).nfts == old(storage).nfts,
            ({
                let d = issue_denom_v(msg@);
                let fee_d = sdk_denom_of(self@.fee);
                let supply_d = old(bank).spec_supply(d);
                let fee_bal = old(bank).spec_balance(sender@, fee_d);
                match r {
                    Ok(resp) => {
                        &&& issue_accepted(self@, msg@, sender@, supply_d, fee_bal)
                        &&& final(storage).tokens.as_map() == old(storage).tokens.as_map().insert(
                            d,
                            msg@,
                        )
                        &&& issue_bank_post(self@, msg@, sender@, old(bank), final(bank))
                        &&& resp@.data is None
                        &&& resp@.events =~~= seq![
                            (crate::msgs::EventV {
                                ty: "/coreum.asset.ft.v1.EventIssued"@,
                                attributes: seq![("denom"@, d), ("issuer"@, msg@.issuer)],
                            }),
                        ]
                    },
                    Err(e) => {
                        &&& issue_rejected(self@, msg@, sender@, supply_d, fee_bal, e)
                        &&& !issue_accepted(self@, msg@, sender@, supply_d, fee_bal)
                        &&& final(storage).tokens == old(storage).tokens
                        &&& *final(bank) == *old(bank)
                    },
                }
            }),
    {
        let denom = concat3(msg.subunit.as_str(), "-", msg.issuer.as_str());
        proof {
            assert(denom@ == issue_denom_v(msg@));
        }
        if str_byte_len(msg.subunit.as_str()) > self.max_subdenom_len {
            return Err(ModuleError::SubdenomTooLong { max: self.max_subdenom_len });
        }
        if str_byte_len(msg.issuer.as_str()) > self.max_creator_len {
            return Err(ModuleError::CreatorTooLong { max: self.max_creator_len });
        }
        if contains_char(msg.issuer.as_str(), '/') {
            return Err(ModuleError::CreatorContainsSlash);
        }
        if !string_eq(&msg.issuer, sender) {
            return Err(ModuleError::CreatorNotSender);
        }
        if !symbol_format_check(msg.subunit.as_str()) {
            return Err(ModuleError::BadSubunitFormat);
        }
        if !symbol_format_check(msg.symbol.as_str()) {
            return Err(ModuleError::BadSymbolFormat);
        }
        let supply = bank.supply_of(denom.as_str());
        if supply != 0 {
            return Err(ModuleError::SubdenomExists);
        }
        let fee = match coin_from_sdk_string_coreum(self.denom_creation_fee.as_str()) {
            Ok(c) => c,
            Err(e) => {
                return Err(e);
            },
        };
        let fee_bal = bank.balance_of(sender.as_str(), fee.denom.as_str());
        if fee_bal < fee.amount {
            return Err(ModuleError::InsufficientFunds { balance: fee_bal, needed: fee.amount });
        }
        let initial: u128 = if !msg.initial_amount.as_str().is_empty() {
            match dec_to_u128(msg.initial_amount.as_str()) {
                Some(v) => v,
                None => {
                    return Err(
                        ModuleError::BadInitialAmount { amount: msg.initial_amount.clone() },
                    );
                },
            }
        } else {
            0
        };
        // All checks passed: charge the fee, mint, persist the record.
        match bank.burn(sender.as_str(), fee.denom.as_str(), fee.amount) {
            Ok(()) => {},
            Err(e) => {
                proof {
                    assert(false);
                }
                return Err(e);
            },
        }
        if initial > 0 {
            proof {
                old(bank).lemma_balance_le_supply(sender@, fee.denom@);
                assert(bank.spec_supply(issue_denom_v(msg@)) == 0);
            }
            match bank.mint(msg.issuer.as_str(), denom.as_str(), initial) {
                Ok(()) => {},
                Err(e) => {
                    proof {
                        assert(false);
                    }
                    return Err(e);
                },
            }
        }
        storage.tokens.insert(denom.clone(), clone_issue_msg(msg));
        let mut attributes: Vec<(String, String)> = Vec::new();
        attributes.push((String::from_str("denom"), denom));
        attributes.push((String::from_str("issuer"), msg.issuer.clone()));
        let event = Event { ty: String::from_str("/coreum.asset.ft.v1.EventIssued"), attributes };
        let mut events: Vec<Event> = Vec::new();
        events.push(event);
        let resp = ModuleResponse { data: None, events };
        proof {
            let ghost fee_d = sdk_denom_of(self@.fee);
            let ghost fee_a = sdk_amount_val(self@.fee);
            let ghost d = issue_denom_v(msg@);
            let ghost n = initial_mint_val(msg@);
            assert(n == initial as nat);
            assert forall|a2: Seq<char>, d2: Seq<char>| true implies #[trigger] bank.spec_balance(
                a2,
                d2,
            ) as int == old(bank).spec_balance(a2, d2) - (if (a2, d2) == (sender@, fee_d) {
                fee_a as int
            } else {
                0
            }) + (if (a2, d2) == (msg@.issuer, d) {
                n as int
            } else {
                0
            }) by {}
            assert forall|d2: Seq<char>| true implies #[trigger] bank.spec_supply(d2) as int == old(
                bank,
            ).spec_supply(d2) - (if d2 == fee_d {
                fee_a as int
            } else {
                0
            }) + (if d2 == d {
                n as int
            } else {
                0
            }) by {}
            assert(issue_bank_post(self@, msg@, sender@, old(bank), bank));
            assert(resp@.events.len() == 1);
            assert(resp@.events[0] == event@);
            assert(event@.attributes =~= seq![
                ("denom"@, issue_denom_v(msg@)),
                ("issuer"@, msg@.issuer),
            ]);
            assert(resp@.events =~~= seq![
                (crate::msgs::EventV {
                    ty: "/coreum.asset.ft.v1.EventIssued"@,
                    attributes: seq![("denom"@, issue_denom_v(msg@)), ("issuer"@, msg@.issuer)],
                }),
            ]);
        }
        Ok(resp)
    }
}

/// The issuer part of the denom when it has exactly one dash.
fn denom_issuer_part_check(denom: &str) -> (r: Option<String>)
    ensures
        match r {
            Some(p) => one_dash(denom@) && p@ == denom_issuer_part(denom@),
            None => !one_dash(denom@),
        },
{
    let n = denom.unicode_len();
    match first_index_of(denom, '-') {
        None => {
            proof {
                if one_dash(denom@) {
                    let i = choose|i: int|
                        #![trigger denom@[i]]
                        0 <= i < denom@.len() && denom@[i] == '-' && (forall|j: int|
                            0 <= j < denom@.len() && j != i ==> denom@[j] != '-');
                    assert(denom@.contains('-')) by {
                        assert(denom@[i] == '-');
                    }
                    assert(false);
                }
            }
            None
        },
        Some(i) => {
            let rest = denom.substring_char(i + 1, n);
            proof {
                assert(rest@ =~= denom@.subrange(i + 1, n as int));
            }
            if contains_char(rest, '-') {
                proof {
                    if one_dash(denom@) {
                        let k = choose|k: int|
                            #![trigger denom@[k]]
                            0 <= k < denom@.len() && denom@[k] == '-' && (forall|j: int|
                                0 <= j < denom@.len() && j != k ==> denom@[j] != '-');
                        let jr = choose|jr: int| 0 <= jr < rest@.len() && rest@[jr] == '-';
                        assert(rest@[jr] == denom@[i + 1 + jr]);
                        assert(denom@[i as int] == '-');
                        assert(i + 1 + jr != i);
                        if k != i {
                            assert(denom@[i as int] != '-');
                        } else {
                            assert(denom@[i + 1 + jr] != '-');
                        }
                        assert(false);
                    }
                }
                None
            } else {
                proof {
                    assert(denom@[i as int] == '-');
                    assert forall|j: int|
                        0 <= j < denom@.len() && j != i implies denom@[j] != '-' by {
                        if j > i {
                            assert(rest@[j - (i + 1)] == denom@[j]);
                            assert(!rest@.contains('-'));
                            if denom@[j] == '-' {
                                assert(rest@.contains('-')) by {
                                    assert(rest@[j - (i + 1)] == '-');
                                }
                            }
                        }
                    }
                    assert(one_dash(denom@)) by {
                        assert(denom@[i as int] == '-');
                    }
                    let k = dash_at(denom@);
                    assert(0 <= k < denom@.len() && denom@[k] == '-' && (forall|j: int|
                        0 <= j < denom@.len() && j != k ==> denom@[j] != '-'));
                    assert(k == i);
                }
                Some(rest.to_owned())
            }
        },
    }
}

impl TokenFactory {
    /// Mints an issued fungible token: only the issuer part of the denom may
    /// mint, the token must have been issued, and the amount must be a
    /// positive number; the coins go to the request's recipient field.
    pub fn mint(
        &self,
        storage: &mut SimStorage,
        bank: &mut Bank,
        msg: &MintMsg,
        sender: &String,
    ) -> (r: Result<ModuleResponse, ModuleError>)
        requires
            old(storage).wf(),
            old(bank).inv(),
        ensures
            final(storage).wf(),
            *final(storage) == *old(storage),
            ({
                let tokens = old(storage).tokens.as_map();
                match r {
                    Ok(resp) => {
                        let c = msg@.coin->Some_0;
                        let n = dec_val(c.amount);
                        &&& ft_mint_accepted(tokens, msg@, sender@, old(bank).spec_supply(c.denom))
                        &&& final(bank).inv()
                        &&& final(bank).spec_supply(c.denom) == old(bank).spec_supply(c.denom) + n
                        &&& final(bank).spec_balance(ft_mint_recipient(msg@), c.denom)
                            == old(bank).spec_balance(ft_mint_recipient(msg@), c.denom) + n
                        &&& forall|a2: Seq<char>, d2: Seq<char>|
                            (a2, d2) != (ft_mint_recipient(msg@), c.denom)
                                ==> #[trigger] final(bank).spec_balance(a2, d2)
                                == old(bank).spec_balance(a2, d2)
                        &&& forall|d2: Seq<char>|
                            d2 != c.denom
                                ==> #[trigger] final(bank).spec_supply(d2)
                                == old(bank).spec_supply(d2)
                        &&& resp@.data is None
                        &&& resp@.events =~~= seq![
                            (crate::msgs::EventV {
                                ty: "tf_mint"@,
                                attributes: seq![
                                    ("sender"@, msg@.sender),
                                    ("recipient"@, ft_mint_recipient(msg@)),
                                    ("denom"@, c.denom),
                                    ("amount"@, dec_str(n)),
                                ],
                            }),
                        ]
                    },
                    Err(e) => {
                        &&& ft_mint_rejected(
                            tokens,
                            msg@,
                            sender@,
                            if msg@.coin is Some {
                                old(bank).spec_supply(msg@.coin->Some_0.denom)
                            } else {
                                0
                            },
                            e,
                        )
                        &&& *final(bank) == *old(bank)
                    },
                }
            }),
    {
        let coin = match &msg.coin {
            Some(c) => c,
            None => {
                return Err(ModuleError::MissingCoinMint);
            },
        };
        let issuer_part = match denom_issuer_part_check(coin.denom.as_str()) {
            Some(p) => p,
            None => {
                return Err(ModuleError::InvalidDenom);
            },
        };
        if !string_eq(&issuer_part, sender) {
            return Err(ModuleError::UnauthorizedMintIssuer);
        }
        if !string_eq(&msg.sender, sender) {
            return Err(ModuleError::SenderMismatch);
        }
        if !storage.tokens.contains(coin.denom.as_str()) {
            return Err(ModuleError::UnknownFtDenomMint { denom: coin.denom.clone() });
        }
        let amount = match dec_to_u128(coin.amount.as_str()) {
            Some(v) => v,
            None => {
                return Err(ModuleError::BadAmountString { amount: coin.amount.clone() });
            },
        };
        if amount == 0 {
            return Err(ModuleError::ZeroAmount);
        }
        let recipient = if msg.recipient.as_str().is_empty() {
            msg.sender.clone()
        } else {
            msg.recipient.clone()
        };
        match bank.mint(recipient.as_str(), coin.denom.as_str(), amount) {
            Ok(()) => {},
            Err(e) => {
                return Err(e);
            },
        }
        let recipient_attr = recipient;
        let mut attributes: Vec<(String, String)> = Vec::new();
        attributes.push((String::from_str("sender"), msg.sender.clone()));
        attributes.push((String::from_str("recipient"), recipient_attr));
        attributes.push((String::from_str("denom"), coin.denom.clone()));
        attributes.push((String::from_str("amount"), u128_to_dec(amount)));
        let event = Event { ty: String::from_str("tf_mint"), attributes };
        let mut events: Vec<Event> = Vec::new();
        events.push(event);
        let resp = ModuleResponse { data: None, events };
        proof {
            assert(resp@.events[0] == resp.events@[0]@);
            assert(resp@.events =~~= seq![
                (crate::msgs::EventV {
                    ty: "tf_mint"@,
                    attributes: seq![
                        ("sender"@, msg@.sender),
                        ("recipient"@, ft_mint_recipient(msg@)),
                        ("denom"@, msg@.coin->Some_0.denom),
                        ("amount"@, dec_str(dec_val(msg@.coin->Some_0.amount))),
                    ],
                }),
            ]);
        }
        Ok(resp)
    }

    /// Burns an issued fungible token from the sender's balance: same
    /// authorization as mint; the bank rejects a burn beyond the balance.
    pub fn burn(
        &self,
        storage: &mut SimStorage,
        bank: &mut Bank,
        msg: &BurnMsg,
        sender: &String,
    ) -> (r: Result<ModuleResponse, ModuleError>)
        requires
            old(storage).wf(),
            old(bank).inv(),
        ensures
            final(storage).wf(),
            *final(storage) == *old(storage),
            ({
                let tokens = old(storage).tokens.as_map();
                match r {
                    Ok(resp) => {
                        let c = msg@.coin->Some_0;
                        let n = dec_val(c.amount);
                        &&& ft_burn_accepted(
                            tokens,
                            msg@,
                            sender@,
                            old(bank).spec_balance(sender@, c.denom),
                        )
                        &&& final(bank).inv()
                        &&& final(bank).spec_supply(c.denom) == old(bank).spec_supply(c.denom) - n
                        &&& final(bank).spec_balance(sender@, c.denom) == old(bank).spec_balance(
                            sender@,
                            c.denom,
                        ) - n
                        &&& forall|a2: Seq<char>, d2: Seq<char>|
                            (a2, d2) != (sender@, c.denom)
                                ==> #[trigger] final(bank).spec_balance(a2, d2)
                                == old(bank).spec_balance(a2, d2)
                        &&& forall|d2: Seq<char>|
                            d2 != c.denom
                                ==> #[trigger] final(bank).spec_supply(d2)
                                == old(bank).spec_supply(d2)
                        &&& resp@.data is None
                        &&& resp@.events =~~= seq![
                            (crate::msgs::EventV {
                                ty: "tf_burn"@,
                                attributes: seq![
                                    ("burn_from_address"@, sender@),
                                    ("amount"@, dec_str(n)),
                                ],
                            }),
                        ]
                    },
                    Err(e) => {
                        &&& ft_burn_rejected(
                            tokens,
                            msg@,
                            sender@,
                            if msg@.coin is Some {
                                old(bank).spec_balance(sender@, msg@.coin->Some_0.denom)
                            } else {
                                0
                            },
                            e,
                        )
                        &&& *final(bank) == *old(bank)
                    },
                }
            }),
    {
        let coin = match &msg.coin {
            Some(c) => c,
            None => {
                return Err(ModuleError::MissingCoinBurn);
            },
        };
        let issuer_part = match denom_issuer_part_check(coin.denom.as_str()) {
            Some(p) => p,
            None => {
                return Err(ModuleError::InvalidDenom);
            },
        };
        if !string_eq(&issuer_part, sender) {
            return Err(ModuleError::UnauthorizedBurnIssuer);
        }
        if !string_eq(&msg.sender, sender) {
            return Err(ModuleError::SenderMismatch);
        }
        if !storage.tokens.contains(coin.denom.as_str()) {
            return Err(ModuleError::UnknownFtDenomBurn { denom: coin.denom.clone() });
        }
        let amount = match dec_to_u128(coin.amount.as_str()) {
            Some(v) => v,
            None => {
                return Err(ModuleError::BadAmountString { amount: coin.amount.clone() });
            },
        };
        if amount == 0 {
            return Err(ModuleError::ZeroAmount);
        }
        match bank.burn(sender.as_str(), coin.denom.as_str(), amount) {
            Ok(()) => {},
            Err(e) => {
                return Err(e);
            },
        }
        let mut attributes: Vec<(String, String)> = Vec::new();
        attributes.push((String::from_str("burn_from_address"), sender.clone()));
        attributes.push((String::from_str("amount"), u128_to_dec(amount)));
        let event = Event { ty: String::from_str("tf_burn"), attributes };
        let mut events: Vec<Event> = Vec::new();
        events.push(event);
        let resp = ModuleResponse { data: None, events };
        proof {
            assert(resp@.events[0] == resp.events@[0]@);
            assert(resp@.events =~~= seq![
                (crate::msgs::EventV {
                    ty: "tf_burn"@,
                    attributes: seq![
                        ("burn_from_address"@, sender@),
                        ("amount"@, dec_str(dec_val(msg@.coin->Some_0.amount))),
                    ],
                }),
            ]);
        }
        Ok(resp)
    }
}

/// Class feature flag: the issuer may burn tokens of the class.
pub const CLASS_FEATURE_BURNING: i32 = 0;

/// Class feature flag: transfers are restricted to the issuer.
pub const CLASS_FEATURE_SOULBOUND: i32 = 4;

/// The class id an issuance derives: `{lowercase(symbol)}-{issuer}`.
pub open spec fn class_id_v(m: IssueClassMsgV) -> Seq<char> {
    lower_of(m.symbol) + "-"@ + m.issuer
}

/// Whether a class issuance passes every check.
pub open spec fn issue_class_accepted(
    classes: Map<Seq<char>, IssueClassMsgV>,
    m: IssueClassMsgV,
    sender: Seq<char>,
) -> bool {
    &&& m.issuer == sender
    &&& !classes.contains_key(class_id_v(m))
}

/// The failure a class issuance produces, in check order.
pub open spec fn issue_class_rejected(
    classes: Map<Seq<char>, IssueClassMsgV>,
    m: IssueClassMsgV,
    sender: Seq<char>,
    e: ModuleError,
) -> bool {
    if m.issuer != sender {
        e is InvalidIssuer
    } else if classes.contains_key(class_id_v(m)) {
        e matches ModuleError::ClassExists { class_id } && class_id@ == class_id_v(m)
    } else {
        false
    }
}

/// Whether an NFT mint passes every check: only the class issuer may mint,
/// and the (class, token) pair must be fresh.
pub open spec fn nft_mint_accepted(
    classes: Map<Seq<char>, IssueClassMsgV>,
    nfts: Map<(Seq<char>, Seq<char>), NftRecordV>,
    m: NftMintMsgV,
    sender: Seq<char>,
) -> bool {
    &&& m.sender == sender
    &&& classes.contains_key(m.class_id)
    &&& classes[m.class_id].issuer == sender
    &&& !nfts.contains_key((m.class_id, m.id))
}

/// The failure an NFT mint produces, in check order.
pub open spec fn nft_mint_rejected(
    classes: Map<Seq<char>, IssueClassMsgV>,
    nfts: Map<(Seq<char>, Seq<char>), NftRecordV>,
    m: NftMintMsgV,
    sender: Seq<char>,
    e: ModuleError,
) -> bool {
    if m.sender != sender {
        e is InvalidNftSender
    } else if !classes.contains_key(m.class_id) {
        e matches ModuleError::UnknownNftClass { class_id } && class_id@ == m.class_id
    } else if classes[m.class_id].issuer != sender {
        e matches ModuleError::UnauthorizedNftMint { class_id } && class_id@ == m.class_id
    } else if nfts.contains_key((m.class_id, m.id)) {
        e matches ModuleError::NftExists { class_id, id } && class_id@ == m.class_id && id@ == m.id
    } else {
        false
    }
}

/// The owner a fresh NFT gets: the recipient, or the sender when empty.
pub open spec fn nft_mint_owner(m: NftMintMsgV) -> Seq<char> {
    if m.recipient.len() == 0 {
        m.sender
    } else {
        m.recipient
    }
}

/// Whether an NFT burn passes every check: the owner always may; the issuer
/// may when the class has the burning feature.
pub open spec fn nft_burn_accepted(
    classes: Map<Seq<char>, IssueClassMsgV>,
    nfts: Map<(Seq<char>, Seq<char>), NftRecordV>,
    m: NftBurnMsgV,
    sender: Seq<char>,
) -> bool {
    &&& m.sender == sender
    &&& classes.contains_key(m.class_id)
    &&& nfts.contains_key((m.class_id, m.id))
    &&& {
        let class = classes[m.class_id];
        let rec = nfts[(m.class_id, m.id)];
        rec.owner == sender || (class.features.contains(CLASS_FEATURE_BURNING) && class.issuer
            == sender)
    }
}

/// The failure an NFT burn produces, in check order.
pub open spec fn nft_burn_rejected(
    classes: Map<Seq<char>, IssueClassMsgV>,
    nfts: Map<(Seq<char>, Seq<char>), NftRecordV>,
    m: NftBurnMsgV,
    sender: Seq<char>,
    e: ModuleError,
) -> bool {
    if m.sender != sender {
        e is InvalidNftSender
    } else if !classes.contains_key(m.class_id) {
        e matches ModuleError::ClassNotFound { class_id } && class_id@ == m.class_id
    } else if !nfts.contains_key((m.class_id, m.id)) {
        e matches ModuleError::NftNotFound { class_id, id } && class_id@ == m.class_id && id@
            == m.id
    } else {
        let class = classes[m.class_id];
        let rec = nfts[(m.class_id, m.id)];
        if rec.owner != sender && !(class.features.contains(CLASS_FEATURE_BURNING) && class.issuer
            == sender) {
            e matches ModuleError::UnauthorizedNftBurn { class_id, id } && class_id@ == m.class_id
                && id@ == m.id
        } else {
            false
        }
    }
}

/// Whether an NFT transfer passes every check: the current owner may send;
/// on a soulbound class transfers are instead restricted to the issuer, as a
/// custodial override.
pub open spec fn nft_send_accepted(
    classes: Map<Seq<char>, IssueClassMsgV>,
    nfts: Map<(Seq<char>, Seq<char>), NftRecordV>,
    m: NftSendMsgV,
    sender: Seq<char>,
) -> bool {
    &&& classes.contains_key(m.class_id)
    &&& nfts.contains_key((m.class_id, m.id))
    &&& {
        let class = classes[m.class_id];
        let rec = nfts[(m.class_id, m.id)];
        let soulbound = class.features.contains(CLASS_FEATURE_SOULBOUND);
        let issuer_override = soulbound && class.issuer == sender;
        &&& m.sender == sender || issuer_override
        &&& if soulbound {
            class.issuer == sender
        } else {
            rec.owner == sender
        }
        &&& m.receiver.len() > 0
    }
}

/// The failure an NFT transfer produces, in check order.
pub open spec fn nft_send_rejected(
    classes: Map<Seq<char>, IssueClassMsgV>,
    nfts: Map<(Seq<char>, Seq<char>), NftRecordV>,
    m: NftSendMsgV,
    sender: Seq<char>,
    e: ModuleError,
) -> bool {
    if !classes.contains_key(m.class_id) {
        e matches ModuleError::ClassNotFound { class_id } && class_id@ == m.class_id
    } else if !nfts.contains_key((m.class_id, m.id)) {
        e matches ModuleError::NftNotFound { class_id, id } && class_id@ == m.class_id && id@
            == m.id
    } else {
        let class = classes[m.class_id];
        let rec = nfts[(m.class_id, m.id)];
        let soulbound = class.features.contains(CLASS_FEATURE_SOULBOUND);
        let issuer_override = soulbound && class.issuer == sender;
        let authorized = if soulbound {
            class.issuer == sender
        } else {
            rec.owner == sender
        };
        if m.sender != sender && !issuer_override {
            e is InvalidNftSender
        } else if !authorized {
            e matches ModuleError::UnauthorizedNftSend { class_id, id } && class_id@ == m.class_id
                && id@ == m.id
        } else if m.receiver.len() == 0 {
            e is EmptyReceiver
        } else {
            false
        }
    }
}

/// Whether a feature flag list holds a flag.
fn features_contain(fs: &Vec<i32>, f: i32) -> (r: bool)
    ensures
        r == fs@.contains(f),
{
    let n = fs.len();
    let mut i: usize = 0;
    while i < n
        invariant
            n == fs@.len(),
            i <= n,
            forall|j: int| 0 <= j < i ==> fs@[j] != f,
        decreases n - i,
    {
        if fs[i] == f {
            assert(fs@.contains(f)) by {
                assert(fs@[i as int] == f);
            }
            return true;
        }
        i += 1;
    }
    assert(!fs@.contains(f));
    false
}

/// Field-for-field copy of a class record.
fn clone_class_msg(m: &IssueClassMsg) -> (r: IssueClassMsg)
    ensures
        r@ == m@,
{
    let data: Option<Vec<u8>> = match &m.data {
        Some(d) => Some(d.clone()),
        None => None,
    };
    let r = IssueClassMsg {
        issuer: m.issuer.clone(),
        name: m.name.clone(),
        symbol: m.symbol.clone(),
        description: m.description.clone(),
        uri: m.uri.clone(),
        uri_hash: m.uri_hash.clone(),
        data,
        features: m.features.clone(),
    };
    proof {
        assert(r@.data == m@.data);
        assert(r@.features == m@.features);
    }
    r
}

impl TokenFactory {
    /// Issues an NFT class: the issuer must be the sender and the derived
    /// class id must be fresh; the class record is persisted.
    pub fn issue_class(
        &self,
        storage: &mut SimStorage,
        bank: &mut Bank,
        msg: &IssueClassMsg,
        sender: &String,
    ) -> (r: Result<ModuleResponse, ModuleError>)
        requires
            old(storage).wf(),
            old(bank).inv(),
        ensures
            final(storage).wf(),
            final(bank).inv(),
            *final(bank) == *old(bank),
            final(storage).tokens == old(storage).tokens,
            final(storage).nfts == old(storage).nfts,
            ({
                let classes = old(storage).classes.as_map();
                let cid = class_id_v(msg@);
                match r {
                    Ok(resp) => {
                        &&& issue_class_accepted(classes, msg@, sender@)
                        &&& final(storage).classes.as_map() == classes.insert(cid, msg@)
                        &&& resp@.data is None
                        &&& resp@.events =~~= seq![
                            (crate::msgs::EventV {
                                ty: "/coreum.asset.nft.v1.EventClassIssued"@,
                                attributes: seq![("class_id"@, cid), ("issuer"@, msg@.issuer)],
                            }),
                        ]
                    },
                    Err(e) => {
                        &&& issue_class_rejected(classes, msg@, sender@, e)
                        &&& !issue_class_accepted(classes, msg@, sender@)
                        &&& final(storage).classes == old(storage).classes
                    },
                }
            }),
    {
        if !string_eq(&msg.issuer, sender) {
            return Err(ModuleError::InvalidIssuer);
        }
        let lowered = lowercase(msg.symbol.as_str());
        let class_id = concat3(lowered.as_str(), "-", msg.issuer.as_str());
        proof {
            assert(class_id@ == class_id_v(msg@));
        }
        if storage.classes.contains(class_id.as_str()) {
            return Err(ModuleError::ClassExists { class_id });
        }
        storage.classes.insert(class_id.clone(), clone_class_msg(msg));
        let mut attributes: Vec<(String, String)> = Vec::new();
        attributes.push((String::from_str("class_id"), class_id));
        attributes.push((String::from_str("issuer"), msg.issuer.clone()));
        let event = Event {
            ty: String::from_str("/coreum.asset.nft.v1.EventClassIssued"),
            attributes,
        };
        let mut events: Vec<Event> = Vec::new();
        events.push(event);
        let resp = ModuleResponse { data: None, events };
        proof {
            assert(resp@.events[0] == resp.events@[0]@);
            assert(resp@.events =~~= seq![
                (crate::msgs::EventV {
                    ty: "/coreum.asset.nft.v1.EventClassIssued"@,
                    attributes: seq![("class_id"@, class_id_v(msg@)), ("issuer"@, msg@.issuer)],
                }),
            ]);
        }
        Ok(resp)
    }

    /// Mints an NFT into an existing class: only the class issuer may mint,
    /// and the token id must be fresh; the owner defaults to the sender.
    pub fn nft_mint(
        &self,
        storage: &mut SimStorage,
        bank: &mut Bank,
        msg: &NftMintMsg,
        sender: &String,
    ) -> (r: Result<ModuleResponse, ModuleError>)
        requires
            old(storage).wf(),
            old(bank).inv(),
        ensures
            final(storage).wf(),
            final(bank).inv(),
            *final(bank) == *old(bank),
            final(storage).tokens == old(storage).tokens,
            final(storage).classes == old(storage).classes,
            ({
                let classes = old(storage).classes.as_map();
                let nfts = old(storage).nfts.as_map();
                match r {
                    Ok(resp) => {
                        let owner = nft_mint_owner(msg@);
                        &&& nft_mint_accepted(classes, nfts, msg@, sender@)
                        &&& final(storage).nfts.as_map() == nfts.insert(
                            (msg@.class_id, msg@.id),
                            (NftRecordV {
                                class_id: msg@.class_id,
                                id: msg@.id,
                                owner,
                                uri: msg@.uri,
                                data: msg@.data,
                            }),
                        )
                        &&& resp@.data is None
                        &&& resp@.events =~~= seq![
                            (crate::msgs::EventV {
                                ty: "/coreum.asset.nft.v1.EventMinted"@,
                                attributes: seq![
                                    ("class_id"@, msg@.class_id),
                                    ("id"@, msg@.id),
                                    ("owner"@, owner),
                                ],
                            }),
                        ]
                    },
                    Err(e) => {
                        &&& nft_mint_rejected(classes, nfts, msg@, sender@, e)
                        &&& !nft_mint_accepted(classes, nfts, msg@, sender@)
                        &&& final(storage).nfts == old(storage).nfts
                    },
                }
            }),
    {
        if !string_eq(&msg.sender, sender) {
            return Err(ModuleError::InvalidNftSender);
        }
        let class = match storage.classes.get(msg.class_id.as_str()) {
            Some(c) => c,
            None => {
                return Err(ModuleError::UnknownNftClass { class_id: msg.class_id.clone() });
            },
        };
        if !string_eq(&class.issuer, sender) {
            return Err(ModuleError::UnauthorizedNftMint { class_id: msg.class_id.clone() });
        }
        if storage.nfts.contains(msg.class_id.as_str(), msg.id.as_str()) {
            return Err(
                ModuleError::NftExists { class_id: msg.class_id.clone(), id: msg.id.clone() },
            );
        }
        let owner = if msg.recipient.as_str().is_empty() {
            msg.sender.clone()
        } else {
            msg.recipient.clone()
        };
        let data: Option<Vec<u8>> = match &msg.data {
            Some(d) => Some(d.clone()),
            None => None,
        };
        let record = NftRecord {
            class_id: msg.class_id.clone(),
            id: msg.id.clone(),
            owner: owner.clone(),
            uri: msg.uri.clone(),
            data,
        };
        proof {
            assert(record@ == (NftRecordV {
                class_id: msg@.class_id,
                id: msg@.id,
                owner: nft_mint_owner(msg@),
                uri: msg@.uri,
                data: msg@.data,
            }));
        }
        storage.nfts.insert(msg.class_id.clone(), msg.id.clone(), record);
        let mut attributes: Vec<(String, String)> = Vec::new();
        attributes.push((String::from_str("class_id"), msg.class_id.clone()));
        attributes.push((String::from_str("id"), msg.id.clone()));
        attributes.push((String::from_str("owner"), owner));
        let event = Event { ty: String::from_str("/coreum.asset.nft.v1.EventMinted"), attributes };
        let mut events: Vec<Event> = Vec::new();
        events.push(event);
        let resp = ModuleResponse { data: None, events };
        proof {
            assert(resp@.events[0] == resp.events@[0]@);
            assert(resp@.events =~~= seq![
                (crate::msgs::EventV {
                    ty: "/coreum.asset.nft.v1.EventMinted"@,
                    attributes: seq![
                        ("class_id"@, msg@.class_id),
                        ("id"@, msg@.id),
                        ("owner"@, nft_mint_owner(msg@)),
                    ],
                }),
            ]);
        }
        Ok(resp)
    }

    /// Burns a live NFT: the owner may always burn; the issuer may when the
    /// class has the burning feature. The record is deleted.
    pub fn nft_burn(
        &self,
        storage: &mut SimStorage,
        bank: &mut Bank,
        msg: &NftBurnMsg,
        sender: &String,
    ) -> (r: Result<ModuleResponse, ModuleError>)
        requires
            old(storage).wf(),
            old(bank).inv(),
        ensures
            final(storage).wf(),
            final(bank).inv(),
            *final(bank) == *old(bank),
            final(storage).tokens == old(storage).tokens,
            final(storage).classes == old(storage).classes,
            ({
                let classes = old(storage).classes.as_map();
                let nfts = old(storage).nfts.as_map();
                match r {
                    Ok(resp) => {
                        &&& nft_burn_accepted(classes, nfts, msg@, sender@)
                        &&& final(storage).nfts.as_map() == nfts.remove((msg@.class_id, msg@.id))
                        &&& resp@.data is None
                        &&& resp@.events =~~= seq![
                            (crate::msgs::EventV {
                                ty: "/coreum.asset.nft.v1.EventBurned"@,
                                attributes: seq![
                                    ("class_id"@, msg@.class_id),
                                    ("id"@, msg@.id),
                                    ("owner"@, sender@),
                                ],
                            }),
                        ]
                    },
                    Err(e) => {
                        &&& nft_burn_rejected(classes, nfts, msg@, sender@, e)
                        &&& !nft_burn_accepted(classes, nfts, msg@, sender@)
                        &&& final(storage).nfts == old(storage).nfts
                    },
                }
            }),
    {
        if !string_eq(&msg.sender, sender) {
            return Err(ModuleError::InvalidNftSender);
        }
        let class_issuer_matches: bool;
        let class_burnable: bool;
        match storage.classes.get(msg.class_id.as_str()) {
            Some(c) => {
                class_issuer_matches = string_eq(&c.issuer, sender);
                class_burnable = features_contain(&c.features, CLASS_FEATURE_BURNING);
            },
            None => {
                return Err(ModuleError::ClassNotFound { class_id: msg.class_id.clone() });
            },
        }
        let owner_matches: bool;
        match storage.nfts.get(msg.class_id.as_str(), msg.id.as_str()) {
            Some(rec) => {
                owner_matches = string_eq(&rec.owner, sender);
            },
            None => {
                return Err(
                    ModuleError::NftNotFound { class_id: msg.class_id.clone(), id: msg.id.clone() },
                );
            },
        }
        if !owner_matches && !(class_burnable && class_issuer_matches) {
            return Err(
                ModuleError::UnauthorizedNftBurn {
                    class_id: msg.class_id.clone(),
                    id: msg.id.clone(),
                },
            );
        }
        storage.nfts.remove(msg.class_id.as_str(), msg.id.as_str());
        let mut attributes: Vec<(String, String)> = Vec::new();
        attributes.push((String::from_str("class_id"), msg.class_id.clone()));
        attributes.push((String::from_str("id"), msg.id.clone()));
        attributes.push((String::from_str("owner"), sender.clone()));
        let event = Event { ty: String::from_str("/coreum.asset.nft.v1.EventBurned"), attributes };
        let mut events: Vec<Event> = Vec::new();
        events.push(event);
        let resp = ModuleResponse { data: None, events };
        proof {
            assert(resp@.events[0] == resp.events@[0]@);
            assert(resp@.events =~~= seq![
                (crate::msgs::EventV {
                    ty: "/coreum.asset.nft.v1.EventBurned"@,
                    attributes: seq![
                        ("class_id"@, msg@.class_id),
                        ("id"@, msg@.id),
                        ("owner"@, sender@),
                    ],
                }),
            ]);
        }
        Ok(resp)
    }

    /// Transfers a live NFT: the owner may send it; on a soulbound class
    /// only the issuer may. The record's owner field is updated in place.
    pub fn nft_send(
        &self,
        storage: &mut SimStorage,
        bank: &mut Bank,
        msg: &NftSendMsg,
        sender: &String,
    ) -> (r: Result<ModuleResponse, ModuleError>)
        requires
            old(storage).wf(),
            old(bank).inv(),
        ensures
            final(storage).wf(),
            final(bank).inv(),
            *final(bank) == *old(bank),
            final(storage).tokens == old(storage).tokens,
            final(storage).classes == old(storage).classes,
            ({
                let classes = old(storage).classes.as_map();
                let nfts = old(storage).nfts.as_map();
                match r {
                    Ok(resp) => {
                        let rec = nfts[(msg@.class_id, msg@.id)];
                        &&& nft_send_accepted(classes, nfts, msg@, sender@)
                        &&& final(storage).nfts.as_map() == nfts.insert(
                            (msg@.class_id, msg@.id),
                            (NftRecordV { owner: msg@.receiver, ..rec }),
                        )
                        &&& resp@.data is None
                        &&& resp@.events =~~= seq![
                            (crate::msgs::EventV {
                                ty: "/coreum.asset.nft.v1.EventSent"@,
                                attributes: seq![
                                    ("class_id"@, msg@.class_id),
                                    ("id"@, msg@.id),
                                    ("sender"@, msg@.sender),
                                    ("receiver"@, msg@.receiver),
                                ],
                            }),
                        ]
                    },
                    Err(e) => {
                        &&& nft_send_rejected(classes, nfts, msg@, sender@, e)
                        &&& !nft_send_accepted(classes, nfts, msg@, sender@)
                        &&& final(storage).nfts == old(storage).nfts
                    },
                }
            }),
    {
        let class_issuer_matches: bool;
        let class_soulbound: bool;
        match storage.classes.get(msg.class_id.as_str()) {
            Some(c) => {
                class_issuer_matches = string_eq(&c.issuer, sender);
                class_soulbound = features_contain(&c.features, CLASS_FEATURE_SOULBOUND);
            },
            None => {
                return Err(ModuleError::ClassNotFound { class_id: msg.class_id.clone() });
            },
        }
        let stored = match storage.nfts.get(msg.class_id.as_str(), msg.id.as_str()) {
            Some(rec) => rec,
            None => {
                return Err(
                    ModuleError::NftNotFound { class_id: msg.class_id.clone(), id: msg.id.clone() },
                );
            },
        };
        let issuer_override = class_soulbound && class_issuer_matches;
        if !string_eq(&msg.sender, sender) && !issuer_override {
            return Err(ModuleError::InvalidNftSender);
        }
        let authorized = if class_soulbound {
            class_issuer_matches
        } else {
            string_eq(&stored.owner, sender)
        };
        if !authorized {
            return Err(
                ModuleError::UnauthorizedNftSend {
                    class_id: msg.class_id.clone(),
                    id: msg.id.clone(),
                },
            );
        }
        if msg.receiver.as_str().is_empty() {
            return Err(ModuleError::EmptyReceiver);
        }
        let data: Option<Vec<u8>> = match &stored.data {
            Some(d) => Some(d.clone()),
            None => None,
        };
        let updated = NftRecord {
            class_id: stored.class_id.clone(),
            id: stored.id.clone(),
            owner: msg.receiver.clone(),
            uri: stored.uri.clone(),
            data,
        };
        proof {
            assert(updated@ == (NftRecordV {
                owner: msg@.receiver,
                ..old(storage).nfts.as_map()[(msg@.class_id, msg@.id)]
            }));
        }
        storage.nfts.insert(msg.class_id.clone(), msg.id.clone(), updated);
        let mut attributes: Vec<(String, String)> = Vec::new();
        attributes.push((String::from_str("class_id"), msg.class_id.clone()));
        attributes.push((String::from_str("id"), msg.id.clone()));
        attributes.push((String::from_str("sender"), msg.sender.clone()));
        attributes.push((String::from_str("receiver"), msg.receiver.clone()));
        let event = Event { ty: String::from_str("/coreum.asset.nft.v1.EventSent"), attributes };
        let mut events: Vec<Event> = Vec::new();
        events.push(event);
        let resp = ModuleResponse { data: None, events };
        proof {
            assert(resp@.events[0] == resp.events@[0]@);
            assert(resp@.events =~~= seq![
                (crate::msgs::EventV {
                    ty: "/coreum.asset.nft.v1.EventSent"@,
                    attributes: seq![
                        ("class_id"@, msg@.class_id),
                        ("id"@, msg@.id),
                        ("sender"@, msg@.sender),
                        ("receiver"@, msg@.receiver),
                    ],
                }),
            ]);
        }
        Ok(resp)
    }
}

/// Everything `issue` guarantees, as one relation between the states before
/// and after the call and its result.
pub open spec fn issue_post(
    cfg: TfConfigV,
    st0: SimStorage,
    st1: SimStorage,
    b0: Bank,
    b1: Bank,
    m: IssueMsgV,
    sender: Seq<char>,
    r: Result<ModuleResponse, ModuleError>,
) -> bool {
    let d = issue_denom_v(m);
    let fee_d = sdk_denom_of(cfg.fee);
    let supply_d = b0.spec_supply(d);
    let fee_bal = b0.spec_balance(sender, fee_d);
    &&& st1.wf()
    &&& st1.classes == st0.classes
    &&& st1.nfts == st0.nfts
    &&& match r {
        Ok(resp) => {
            &&& issue_accepted(cfg, m, sender, supply_d, fee_bal)
            &&& st1.tokens.as_map() == st0.tokens.as_map().insert(d, m)
            &&& issue_bank_post(cfg, m, sender, &b0, &b1)
            &&& resp@.data is None
            &&& resp@.events =~~= seq![
                (crate::msgs::EventV {
                    ty: "/coreum.asset.ft.v1.EventIssued"@,
                    attributes: seq![("denom"@, d), ("issuer"@, m.issuer)],
                }),
            ]
        },
        Err(e) => {
            &&& issue_rejected(cfg, m, sender, supply_d, fee_bal, e)
            &&& !issue_accepted(cfg, m, sender, supply_d, fee_bal)
            &&& st1.tokens == st0.tokens
            &&& b1 == b0
        },
    }
}

/// Everything `mint` guarantees, as one relation.
pub open spec fn ft_mint_post(
    st0: SimStorage,
    st1: SimStorage,
    b0: Bank,
    b1: Bank,
    m: MintMsgV,
    sender: Seq<char>,
    r: Result<ModuleResponse, ModuleError>,
) -> bool {
    let tokens = st0.tokens.as_map();
    &&& st1.wf()
    &&& st1 == st0
    &&& match r {
        Ok(resp) => {
            let c = m.coin->Some_0;
            let n = dec_val(c.amount);
            &&& ft_mint_accepted(tokens, m, sender, b0.spec_supply(c.denom))
            &&& b1.inv()
            &&& b1.spec_supply(c.denom) == b0.spec_supply(c.denom) + n
            &&& b1.spec_balance(ft_mint_recipient(m), c.denom) == b0.spec_balance(
                ft_mint_recipient(m),
                c.denom,
            ) + n
            &&& forall|a2: Seq<char>, d2: Seq<char>|
                (a2, d2) != (ft_mint_recipient(m), c.denom) ==> #[trigger] b1.spec_balance(a2, d2)
                    == b0.spec_balance(a2, d2)
            &&& forall|d2: Seq<char>|
                d2 != c.denom ==> #[trigger] b1.spec_supply(d2) == b0.spec_supply(d2)
            &&& resp@.data is None
            &&& resp@.events =~~= seq![
                (crate::msgs::EventV {
                    ty: "tf_mint"@,
                    attributes: seq![
                        ("sender"@, m.sender),
                        ("recipient"@, ft_mint_recipient(m)),
                        ("denom"@, c.denom),
                        ("amount"@, dec_str(n)),
                    ],
                }),
            ]
        },
        Err(e) => {
            &&& ft_mint_rejected(
                tokens,
                m,
                sender,
                if m.coin is Some { b0.spec_supply(m.coin->Some_0.denom) } else { 0 },
                e,
            )
            &&& b1 == b0
        },
    }
}

/// Everything `burn` guarantees, as one relation.
pub open spec fn ft_burn_post(
    st0: SimStorage,
    st1: SimStorage,
    b0: Bank,
    b1: Bank,
    m: BurnMsgV,
    sender: Seq<char>,
    r: Result<ModuleResponse, ModuleError>,
) -> bool {
    let tokens = st0.tokens.as_map();
    &&& st1.wf()
    &&& st1 == st0
    &&& match r {
        Ok(resp) => {
            let c = m.coin->Some_0;
            let n = dec_val(c.amount);
            &&& ft_burn_accepted(tokens, m, sender, b0.spec_balance(sender, c.denom))
            &&& b1.inv()
            &&& b1.spec_supply(c.denom) == b0.spec_supply(c.denom) - n
            &&& b1.spec_balance(sender, c.denom) == b0.spec_balance(sender, c.denom) - n
            &&& forall|a2: Seq<char>, d2: Seq<char>|
                (a2, d2) != (sender, c.denom) ==> #[trigger] b1.spec_balance(a2, d2)
                    == b0.spec_balance(a2, d2)
            &&& forall|d2: Seq<char>|
                d2 != c.denom ==> #[trigger] b1.spec_supply(d2) == b0.spec_supply(d2)
            &&& resp@.data is None
            &&& resp@.events =~~= seq![
                (crate::msgs::EventV {
                    ty: "tf_burn"@,
                    attributes: seq![("burn_from_address"@, sender), ("amount"@, dec_str(n))],
                }),
            ]
        },
        Err(e) => {
            &&& ft_burn_rejected(
                tokens,
                m,
                sender,
                if m.coin is Some { b0.spec_balance(sender, m.coin->Some_0.denom) } else { 0 },
                e,
            )
            &&& b1 == b0
        },
    }
}

/// Everything `issue_class` guarantees, as one relation.
pub open spec fn issue_class_post(
    st0: SimStorage,
    st1: SimStorage,
    b0: Bank,
    b1: Bank,
    m: IssueClassMsgV,
    sender: Seq<char>,
    r: Result<ModuleResponse, ModuleError>,
) -> bool {
    let classes = st0.classes.as_map();
    let cid = class_id_v(m);
    &&& st1.wf()
    &&& b1 == b0
    &&& st1.tokens == st0.tokens
    &&& st1.nfts == st0.nfts
    &&& match r {
        Ok(resp) => {
            &&& issue_class_accepted(classes, m, sender)
            &&& st1.classes.as_map() == classes.insert(cid, m)
            &&& resp@.data is None
            &&& resp@.events =~~= seq![
                (crate::msgs::EventV {
                    ty: "/coreum.asset.nft.v1.EventClassIssued"@,
                    attributes: seq![("class_id"@, cid), ("issuer"@, m.issuer)],
                }),
            ]
        },
        Err(e) => {
            &&& issue_class_rejected(classes, m, sender, e)
            &&& !issue_class_accepted(classes, m, sender)
            &&& st1.classes == st0.classes
        },
    }
}

/// Everything `nft_mint` guarantees, as one relation.
pub open spec fn nft_mint_post(
    st0: SimStorage,
    st1: SimStorage,
    b0: Bank,
    b1: Bank,
    m: NftMintMsgV,
    sender: Seq<char>,
    r: Result<ModuleResponse, ModuleError>,
) -> bool {
    let classes = st0.classes.as_map();
    let nfts = st0.nfts.as_map();
    &&& st1.wf()
    &&& b1 == b0
    &&& st1.tokens == st0.tokens
    &&& st1.classes == st0.classes
    &&& match r {
        Ok(resp) => {
            let owner = nft_mint_owner(m);
            &&& nft_mint_accepted(classes, nfts, m, sender)
            &&& st1.nfts.as_map() == nfts.insert(
                (m.class_id, m.id),
                (NftRecordV { class_id: m.class_id, id: m.id, owner, uri: m.uri, data: m.data }),
            )
            &&& resp@.data is None
            &&& resp@.events =~~= seq![
                (crate::msgs::EventV {
                    ty: "/coreum.asset.nft.v1.EventMinted"@,
                    attributes: seq![("class_id"@, m.class_id), ("id"@, m.id), ("owner"@, owner)],
                }),
            ]
        },
        Err(e) => {
            &&& nft_mint_rejected(classes, nfts, m, sender, e)
            &&& !nft_mint_accepted(classes, nfts, m, sender)
            &&& st1.nfts == st0.nfts
        },
    }
}

/// Everything `nft_burn` guarantees, as one relation.
pub open spec fn nft_burn_post(
    st0: SimStorage,
    st1: SimStorage,
    b0: Bank,
    b1: Bank,
    m: NftBurnMsgV,
    sender: Seq<char>,
    r: Result<ModuleResponse, ModuleError>,
) -> bool {
    let classes = st0.classes.as_map();
    let nfts = st0.nfts.as_map();
    &&& st1.wf()
    &&& b1 == b0
    &&& st1.tokens == st0.tokens
    &&& st1.classes == st0.classes
    &&& match r {
        Ok(resp) => {
            &&& nft_burn_accepted(classes, nfts, m, sender)
            &&& st1.nfts.as_map() == nfts.remove((m.class_id, m.id))
            &&& resp@.data is None
            &&& resp@.events =~~= seq![
                (crate::msgs::EventV {
                    ty: "/coreum.asset.nft.v1.EventBurned"@,
                    attributes: seq![("class_id"@, m.class_id), ("id"@, m.id), ("owner"@, sender)],
                }),
            ]
        },
        Err(e) => {
            &&& nft_burn_rejected(classes, nfts, m, sender, e)
            &&& !nft_burn_accepted(classes, nfts, m, sender)
            &&& st1.nfts == st0.nfts
        },
    }
}

/// Everything `nft_send` guarantees, as one relation.
pub open spec fn nft_send_post(
    st0: SimStorage,
    st1: SimStorage,
    b0: Bank,
    b1: Bank,
    m: NftSendMsgV,
    sender: Seq<char>,
    r: Result<ModuleResponse, ModuleError>,
) -> bool {
    let classes = st0.classes.as_map();
    let nfts = st0.nfts.as_map();
    &&& st1.wf()
    &&& b1 == b0
    &&& st1.tokens == st0.tokens
    &&& st1.classes == st0.classes
    &&& match r {
        Ok(resp) => {
            let rec = nfts[(m.class_id, m.id)];
            &&& nft_send_accepted(classes, nfts, m, sender)
            &&& st1.nfts.as_map() == nfts.insert(
                (m.class_id, m.id),
                (NftRecordV { owner: m.receiver, ..rec }),
            )
            &&& resp@.data is None
            &&& resp@.events =~~= seq![
                (crate::msgs::EventV {
                    ty: "/coreum.asset.nft.v1.EventSent"@,
                    attributes: seq![
                        ("class_id"@, m.class_id),
                        ("id"@, m.id),
                        ("sender"@, m.sender),
                        ("receiver"@, m.receiver),
                    ],
                }),
            ]
        },
        Err(e) => {
            &&& nft_send_rejected(classes, nfts, m, sender, e)
            &&& !nft_send_accepted(classes, nfts, m, sender)
            &&& st1.nfts == st0.nfts
        },
    }
}

/// Type URL of the FT issuance message.
pub const MSG_ISSUE_URL: &'static str = "/coreum.asset.ft.v1.MsgIssue";

/// Type URL of the FT mint message.
pub const MSG_MINT_URL: &'static str = "/coreum.asset.ft.v1.MsgMint";

/// Type URL of the FT burn message.
pub const MSG_BURN_URL: &'static str = "/coreum.asset.ft.v1.MsgBurn";

/// Type URL of the NFT class issuance message.
pub const MSG_ISSUE_CLASS_URL: &'static str = "/coreum.asset.nft.v1.MsgIssueClass";

/// Type URL of the NFT mint message.
pub const MSG_NFT_MINT_URL: &'static str = "/coreum.asset.nft.v1.MsgMint";

/// Type URL of the NFT burn message.
pub const MSG_NFT_BURN_URL: &'static str = "/coreum.asset.nft.v1.MsgBurn";

/// Type URL of the NFT transfer message.
pub const MSG_NFT_SEND_URL: &'static str = "/cosmos.nft.v1beta1.MsgSend";

impl TokenFactory {
    /// Dispatches a generic message envelope by its type URL: decodes the
    /// payload and runs the matching handler; unknown URLs fail.
    pub fn handle_any(
        &self,
        storage: &mut SimStorage,
        bank: &mut Bank,
        sender: &String,
        type_url: &str,
        value: &[u8],
    ) -> (r: Result<ModuleResponse, ModuleError>)
        requires
            old(storage).wf(),
            old(bank).inv(),
        ensures
            final(storage).wf(),
            final(bank).inv(),
            ({
                let u = type_url@;
                if u == MSG_ISSUE_URL@ {
                    match ft_issue_decoded(value@) {
                        Some(m) => issue_post(
                            self@,
                            *old(storage),
                            *final(storage),
                            *old(bank),
                            *final(bank),
                            m,
                            sender@,
                            r,
                        ),
                        None => decode_failed(r, "MsgIssue"@) && *final(storage) == *old(storage)
                            && *final(bank) == *old(bank),
                    }
                } else if u == MSG_MINT_URL@ {
                    match ft_mint_decoded(value@) {
                        Some(m) => ft_mint_post(
                            *old(storage),
                            *final(storage),
                            *old(bank),
                            *final(bank),
                            m,
                            sender@,
                            r,
                        ),
                        None => decode_failed(r, "MsgMint"@) && *final(storage) == *old(storage)
                            && *final(bank) == *old(bank),
                    }
                } else if u == MSG_BURN_URL@ {
                    match ft_burn_decoded(value@) {
                        Some(m) => ft_burn_post(
                            *old(storage),
                            *final(storage),
                            *old(bank),
                            *final(bank),
                            m,
                            sender@,
                            r,
                        ),
                        None => decode_failed(r, "MsgBurn"@) && *final(storage) == *old(storage)
                            && *final(bank) == *old(bank),
                    }
                } else if u == MSG_ISSUE_CLASS_URL@ {
                    match nft_issue_class_decoded(value@) {
                        Some(m) => issue_class_post(
                            *old(storage),
                            *final(storage),
                            *old(bank),
                            *final(bank),
                            m,
                            sender@,
                            r,
                        ),
                        None => decode_failed(r, "MsgIssueClass"@) && *final(storage) == *old(
                            storage,
                        ) && *final(bank) == *old(bank),
                    }
                } else if u == MSG_NFT_MINT_URL@ {
                    match nft_mint_decoded(value@) {
                        Some(m) => nft_mint_post(
                            *old(storage),
                            *final(storage),
                            *old(bank),
                            *final(bank),
                            m,
                            sender@,
                            r,
                        ),
                        None => decode_failed(r, "MsgMint (NFT)"@) && *final(storage) == *old(
                            storage,
                        ) && *final(bank) == *old(bank),
                    }
                } else if u == MSG_NFT_BURN_URL@ {
                    match nft_burn_decoded(value@) {
                        Some(m) => nft_burn_post(
                            *old(storage),
                            *final(storage),
                            *old(bank),
                            *final(bank),
                            m,
                            sender@,
                            r,
                        ),
                        None => decode_failed(r, "MsgBurn (NFT)"@) && *final(storage) == *old(
                            storage,
                        ) && *final(bank) == *old(bank),
                    }
                } else if u == MSG_NFT_SEND_URL@ {
                    match nft_send_decoded(value@) {
                        Some(m) => nft_send_post(
                            *old(storage),
                            *final(storage),
                            *old(bank),
                            *final(bank),
                            m,
                            sender@,
                            r,
                        ),
                        None => decode_failed(r, "MsgSend (NFT)"@) && *final(storage) == *old(
                            storage,
                        ) && *final(bank) == *old(bank),
                    }
                } else {
                    *final(storage) == *old(storage) && *final(bank) == *old(bank) && (r matches
                    Err(e) && (e matches ModuleError::UnknownMessageType { type_url: u2 } && u2@
                        == u))
                }
            }),
    {
        if str_eq(type_url, MSG_ISSUE_URL) {
            match decode_ft_issue(value) {
                Ok(m) => self.issue(storage, bank, &m, sender),
                Err(detail) => Err(
                    ModuleError::DecodeFail { msg_kind: String::from_str("MsgIssue"), detail },
                ),
            }
        } else if str_eq(type_url, MSG_MINT_URL) {
            match decode_ft_mint(value) {
                Ok(m) => self.mint(storage, bank, &m, sender),
                Err(detail) => Err(
                    ModuleError::DecodeFail { msg_kind: String::from_str("MsgMint"), detail },
                ),
            }
        } else if str_eq(type_url, MSG_BURN_URL) {
            match decode_ft_burn(value) {
                Ok(m) => self.burn(storage, bank, &m, sender),
                Err(detail) => Err(
                    ModuleError::DecodeFail { msg_kind: String::from_str("MsgBurn"), detail },
                ),
            }
        } else if str_eq(type_url, MSG_ISSUE_CLASS_URL) {
            match decode_nft_issue_class(value) {
                Ok(m) => self.issue_class(storage, bank, &m, sender),
                Err(detail) => Err(
                    ModuleError::DecodeFail {
                        msg_kind: String::from_str("MsgIssueClass"),
                        detail,
                    },
                ),
            }
        } else if str_eq(type_url, MSG_NFT_MINT_URL) {
            match decode_nft_mint(value) {
                Ok(m) => self.nft_mint(storage, bank, &m, sender),
                Err(detail) => Err(
                    ModuleError::DecodeFail {
                        msg_kind: String::from_str("MsgMint (NFT)"),
                        detail,
                    },
                ),
            }
        } else if str_eq(type_url, MSG_NFT_BURN_URL) {
            match decode_nft_burn(value) {
                Ok(m) => self.nft_burn(storage, bank, &m, sender),
                Err(detail) => Err(
                    ModuleError::DecodeFail {
                        msg_kind: String::from_str("MsgBurn (NFT)"),
                        detail,
                    },
                ),
            }
        } else if str_eq(type_url, MSG_NFT_SEND_URL) {
            match decode_nft_send(value) {
                Ok(m) => self.nft_send(storage, bank, &m, sender),
                Err(detail) => Err(
                    ModuleError::DecodeFail {
                        msg_kind: String::from_str("MsgSend (NFT)"),
                        detail,
                    },
                ),
            }
        } else {
            Err(ModuleError::UnknownMessageType { type_url: type_url.to_owned() })
        }
    }

    /// The module refuses generic binary queries.
    pub fn query(&self, storage: &SimStorage, path: &str, data: &[u8]) -> (r: Result<
        Vec<u8>,
        ModuleError,
    >)
        ensures
            r matches Err(e) && e is UnsupportedStargateQuery,
    {
        Err(ModuleError::UnsupportedStargateQuery)
    }

    /// The module has no privileged entry point: sudo succeeds and does
    /// nothing.
    pub fn sudo(&self, storage: &mut SimStorage, bank: &mut Bank) -> (r: Result<
        ModuleResponse,
        ModuleError,
    >)
        ensures
            *final(storage) == *old(storage),
            *final(bank) == *old(bank),
            r matches Ok(resp) && resp@.data is None && resp@.events.len() == 0,
    {
        Ok(ModuleResponse { data: None, events: Vec::new() })
    }
}

/// A decode failure of the named message kind.
pub open spec fn decode_failed(r: Result<ModuleResponse, ModuleError>, kind: Seq<char>) -> bool {
    r matches Err(e) && (e matches ModuleError::DecodeFail { msg_kind, detail } && msg_kind@
        == kind)
}

/// Whether the string matches the subunit/symbol format.
fn symbol_format_check(s: &str) -> (r: bool)
    ensures
        r == symbol_format_ok(s@),
{
    let n = s.unicode_len();
    if n < 3 || n > 128 {
        return false;
    }
    let c0 = s.get_char(0);
    let u0 = c0 as u32;
    if !((97 <= u0 && u0 <= 122) || (65 <= u0 && u0 <= 90)) {
        return false;
    }
    let mut i: usize = 1;
    while i < n
        invariant
            n == s@.len(),
            1 <= i <= n,
            forall|j: int| 1 <= j < i ==> is_symbol_class_c(#[trigger] s@[j]),
        decreases n - i,
    {
        let c = s.get_char(i);
        let u = c as u32;
        let ok = (97 <= u && u <= 122) || (65 <= u && u <= 90) || (48 <= u && u <= 57) || c == '/'
            || c == ':' || c == '.' || c == '_' || c == '-';
        if !ok {
            return false;
        }
        i += 1;
    }
    true
}

/// Field-for-field copy of an issuance record.
fn clone_issue_msg(m: &IssueMsg) -> (r: IssueMsg)
    ensures
        r@ == m@,
{
    IssueMsg {
        issuer: m.issuer.clone(),
        symbol: m.symbol.clone(),
        subunit: m.subunit.clone(),
        precision: m.precision,
        initial_amount: m.initial_amount.clone(),
        description: m.description.clone(),
    }
}


impl crate::dispatch::StargateModule for TokenFactory {
    fn execute(
        &self,
        storage: &mut SimStorage,
        bank: &mut Bank,
        sender: &String,
        type_url: &str,
        value: &[u8],
    ) -> (r: Result<ModuleResponse, ModuleError>) {
        self.handle_any(storage, bank, sender, type_url, value)
    }

    fn query(&self, storage: &SimStorage, bank: &Bank, path: &str, data: &[u8]) -> (r: Result<
        Vec<u8>,
        ModuleError,
    >) {
        TokenFactory::query(self, storage, path, data)
    }

    fn sudo(&self, storage: &mut SimStorage, bank: &mut Bank) -> (r: Result<
        ModuleResponse,
        ModuleError,
    >) {
        TokenFactory::sudo(self, storage, bank)
    }
}

} // verus!
