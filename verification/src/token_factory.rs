//! The generic token-factory module: denom creation, mint and burn over
//! `factory/{creator}/{subdenom}` denoms, against the bank alone (this
//! variant keeps no records of its own).
use vstd::prelude::*;

use crate::bank::Bank;
use crate::denom::{
    coin_from_sdk_string_factory, run_end, sdk_amount_val, sdk_denom_of, shape_factory_sdk,
};
use crate::errors::ModuleError;
use crate::state::SimStorage;
use crate::msgs::{CreateDenomMsg, CreateDenomMsgV, Event, ModuleResponse, OsmoBurnMsg,
    OsmoBurnMsgV, OsmoMintMsg, OsmoMintMsgV};
use crate::text::{
    all_digits, concat3, dec_str, dec_to_u128, dec_val, contains_char, first_index_of,
    str_byte_len, str_eq, string_eq, u128_to_dec,
};
use crate::token_factory_coreum::byte_len;
use crate::wire::{
    create_denom_decoded, create_denom_resp_encoded, decode_create_denom, decode_osmo_burn,
    decode_osmo_mint, encode_create_denom_resp, encode_empty_resp, osmo_burn_decoded,
    osmo_mint_decoded,
};

verus! {

/// Number of slash characters in the sequence.
pub open spec fn slash_count(s: Seq<char>) -> nat
    decreases s.len(),
{
    if s.len() == 0 {
        0
    } else {
        slash_count(s.drop_last()) + if s.last() == '/' {
            1nat
        } else {
            0
        }
    }
}

/// `i` is the position of the first slash.
pub open spec fn is_first_slash(s: Seq<char>, i: int) -> bool {
    0 <= i < s.len() && s[i] == '/' && forall|j: int| 0 <= j < i ==> s[j] != '/'
}

/// The position of the first slash.
pub open spec fn first_slash_at(s: Seq<char>) -> int {
    choose|i: int| is_first_slash(s, i)
}

/// The part before the first slash (the whole string without one).
pub open spec fn part_before_slash(s: Seq<char>) -> Seq<char> {
    if s.contains('/') {
        s.take(first_slash_at(s))
    } else {
        s
    }
}

/// The part between the first slash and the next one (or the end).
pub open spec fn part_after_slash(s: Seq<char>) -> Seq<char> {
    let f = first_slash_at(s);
    let rest = s.skip(f + 1);
    if rest.contains('/') {
        rest.take(first_slash_at(rest))
    } else {
        rest
    }
}

/// The module splits the denom on `/` and rejects it only when it has
/// neither exactly three parts nor the module prefix as its first part; it
/// then reads the second part, so a denom without any slash cannot proceed.
pub open spec fn osmo_denom_ok(s: Seq<char>, prefix: Seq<char>) -> bool {
    &&& slash_count(s) == 2 || part_before_slash(s) == prefix
    &&& s.contains('/')
}

/// Configuration of the generic token factory.
pub ghost struct OsmoTfConfigV {
    pub prefix: Seq<char>,
    pub max_subdenom_len: usize,
    pub max_hrp_len: usize,
    pub max_creator_len: usize,
    pub fee: Seq<char>,
}

/// The denom a creation request produces: `{prefix}/{creator}/{subdenom}`.
pub open spec fn created_denom_v(cfg: OsmoTfConfigV, m: CreateDenomMsgV) -> Seq<char> {
    cfg.prefix + "/"@ + m.sender + "/"@ + m.subdenom
}

/// Whether a denom creation passes every check.
pub open spec fn create_denom_accepted(
    cfg: OsmoTfConfigV,
    m: CreateDenomMsgV,
    sender: Seq<char>,
    supply_d: u128,
    fee_bal: u128,
) -> bool {
    &&& byte_len(m.subdenom) <= cfg.max_subdenom_len
    &&& byte_len(m.sender) <= cfg.max_creator_len
    &&& !m.sender.contains('/')
    &&& m.sender == sender
    &&& supply_d == 0
    &&& shape_factory_sdk(cfg.fee)
    &&& sdk_amount_val(cfg.fee) <= u128::MAX
    &&& fee_bal >= sdk_amount_val(cfg.fee)
}

/// The failure a denom creation produces, in check order.
pub open spec fn create_denom_rejected(
    cfg: OsmoTfConfigV,
    m: CreateDenomMsgV,
    sender: Seq<char>,
    supply_d: u128,
    fee_bal: u128,
    e: ModuleError,
) -> bool {
    if byte_len(m.subdenom) > cfg.max_subdenom_len {
        e matches ModuleError::SubdenomTooLong { max } && max == cfg.max_subdenom_len
    } else if byte_len(m.sender) > cfg.max_creator_len {
        e matches ModuleError::CreatorTooLong { max } && max == cfg.max_creator_len
    } else if m.sender.contains('/') {
        e is CreatorContainsSlash
    } else if m.sender != sender {
        e is CreatorNotSender
    } else if supply_d != 0 {
        e is SubdenomExists
    } else if !shape_factory_sdk(cfg.fee) {
        e is InvalidSdkString
    } else if sdk_amount_val(cfg.fee) > u128::MAX {
        e matches ModuleError::BadAmountString { amount } && amount@ == cfg.fee.take(
            run_end(cfg.fee),
        )
    } else if fee_bal < sdk_amount_val(cfg.fee) {
        e matches ModuleError::InsufficientFunds { balance, needed } && balance == fee_bal
            && needed as nat == sdk_amount_val(cfg.fee)
    } else {
        false
    }
}

/// Whether a mint request passes every check.
pub open spec fn osmo_mint_accepted(
    cfg: OsmoTfConfigV,
    m: OsmoMintMsgV,
    sender: Seq<char>,
    supply_d: u128,
) -> bool {
    &&& m.amount is Some
    &&& osmo_denom_ok(m.amount->Some_0.denom, cfg.prefix)
    &&& part_after_slash(m.amount->Some_0.denom) == sender
    &&& m.sender == sender
    &&& m.amount->Some_0.amount.len() > 0
    &&& all_digits(m.amount->Some_0.amount)
    &&& dec_val(m.amount->Some_0.amount) <= u128::MAX
    &&& dec_val(m.amount->Some_0.amount) > 0
    &&& supply_d + dec_val(m.amount->Some_0.amount) <= u128::MAX
}

/// The failure a mint request produces, in check order.
pub open spec fn osmo_mint_rejected(
    cfg: OsmoTfConfigV,
    m: OsmoMintMsgV,
    sender: Seq<char>,
    supply_d: u128,
    e: ModuleError,
) -> bool {
    if m.amount is None {
        e is MissingAmount
    } else {
        let c = m.amount->Some_0;
        if !osmo_denom_ok(c.denom, cfg.prefix) {
            e is InvalidDenom
        } else if part_after_slash(c.denom) != sender {
            e is UnauthorizedMintCreator
        } else if m.sender != sender {
            e is SenderMismatch
        } else if c.amount.len() == 0 || !all_digits(c.amount) || dec_val(c.amount) > u128::MAX {
            e matches ModuleError::BadAmountString { amount } && amount@ == c.amount
        } else if dec_val(c.amount) == 0 {
            e is ZeroAmount
        } else if supply_d + dec_val(c.amount) > u128::MAX {
            e matches ModuleError::SupplyOverflow { denom } && denom@ == c.denom
        } else {
            false
        }
    }
}

/// Whether a burn request passes every check, given the sender's balance.
pub open spec fn osmo_burn_accepted(
    cfg: OsmoTfConfigV,
    m: OsmoBurnMsgV,
    sender: Seq<char>,
    bal: u128,
) -> bool {
    &&& m.amount is Some
    &&& osmo_denom_ok(m.amount->Some_0.denom, cfg.prefix)
    &&& part_after_slash(m.amount->Some_0.denom) == sender
    &&& m.sender == sender
    &&& m.amount->Some_0.amount.len() > 0
    &&& all_digits(m.amount->Some_0.amount)
    &&& dec_val(m.amount->Some_0.amount) <= u128::MAX
    &&& dec_val(m.amount->Some_0.amount) > 0
    &&& bal >= dec_val(m.amount->Some_0.amount)
}

/// The failure a burn request produces, in check order.
pub open spec fn osmo_burn_rejected(
    cfg: OsmoTfConfigV,
    m: OsmoBurnMsgV,
    sender: Seq<char>,
    bal: u128,
    e: ModuleError,
) -> bool {
    if m.amount is None {
        e is MissingAmount
    } else {
        let c = m.amount->Some_0;
        if !osmo_denom_ok(c.denom, cfg.prefix) {
            e is InvalidDenom
        } else if part_after_slash(c.denom) != sender {
            e is UnauthorizedBurnCreator
        } else if m.sender != sender {
            e is SenderMismatch
        } else if c.amount.len() == 0 || !all_digits(c.amount) || dec_val(c.amount) > u128::MAX {
            e matches ModuleError::BadAmountString { amount } && amount@ == c.amount
        } else if dec_val(c.amount) == 0 {
            e is ZeroAmount
        } else if bal < dec_val(c.amount) {
            e matches ModuleError::InsufficientFunds { balance, needed } && balance == bal
                && needed as nat == dec_val(c.amount)
        } else {
            false
        }
    }
}

/// Simulates the generic token-factory module.
#[derive(Clone)]
pub struct TokenFactory {
    pub module_denom_prefix: String,
    pub max_subdenom_len: usize,
    pub max_hrp_len: usize,
    pub max_creator_len: usize,
    pub denom_creation_fee: String,
}

impl View for TokenFactory {
    type V = OsmoTfConfigV;

    open spec fn view(&self) -> OsmoTfConfigV {
        OsmoTfConfigV {
            prefix: self.module_denom_prefix@,
            max_subdenom_len: self.max_subdenom_len,
            max_hrp_len: self.max_hrp_len,
            max_creator_len: self.max_creator_len,
            fee: self.denom_creation_fee@,
        }
    }
}

/// Checks the denom against the module's split test and hands back the
/// part between the first two slashes when the denom may proceed.
fn osmo_denom_check(denom: &str, prefix: &str) -> (r: Option<String>)
    ensures
        match r {
            Some(p) => osmo_denom_ok(denom@, prefix@) && p@ == part_after_slash(denom@),
            None => !osmo_denom_ok(denom@, prefix@),
        },
{
    let n = denom.unicode_len();
    let f = match first_index_of(denom, '/') {
        Some(f) => f,
        None => {
            proof {
                assert(!denom@.contains('/'));
            }
            return None;
        },
    };
    proof {
        assert(denom@.contains('/')) by {
            assert(denom@[f as int] == '/');
        }
        assert(is_first_slash(denom@, f as int));
        assert(first_slash_at(denom@) == f as int) by {
            let f2 = first_slash_at(denom@);
            assert(is_first_slash(denom@, f2));
            if f2 < f as int {
                assert(denom@[f2] != '/');
            }
            if (f as int) < f2 {
                assert(denom@[f as int] != '/');
            }
        }
    }
    let rest = denom.substring_char(f + 1, n);
    proof {
        assert(rest@ =~= denom@.skip(f + 1));
    }
    let second = match first_index_of(rest, '/') {
        Some(g) => {
            proof {
                assert(is_first_slash(rest@, g as int));
                assert(first_slash_at(rest@) == g as int) by {
                    let g2 = first_slash_at(rest@);
                    assert(is_first_slash(rest@, g2));
                    if g2 < g as int {
                        assert(rest@[g2] != '/');
                    }
                    if (g as int) < g2 {
                        assert(rest@[g as int] != '/');
                    }
                }
            }
            rest.substring_char(0, g)
        },
        None => rest,
    };
    proof {
        assert(second@ == part_after_slash(denom@));
    }
    let count = count_slashes(denom);
    let prefix_match = {
        let head = denom.substring_char(0, f);
        proof {
            assert(head@ =~= denom@.take(f as int));
            assert(head@ == part_before_slash(denom@));
        }
        str_eq(head, prefix)
    };
    if count == 2 || prefix_match {
        Some(second.to_owned())
    } else {
        None
    }
}

/// Counts the slash characters of a string.
fn count_slashes(s: &str) -> (r: usize)
    ensures
        r == slash_count(s@),
{
    let n = s.unicode_len();
    let mut i: usize = 0;
    let mut count: usize = 0;
    while i < n
        invariant
            n == s@.len(),
            i <= n,
            count == slash_count(s@.take(i as int)),
            count <= i,
        decreases n - i,
    {
        proof {
            assert(s@.take(i + 1).drop_last() =~= s@.take(i as int));
            assert(s@.take(i + 1).last() == s@[i as int]);
        }
        if s.get_char(i) == '/' {
            count += 1;
        }
        i += 1;
    }
    proof {
        assert(s@.take(n as int) =~= s@);
    }
    count
}

impl Default for TokenFactory {
    /// The module as a generic chain configures it: the `factory` prefix and
    /// a creation fee in the chain's native denom.
    fn default() -> (r: Self)
        ensures
            r@ == (OsmoTfConfigV {
                prefix: "factory"@,
                max_subdenom_len: 32,
                max_hrp_len: 16,
                max_creator_len: 75,
                fee: "10000000uosmo"@,
            }),
    {
        TokenFactory::new("factory", 32, 16, 75, "10000000uosmo")
    }
}

impl TokenFactory {
    /// Creates a new TokenFactory instance with the given parameters.
    pub fn new(
        prefix: &str,
        max_subdenom_len: usize,
        max_hrp_len: usize,
        max_creator_len: usize,
        denom_creation_fee: &str,
    ) -> (r: Self)
        ensures
            r@ == (OsmoTfConfigV {
                prefix: prefix@,
                max_subdenom_len,
                max_hrp_len,
                max_creator_len,
                fee: denom_creation_fee@,
            }),
    {
        TokenFactory {
            module_denom_prefix: prefix.to_owned(),
            max_subdenom_len,
            max_hrp_len,
            max_creator_len,
            denom_creation_fee: denom_creation_fee.to_owned(),
        }
    }

    /// Creates a denom: validates the request, checks the denom is unused
    /// (zero supply) and charges the creation fee; the new denom is returned
    /// in the response payload.
    pub fn create_denom(
        &self,
        bank: &mut Bank,
        msg: &CreateDenomMsg,
        sender: &String,
    ) -> (r: Result<ModuleResponse, ModuleError>)
        requires
            old(bank).inv(),
        ensures
            final(bank).inv(),
            ({
                let d = created_denom_v(self@, msg@);
                let fee_d = sdk_denom_of(self@.fee);
                let fee_a = sdk_amount_val(self@.fee);
                let supply_d = old(bank).spec_supply(d);
                let fee_bal = old(bank).spec_balance(sender@, fee_d);
                match r {
                    Ok(resp) => {
                        &&& create_denom_accepted(self@, msg@, sender@, supply_d, fee_bal)
                        &&& forall|a2: Seq<char>, d2: Seq<char>| #[trigger]
                            final(bank).spec_balance(a2, d2) as int == old(bank).spec_balance(
                                a2,
                                d2,
                            ) - (if (a2, d2) == (sender@, fee_d) {
                                fee_a as int
                            } else {
                                0
                            })
                        &&& forall|d2: Seq<char>| #[trigger]
                            final(bank).spec_supply(d2) as int == old(bank).spec_supply(d2) - (
                            if d2 == fee_d {
                                fee_a as int
                            } else {
                                0
                            })
                        &&& resp@.data == Some(create_denom_resp_encoded(d))
                        &&& resp@.events =~~= seq![
                            (crate::msgs::EventV {
                                ty: "create_denom"@,
                                attributes: seq![
                                    ("creator"@, msg@.sender),
                                    ("new_token_denom"@, d),
                                ],
                            }),
                        ]
                    },
                    Err(e) => {
                        &&& create_denom_rejected(self@, msg@, sender@, supply_d, fee_bal, e)
                        &&& !create_denom_accepted(self@, msg@, sender@, supply_d, fee_bal)
                        &&& *final(bank) == *old(bank)
                    },
                }
            }),
    {
        let head = concat3(self.module_denom_prefix.as_str(), "/", msg.sender.as_str());
        let denom = concat3(head.as_str(), "/", msg.subdenom.as_str());
        proof {
            assert(denom@ == created_denom_v(self@, msg@));
        }
        if str_byte_len(msg.subdenom.as_str()) > self.max_subdenom_len {
            return Err(ModuleError::SubdenomTooLong { max: self.max_subdenom_len });
        }
        if str_byte_len(msg.sender.as_str()) > self.max_creator_len {
            return Err(ModuleError::CreatorTooLong { max: self.max_creator_len });
        }
        if contains_char(msg.sender.as_str(), '/') {
            return Err(ModuleError::CreatorContainsSlash);
        }
        if !string_eq(&msg.sender, sender) {
            return Err(ModuleError::CreatorNotSender);
        }
        let supply = bank.supply_of(denom.as_str());
        if supply != 0 {
            return Err(ModuleError::SubdenomExists);
        }
        let fee = match coin_from_sdk_string_factory(self.denom_creation_fee.as_str()) {
            Ok(c) => c,
            Err(e) => {
                return Err(e);
            },
        };
        let fee_bal = bank.balance_of(sender.as_str(), fee.denom.as_str());
        if fee_bal < fee.amount {
            return Err(ModuleError::InsufficientFunds { balance: fee_bal, needed: fee.amount });
        }
        match bank.burn(sender.as_str(), fee.denom.as_str(), fee.amount) {
            Ok(()) => {},
            Err(e) => {
                proof {
                    assert(false);
                }
                return Err(e);
            },
        }
        let data = encode_create_denom_resp(&denom);
        let mut attributes: Vec<(String, String)> = Vec::new();
        attributes.push((String::from_str("creator"), msg.sender.clone()));
        attributes.push((String::from_str("new_token_denom"), denom));
        let event = Event { ty: String::from_str("create_denom"), attributes };
        let mut events: Vec<Event> = Vec::new();
        events.push(event);
        let resp = ModuleResponse { data: Some(data), events };
        proof {
            assert(resp@.events[0] == resp.events@[0]@);
            assert(resp@.events =~~= seq![
                (crate::msgs::EventV {
                    ty: "create_denom"@,
                    attributes: seq![
                        ("creator"@, msg@.sender),
                        ("new_token_denom"@, created_denom_v(self@, msg@)),
                    ],
                }),
            ]);
        }
        Ok(resp)
    }

    /// Mints factory coins: only the creator named inside the denom may
    /// mint; the coins go to the recipient, defaulting to the sender.
    pub fn mint(&self, bank: &mut Bank, msg: &OsmoMintMsg, sender: &String) -> (r: Result<
        ModuleResponse,
        ModuleError,
    >)
        requires
            old(bank).inv(),
        ensures
            final(bank).inv(),
            ({
                match r {
                    Ok(resp) => {
                        let c = msg@.amount->Some_0;
                        let n = dec_val(c.amount);
                        let to = if msg@.mint_to_address.len() == 0 {
                            msg@.sender
                        } else {
                            msg@.mint_to_address
                        };
                        &&& osmo_mint_accepted(self@, msg@, sender@, old(bank).spec_supply(c.denom))
                        &&& final(bank).spec_supply(c.denom) == old(bank).spec_supply(c.denom) + n
                        &&& final(bank).spec_balance(to, c.denom) == old(bank).spec_balance(
                            to,
                            c.denom,
                        ) + n
                        &&& forall|a2: Seq<char>, d2: Seq<char>|
                            (a2, d2) != (to, c.denom)
                                ==> #[trigger] final(bank).spec_balance(a2, d2)
                                == old(bank).spec_balance(a2, d2)
                        &&& forall|d2: Seq<char>|
                            d2 != c.denom
                                ==> #[trigger] final(bank).spec_supply(d2)
                                == old(bank).spec_supply(d2)
                        &&& resp@.data matches Some(b) && b.len() == 0
                        &&& resp@.events =~~= seq![
                            (crate::msgs::EventV {
                                ty: "tf_mint"@,
                                attributes: seq![
                                    ("sender"@, msg@.sender),
                                    ("mint_to_address"@, msg@.mint_to_address),
                                    ("recipient"@, to),
                                    ("denom"@, c.denom),
                                    ("amount"@, dec_str(n)),
                                ],
                            }),
                        ]
                    },
                    Err(e) => {
                        &&& osmo_mint_rejected(
                            self@,
                            msg@,
                            sender@,
                            if msg@.amount is Some {
                                old(bank).spec_supply(msg@.amount->Some_0.denom)
                            } else {
                                0
                            },
                            e,
                        )
                        &&& *final(bank) == *old(bank)
                    },
                }
            }),
    {
        let coin = match &msg.amount {
            Some(c) => c,
            None => {
                return Err(ModuleError::MissingAmount);
            },
        };
        let creator_part = match osmo_denom_check(
            coin.denom.as_str(),
            self.module_denom_prefix.as_str(),
        ) {
            Some(p) => p,
            None => {
                return Err(ModuleError::InvalidDenom);
            },
        };
        if !string_eq(&creator_part, sender) {
            return Err(ModuleError::UnauthorizedMintCreator);
        }
        if !string_eq(&msg.sender, sender) {
            return Err(ModuleError::SenderMismatch);
        }
        let amount = match dec_to_u128(coin.amount.as_str()) {
            Some(v) => v,
            None => {
                return Err(ModuleError::BadAmountString { amount: coin.amount.clone() });
            },
        };
        if amount == 0 {
            return Err(ModuleError::ZeroAmount);
        }
        let recipient = if msg.mint_to_address.as_str().is_empty() {
            msg.sender.clone()
        } else {
            msg.mint_to_address.clone()
        };
        match bank.mint(recipient.as_str(), coin.denom.as_str(), amount) {
            Ok(()) => {},
            Err(e) => {
                return Err(e);
            },
        }
        let mut attributes: Vec<(String, String)> = Vec::new();
        attributes.push((String::from_str("sender"), msg.sender.clone()));
        attributes.push((String::from_str("mint_to_address"), msg.mint_to_address.clone()));
        attributes.push((String::from_str("recipient"), recipient));
        attributes.push((String::from_str("denom"), coin.denom.clone()));
        attributes.push((String::from_str("amount"), u128_to_dec(amount)));
        let event = Event { ty: String::from_str("tf_mint"), attributes };
        let mut events: Vec<Event> = Vec::new();
        events.push(event);
        let resp = ModuleResponse { data: Some(encode_empty_resp()), events };
        proof {
            assert(resp@.events[0] == resp.events@[0]@);
            assert(resp@.events =~~= seq![
                (crate::msgs::EventV {
                    ty: "tf_mint"@,
                    attributes: seq![
                        ("sender"@, msg@.sender),
                        ("mint_to_address"@, msg@.mint_to_address),
                        (
                            "recipient"@,
                            if msg@.mint_to_address.len() == 0 {
                                msg@.sender
                            } else {
                                msg@.mint_to_address
                            },
                        ),
                        ("denom"@, msg@.amount->Some_0.denom),
                        ("amount"@, dec_str(dec_val(msg@.amount->Some_0.amount))),
                    ],
                }),
            ]);
        }
        Ok(resp)
    }

    /// Burns factory coins from the sender's balance: only the creator named
    /// inside the denom may burn.
    pub fn burn(&self, bank: &mut Bank, msg: &OsmoBurnMsg, sender: &String) -> (r: Result<
        ModuleResponse,
        ModuleError,
    >)
        requires
            old(bank).inv(),
        ensures
            final(bank).inv(),
            ({
                match r {
                    Ok(resp) => {
                        let c = msg@.amount->Some_0;
                        let n = dec_val(c.amount);
                        &&& osmo_burn_accepted(
                            self@,
                            msg@,
                            sender@,
                            old(bank).spec_balance(sender@, c.denom),
                        )
                        &&& final(bank).spec_supply(c.denom) == old(bank).spec_supply(c.denom) - n
                        &&& final(bank).spec_balance(sender@, c.denom) == old(bank).spec_balance(
                            sender@,
                            c.denom,
                        ) - n
                        &&& forall|a2: Seq<char>, d2: Seq<char>|
                            (a2, d2) != (sender@, c.denom)
                                ==> #[trigger] final(bank).spec_balance(a2, d2)
                                == old(bank).spec_balance(a2, d2)
                        &&& forall|d2: Seq<char>|
                            d2 != c.denom
                                ==> #[trigger] final(bank).spec_supply(d2)
                                == old(bank).spec_supply(d2)
                        &&& resp@.data matches Some(b) && b.len() == 0
                        &&& resp@.events =~~= seq![
                            (crate::msgs::EventV {
                                ty: "tf_burn"@,
                                attributes: seq![
                                    ("burn_from_address"@, sender@),
                                    ("amount"@, dec_str(n)),
                                ],
                            }),
                        ]
                    },
                    Err(e) => {
                        &&& osmo_burn_rejected(
                            self@,
                            msg@,
                            sender@,
                            if msg@.amount is Some {
                                old(bank).spec_balance(sender@, msg@.amount->Some_0.denom)
                            } else {
                                0
                            },
                            e,
                        )
                        &&& *final(bank) == *old(bank)
                    },
                }
            }),
    {
        let coin = match &msg.amount {
            Some(c) => c,
            None => {
                return Err(ModuleError::MissingAmount);
            },
        };
        let creator_part = match osmo_denom_check(
            coin.denom.as_str(),
            self.module_denom_prefix.as_str(),
        ) {
            Some(p) => p,
            None => {
                return Err(ModuleError::InvalidDenom);
            },
        };
        if !string_eq(&creator_part, sender) {
            return Err(ModuleError::UnauthorizedBurnCreator);
        }
        if !string_eq(&msg.sender, sender) {
            return Err(ModuleError::SenderMismatch);
        }
        let amount = match dec_to_u128(coin.amount.as_str()) {
            Some(v) => v,
            None => {
                return Err(ModuleError::BadAmountString { amount: coin.amount.clone() });
            },
        };
        if amount == 0 {
            return Err(ModuleError::ZeroAmount);
        }
        match bank.burn(sender.as_str(), coin.denom.as_str(), amount) {
            Ok(()) => {},
            Err(e) => {
                return Err(e);
            },
        }
        let mut attributes: Vec<(String, String)> = Vec::new();
        attributes.push((String::from_str("burn_from_address"), sender.clone()));
        attributes.push((String::from_str("amount"), u128_to_dec(amount)));
        let event = Event { ty: String::from_str("tf_burn"), attributes };
        let mut events: Vec<Event> = Vec::new();
        events.push(event);
        let resp = ModuleResponse { data: Some(encode_empty_resp()), events };
        proof {
            assert(resp@.events[0] == resp.events@[0]@);
            assert(resp@.events =~~= seq![
                (crate::msgs::EventV {
                    ty: "tf_burn"@,
                    attributes: seq![
                        ("burn_from_address"@, sender@),
                        ("amount"@, dec_str(dec_val(msg@.amount->Some_0.amount))),
                    ],
                }),
            ]);
        }
        Ok(resp)
    }
}


/// Type URL of the denom-creation message.
pub const MSG_CREATE_DENOM_URL: &'static str = "/osmosis.tokenfactory.v1beta1.MsgCreateDenom";

/// Type URL of the factory mint message.
pub const MSG_OSMO_MINT_URL: &'static str = "/osmosis.tokenfactory.v1beta1.MsgMint";

/// Type URL of the factory burn message.
pub const MSG_OSMO_BURN_URL: &'static str = "/osmosis.tokenfactory.v1beta1.MsgBurn";

/// Everything `create_denom` guarantees, as one relation.
pub open spec fn create_denom_post(
    cfg: OsmoTfConfigV,
    b0: Bank,
    b1: Bank,
    m: CreateDenomMsgV,
    sender: Seq<char>,
    r: Result<ModuleResponse, ModuleError>,
) -> bool {
    let d = created_denom_v(cfg, m);
    let fee_d = sdk_denom_of(cfg.fee);
    let fee_a = sdk_amount_val(cfg.fee);
    let supply_d = b0.spec_supply(d);
    let fee_bal = b0.spec_balance(sender, fee_d);
    &&& b1.inv()
    &&& match r {
        Ok(resp) => {
            &&& create_denom_accepted(cfg, m, sender, supply_d, fee_bal)
            &&& forall|a2: Seq<char>, d2: Seq<char>| #[trigger]
                b1.spec_balance(a2, d2) as int == b0.spec_balance(a2, d2) - (if (a2, d2) == (
                    sender,
                    fee_d,
                ) {
                    fee_a as int
                } else {
                    0
                })
            &&& forall|d2: Seq<char>| #[trigger]
                b1.spec_supply(d2) as int == b0.spec_supply(d2) - (if d2 == fee_d {
                    fee_a as int
                } else {
                    0
                })
            &&& resp@.data == Some(create_denom_resp_encoded(d))
            &&& resp@.events =~~= seq![
                (crate::msgs::EventV {
                    ty: "create_denom"@,
                    attributes: seq![("creator"@, m.sender), ("new_token_denom"@, d)],
                }),
            ]
        },
        Err(e) => {
            &&& create_denom_rejected(cfg, m, sender, supply_d, fee_bal, e)
            &&& !create_denom_accepted(cfg, m, sender, supply_d, fee_bal)
            &&& b1 == b0
        },
    }
}

/// Everything the factory `mint` guarantees, as one relation.
pub open spec fn osmo_mint_post(
    cfg: OsmoTfConfigV,
    b0: Bank,
    b1: Bank,
    m: OsmoMintMsgV,
    sender: Seq<char>,
    r: Result<ModuleResponse, ModuleError>,
) -> bool {
    &&& b1.inv()
    &&& match r {
        Ok(resp) => {
            let c = m.amount->Some_0;
            let n = dec_val(c.amount);
            let to = if m.mint_to_address.len() == 0 {
                m.sender
            } else {
                m.mint_to_address
            };
            &&& osmo_mint_accepted(cfg, m, sender, b0.spec_supply(c.denom))
            &&& b1.spec_supply(c.denom) == b0.spec_supply(c.denom) + n
            &&& b1.spec_balance(to, c.denom) == b0.spec_balance(to, c.denom) + n
            &&& forall|a2: Seq<char>, d2: Seq<char>|
                (a2, d2) != (to, c.denom) ==> #[trigger] b1.spec_balance(a2, d2)
                    == b0.spec_balance(a2, d2)
            &&& forall|d2: Seq<char>|
                d2 != c.denom ==> #[trigger] b1.spec_supply(d2) == b0.spec_supply(d2)
            &&& resp@.data matches Some(b) && b.len() == 0
            &&& resp@.events =~~= seq![
                (crate::msgs::EventV {
                    ty: "tf_mint"@,
                    attributes: seq![
                        ("sender"@, m.sender),
                        ("mint_to_address"@, m.mint_to_address),
                        ("recipient"@, to),
                        ("denom"@, c.denom),
                        ("amount"@, dec_str(n)),
                    ],
                }),
            ]
        },
        Err(e) => {
            &&& osmo_mint_rejected(
                cfg,
                m,
                sender,
                if m.amount is Some {
                    b0.spec_supply(m.amount->Some_0.denom)
                } else {
                    0
                },
                e,
            )
            &&& b1 == b0
        },
    }
}

/// Everything the factory `burn` guarantees, as one relation.
pub open spec fn osmo_burn_post(
    cfg: OsmoTfConfigV,
    b0: Bank,
    b1: Bank,
    m: OsmoBurnMsgV,
    sender: Seq<char>,
    r: Result<ModuleResponse, ModuleError>,
) -> bool {
    &&& b1.inv()
    &&& match r {
        Ok(resp) => {
            let c = m.amount->Some_0;
            let n = dec_val(c.amount);
            &&& osmo_burn_accepted(cfg, m, sender, b0.spec_balance(sender, c.denom))
            &&& b1.spec_supply(c.denom) == b0.spec_supply(c.denom) - n
            &&& b1.spec_balance(sender, c.denom) == b0.spec_balance(sender, c.denom) - n
            &&& forall|a2: Seq<char>, d2: Seq<char>|
                (a2, d2) != (sender, c.denom) ==> #[trigger] b1.spec_balance(a2, d2)
                    == b0.spec_balance(a2, d2)
            &&& forall|d2: Seq<char>|
                d2 != c.denom ==> #[trigger] b1.spec_supply(d2) == b0.spec_supply(d2)
            &&& resp@.data matches Some(b) && b.len() == 0
            &&& resp@.events =~~= seq![
                (crate::msgs::EventV {
                    ty: "tf_burn"@,
                    attributes: seq![("burn_from_address"@, sender), ("amount"@, dec_str(n))],
                }),
            ]
        },
        Err(e) => {
            &&& osmo_burn_rejected(
                cfg,
                m,
                sender,
                if m.amount is Some {
                    b0.spec_balance(sender, m.amount->Some_0.denom)
                } else {
                    0
                },
                e,
            )
            &&& b1 == b0
        },
    }
}

/// A decode failure of the named message kind.
pub open spec fn osmo_decode_failed(
    r: Result<ModuleResponse, ModuleError>,
    kind: Seq<char>,
) -> bool {
    r matches Err(e) && (e matches ModuleError::DecodeFail { msg_kind, detail } && msg_kind@
        == kind)
}

impl TokenFactory {
    /// Dispatches a generic message envelope by its type URL: decodes the
    /// payload and runs the matching handler; unknown URLs fail.
    pub fn handle_any(
        &self,
        bank: &mut Bank,
        sender: &String,
        type_url: &str,
        value: &[u8],
    ) -> (r: Result<ModuleResponse, ModuleError>)
        requires
            old(bank).inv(),
        ensures
            final(bank).inv(),
            ({
                let u = type_url@;
                if u == MSG_CREATE_DENOM_URL@ {
                    match create_denom_decoded(value@) {
                        Some(m) => create_denom_post(
                            self@,
                            *old(bank),
                            *final(bank),
                            m,
                            sender@,
                            r,
                        ),
                        None => osmo_decode_failed(r, "MsgCreateDenom"@) && *final(bank) == *old(
                            bank,
                        ),
                    }
                } else if u == MSG_OSMO_MINT_URL@ {
                    match osmo_mint_decoded(value@) {
                        Some(m) => osmo_mint_post(self@, *old(bank), *final(bank), m, sender@, r),
                        None => osmo_decode_failed(r, "MsgMint"@) && *final(bank) == *old(bank),
                    }
                } else if u == MSG_OSMO_BURN_URL@ {
                    match osmo_burn_decoded(value@) {
                        Some(m) => osmo_burn_post(self@, *old(bank), *final(bank), m, sender@, r),
                        None => osmo_decode_failed(r, "MsgBurn"@) && *final(bank) == *old(bank),
                    }
                } else {
                    *final(bank) == *old(bank) && (r matches Err(e) && (e matches
                    ModuleError::UnknownMessageType { type_url: u2 } && u2@ == u))
                }
            }),
    {
        if str_eq(type_url, MSG_CREATE_DENOM_URL) {
            match decode_create_denom(value) {
                Ok(m) => self.create_denom(bank, &m, sender),
                Err(detail) => Err(
                    ModuleError::DecodeFail {
                        msg_kind: String::from_str("MsgCreateDenom"),
                        detail,
                    },
                ),
            }
        } else if str_eq(type_url, MSG_OSMO_MINT_URL) {
            match decode_osmo_mint(value) {
                Ok(m) => self.mint(bank, &m, sender),
                Err(detail) => Err(
                    ModuleError::DecodeFail { msg_kind: String::from_str("MsgMint"), detail },
                ),
            }
        } else if str_eq(type_url, MSG_OSMO_BURN_URL) {
            match decode_osmo_burn(value) {
                Ok(m) => self.burn(bank, &m, sender),
                Err(detail) => Err(
                    ModuleError::DecodeFail { msg_kind: String::from_str("MsgBurn"), detail },
                ),
            }
        } else {
            Err(ModuleError::UnknownMessageType { type_url: type_url.to_owned() })
        }
    }

    /// The module refuses generic binary queries, naming the path and the
    /// raw payload.
    pub fn query(&self, path: &str, data: &[u8]) -> (r: Result<Vec<u8>, ModuleError>)
        ensures
            r matches Err(e) && (e matches ModuleError::UnexpectedQuery { path: p, data: d } && p@
                == path@ && d@ == data@),
    {
        Err(
            ModuleError::UnexpectedQuery {
                path: path.to_owned(),
                data: vstd::slice::slice_to_vec(data),
            },
        )
    }

    /// The module has no privileged entry point: sudo succeeds and does
    /// nothing.
    pub fn sudo(&self, bank: &mut Bank) -> (r: Result<ModuleResponse, ModuleError>)
        ensures
            *final(bank) == *old(bank),
            r matches Ok(resp) && resp@.data is None && resp@.events.len() == 0,
    {
        Ok(ModuleResponse { data: None, events: Vec::new() })
    }
}


impl crate::dispatch::StargateModule for TokenFactory {
    fn execute(
        &self,
        storage: &mut SimStorage,
        bank: &mut Bank,
        sender: &String,
        type_url: &str,
        value: &[u8],
    ) -> (r: Result<ModuleResponse, ModuleError>) {
        self.handle_any(bank, sender, type_url, value)
    }

    fn query(&self, storage: &SimStorage, bank: &Bank, path: &str, data: &[u8]) -> (r: Result<
        Vec<u8>,
        ModuleError,
    >) {
        TokenFactory::query(self, path, data)
    }

    fn sudo(&self, storage: &mut SimStorage, bank: &mut Bank) -> (r: Result<
        ModuleResponse,
        ModuleError,
    >) {
        TokenFactory::sudo(self, bank)
    }
}

} // verus!
