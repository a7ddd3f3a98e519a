//! Cross-operation guarantees of the simulated modules, proved from the
//! handlers' specifications.
use vstd::prelude::*;

use crate::bank::Bank;
use crate::denom::{sdk_amount_val, sdk_denom_of};
use crate::errors::ModuleError;
use crate::msgs::{BurnMsgV, IssueClassMsgV, IssueMsgV, MintMsgV, NftRecordV, NftSendMsgV};
use crate::queries::{nft_matches, owner_of};
use crate::state::nfts_keyed;
use crate::text::dec_val;
use crate::token_factory_coreum::{
    byte_len, denom_issuer_part, ft_burn_accepted, ft_burn_rejected, ft_mint_accepted,
    ft_mint_rejected, issue_accepted, issue_bank_post, issue_denom_v, issue_rejected,
    initial_mint_val, nft_send_accepted, one_dash, symbol_format_ok, TfConfigV,
};

verus! {

/// An issuance request whose field validations pass but whose denom already
/// has nonzero supply fails with "already exists", whoever issues it: the
/// only failure such a request can produce is `SubdenomExists`, and it is
/// one.
pub proof fn issuance_rejects_existing_denom(
    cfg: TfConfigV,
    m: IssueMsgV,
    sender: Seq<char>,
    supply_d: u128,
    fee_bal: u128,
)
    requires
        byte_len(m.subunit) <= cfg.max_subdenom_len,
        byte_len(m.issuer) <= cfg.max_creator_len,
        !m.issuer.contains('/'),
        m.issuer == sender,
        symbol_format_ok(m.subunit),
        symbol_format_ok(m.symbol),
        supply_d != 0,
    ensures
        !issue_accepted(cfg, m, sender, supply_d, fee_bal),
        forall|e: ModuleError|
            #[trigger] issue_rejected(cfg, m, sender, supply_d, fee_bal, e) <==> e
                is SubdenomExists,
{
}

/// A mint whose denom names an issuer other than the transaction sender
/// fails as unauthorized, whatever the other fields hold.
pub proof fn mint_requires_denom_issuer(
    tokens: Map<Seq<char>, IssueMsgV>,
    m: MintMsgV,
    sender: Seq<char>,
    supply_d: u128,
)
    requires
        m.coin is Some,
        one_dash(m.coin->Some_0.denom),
        denom_issuer_part(m.coin->Some_0.denom) != sender,
    ensures
        !ft_mint_accepted(tokens, m, sender, supply_d),
        forall|e: ModuleError|
            #[trigger] ft_mint_rejected(tokens, m, sender, supply_d, e) <==> e
                is UnauthorizedMintIssuer,
{
}

/// A burn whose denom names an issuer other than the transaction sender
/// fails as unauthorized, whatever the other fields hold.
pub proof fn burn_requires_denom_issuer(
    tokens: Map<Seq<char>, IssueMsgV>,
    m: BurnMsgV,
    sender: Seq<char>,
    bal: u128,
)
    requires
        m.coin is Some,
        one_dash(m.coin->Some_0.denom),
        denom_issuer_part(m.coin->Some_0.denom) != sender,
    ensures
        !ft_burn_accepted(tokens, m, sender, bal),
        forall|e: ModuleError|
            #[trigger] ft_burn_rejected(tokens, m, sender, bal, e) <==> e
                is UnauthorizedBurnIssuer,
{
}

/// Round trip: after a successful issuance with initial amount `n > 0`, the
/// issuer's balance of the new denom is exactly `n`.
pub proof fn issue_round_trip_balance(
    cfg: TfConfigV,
    m: IssueMsgV,
    sender: Seq<char>,
    b0: &Bank,
    b1: &Bank,
)
    requires
        b0.inv(),
        issue_accepted(
            cfg,
            m,
            sender,
            b0.spec_supply(issue_denom_v(m)),
            b0.spec_balance(sender, sdk_denom_of(cfg.fee)),
        ),
        issue_bank_post(cfg, m, sender, b0, b1),
        m.initial_amount.len() > 0,
    ensures
        b1.spec_balance(m.issuer, issue_denom_v(m)) == dec_val(m.initial_amount),
{
    let d = issue_denom_v(m);
    let fee_d = sdk_denom_of(cfg.fee);
    let n = initial_mint_val(m);
    b0.lemma_balance_le_supply(m.issuer, d);
    assert(b0.spec_balance(m.issuer, d) == 0);
    if (m.issuer, d) == (sender, fee_d) {
        assert(b0.spec_balance(sender, fee_d) == 0);
        assert(sdk_amount_val(cfg.fee) == 0);
    }
    assert(b1.spec_balance(m.issuer, d) as int == b0.spec_balance(m.issuer, d) - (if (
    m.issuer,
    d,
    ) == (sender, fee_d) {
        sdk_amount_val(cfg.fee) as int
    } else {
        0
    }) + n);
}

/// Issuance is not idempotent: after a successful issuance with initial
/// amount `n > 0`, issuing the same denom again fails with "already exists".
pub proof fn issuance_not_idempotent(
    cfg: TfConfigV,
    m: IssueMsgV,
    sender: Seq<char>,
    b0: &Bank,
    b1: &Bank,
)
    requires
        b0.inv(),
        issue_accepted(
            cfg,
            m,
            sender,
            b0.spec_supply(issue_denom_v(m)),
            b0.spec_balance(sender, sdk_denom_of(cfg.fee)),
        ),
        issue_bank_post(cfg, m, sender, b0, b1),
        m.initial_amount.len() > 0,
        dec_val(m.initial_amount) > 0,
    ensures
        !issue_accepted(
            cfg,
            m,
            sender,
            b1.spec_supply(issue_denom_v(m)),
            b1.spec_balance(sender, sdk_denom_of(cfg.fee)),
        ),
        forall|e: ModuleError|
            #[trigger] issue_rejected(
                cfg,
                m,
                sender,
                b1.spec_supply(issue_denom_v(m)),
                b1.spec_balance(sender, sdk_denom_of(cfg.fee)),
                e,
            ) <==> e is SubdenomExists,
{
    let d = issue_denom_v(m);
    let fee_d = sdk_denom_of(cfg.fee);
    let n = initial_mint_val(m);
    if d == fee_d {
        b0.lemma_balance_le_supply(sender, fee_d);
        assert(b0.spec_balance(sender, fee_d) == 0);
        assert(sdk_amount_val(cfg.fee) == 0);
    }
    assert(b1.spec_supply(d) as int == b0.spec_supply(d) - (if d == fee_d {
        sdk_amount_val(cfg.fee) as int
    } else {
        0
    }) + n);
    assert(b1.spec_supply(d) == n);
}

/// The store stays keyed through the three ways the handlers change it: a
/// fresh mint, a transfer's owner update, and a burn's removal.
pub proof fn nfts_keyed_preserved(
    nfts: Map<(Seq<char>, Seq<char>), NftRecordV>,
    k: (Seq<char>, Seq<char>),
    rec: NftRecordV,
)
    requires
        nfts_keyed(nfts),
        rec.class_id == k.0,
        rec.id == k.1,
    ensures
        nfts_keyed(nfts.insert(k, rec)),
        nfts_keyed(nfts.remove(k)),
{
}

/// Ownership moves on transfer: after a successful send of `(class, token)`
/// from its previous owner to a different receiver, the owner query answers
/// the receiver, the receiver-filtered listing matches the record, and no
/// record listed for the previous owner is that token.
pub proof fn transfer_moves_ownership(
    classes: Map<Seq<char>, IssueClassMsgV>,
    nfts0: Map<(Seq<char>, Seq<char>), NftRecordV>,
    nfts1: Map<(Seq<char>, Seq<char>), NftRecordV>,
    m: NftSendMsgV,
    sender: Seq<char>,
    prev_owner: Seq<char>,
)
    requires
        nft_send_accepted(classes, nfts0, m, sender),
        prev_owner == nfts0[(m.class_id, m.id)].owner,
        prev_owner != m.receiver,
        nfts1 == nfts0.insert(
            (m.class_id, m.id),
            (NftRecordV { owner: m.receiver, ..nfts0[(m.class_id, m.id)] }),
        ),
        nfts_keyed(nfts0),
    ensures
        owner_of(nfts1, m.class_id, m.id) == Some(m.receiver),
        nft_matches(nfts1[(m.class_id, m.id)], Some(m.class_id), Some(m.receiver)),
        forall|k: (Seq<char>, Seq<char>)| #[trigger]
            nfts1.contains_key(k) && nft_matches(nfts1[k], Some(m.class_id), Some(prev_owner))
                ==> !(nfts1[k].class_id == m.class_id && nfts1[k].id == m.id),
{
    let key = (m.class_id, m.id);
    assert(nfts1.contains_key(key));
    assert(nfts1[key].owner == m.receiver);
    assert forall|k: (Seq<char>, Seq<char>)| #[trigger]
        nfts1.contains_key(k) && nft_matches(nfts1[k], Some(m.class_id), Some(prev_owner))
            implies !(nfts1[k].class_id == m.class_id && nfts1[k].id == m.id) by {
        if nfts1[k].class_id == m.class_id && nfts1[k].id == m.id {
            if k == key {
                assert(nfts1[k].owner == m.receiver);
            } else {
                assert(nfts0.contains_key(k));
                assert(nfts0[k].class_id == k.0 && nfts0[k].id == k.1);
                assert(k == key);
            }
        }
    }
}

} // verus!
