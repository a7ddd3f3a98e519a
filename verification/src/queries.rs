//! The Coreum custom-query module: read-only answers about NFTs, NFT
//! classes and fungible tokens, from the same records the token factory
//! writes.
use vstd::prelude::*;

use crate::errors::ModuleError;
use crate::msgs::{IssueClassMsgV, IssueMsgV, NftRecordV};
use crate::state::SimStorage;
use crate::store::pair_lt;
use crate::text::{lex_lt, str_eq};
use crate::wire::{
    class_response_encode, class_response_json, classes_response_encode, classes_response_json,
    nft_response_encode, nft_response_json, nfts_response_encode, nfts_response_json,
    owner_response_encode, owner_response_json, token_response_encode, token_response_json,
    tokens_response_encode, tokens_response_json,
};

verus! {

/// The native fee denom, answered with a synthetic token descriptor.
pub const NATIVE_DENOM: &'static str = "ucore";

/// The typed queries the module answers; unsupported variants of each
/// category carry over as the `*Other` cases.
pub enum CoreumQuery {
    Nft { class_id: String, id: String },
    Nfts { class_id: Option<String>, owner: Option<String> },
    NftOwner { class_id: String, id: String },
    NftOther { detail: String },
    AssetNftClass { id: String },
    AssetNftClasses { issuer: String },
    AssetNftOther { detail: String },
    AssetFtToken { denom: String },
    AssetFtTokens { issuer: String },
    AssetFtOther { detail: String },
    Other { detail: String },
}

/// An NFT as the query surface reports it.
pub struct NftView {
    pub class_id: String,
    pub id: String,
    pub uri: Option<String>,
    pub data: Option<Vec<u8>>,
}

#[verifier::ext_equal]
pub ghost struct NftViewV {
    pub class_id: Seq<char>,
    pub id: Seq<char>,
    pub uri: Option<Seq<char>>,
    pub data: Option<Seq<u8>>,
}

impl View for NftView {
    type V = NftViewV;

    open spec fn view(&self) -> NftViewV {
        NftViewV {
            class_id: self.class_id@,
            id: self.id@,
            uri: match self.uri {
                Some(ref u) => Some(u@),
                None => None,
            },
            data: match self.data {
                Some(ref d) => Some(d@),
                None => None,
            },
        }
    }
}

/// An NFT class as the query surface reports it.
pub struct ClassView {
    pub id: String,
    pub issuer: String,
    pub name: String,
    pub symbol: String,
    pub description: String,
    pub uri: String,
    pub uri_hash: String,
    pub data: Option<Vec<u8>>,
    pub features: Vec<u32>,
    pub royalty_rate: String,
}

#[verifier::ext_equal]
pub ghost struct ClassViewV {
    pub id: Seq<char>,
    pub issuer: Seq<char>,
    pub name: Seq<char>,
    pub symbol: Seq<char>,
    pub description: Seq<char>,
    pub uri: Seq<char>,
    pub uri_hash: Seq<char>,
    pub data: Option<Seq<u8>>,
    pub features: Seq<u32>,
    pub royalty_rate: Seq<char>,
}

impl View for ClassView {
    type V = ClassViewV;

    open spec fn view(&self) -> ClassViewV {
        ClassViewV {
            id: self.id@,
            issuer: self.issuer@,
            name: self.name@,
            symbol: self.symbol@,
            description: self.description@,
            uri: self.uri@,
            uri_hash: self.uri_hash@,
            data: match self.data {
                Some(ref d) => Some(d@),
                None => None,
            },
            features: self.features@,
            royalty_rate: self.royalty_rate@,
        }
    }
}

/// A fungible token as the query surface reports it, including the fixed
/// behavioral fields the module never varies.
pub struct TokenView {
    pub denom: String,
    pub issuer: String,
    pub symbol: String,
    pub subunit: String,
    pub precision: u32,
    pub description: String,
    pub globally_frozen: bool,
    pub features: Vec<u32>,
    pub burn_rate: String,
    pub send_commission_rate: String,
    pub version: u32,
}

#[verifier::ext_equal]
pub ghost struct TokenViewV {
    pub denom: Seq<char>,
    pub issuer: Seq<char>,
    pub symbol: Seq<char>,
    pub subunit: Seq<char>,
    pub precision: u32,
    pub description: Seq<char>,
    pub globally_frozen: bool,
    pub features: Seq<u32>,
    pub burn_rate: Seq<char>,
    pub send_commission_rate: Seq<char>,
    pub version: u32,
}

impl View for TokenView {
    type V = TokenViewV;

    open spec fn view(&self) -> TokenViewV {
        TokenViewV {
            denom: self.denom@,
            issuer: self.issuer@,
            symbol: self.symbol@,
            subunit: self.subunit@,
            precision: self.precision,
            description: self.description@,
            globally_frozen: self.globally_frozen,
            features: self.features@,
            burn_rate: self.burn_rate@,
            send_commission_rate: self.send_commission_rate@,
            version: self.version,
        }
    }
}

/// How a stored NFT record surfaces in query answers: an empty URI becomes
/// "no URI".
pub open spec fn nft_view_of(rec: NftRecordV) -> NftViewV {
    NftViewV {
        class_id: rec.class_id,
        id: rec.id,
        uri: if rec.uri.len() == 0 {
            None
        } else {
            Some(rec.uri)
        },
        data: rec.data,
    }
}

/// Whether a record passes the optional class and owner filters.
pub open spec fn nft_matches(
    rec: NftRecordV,
    class_filter: Option<Seq<char>>,
    owner_filter: Option<Seq<char>>,
) -> bool {
    &&& match class_filter {
        Some(c) => rec.class_id == c,
        None => true,
    }
    &&& match owner_filter {
        Some(o) => rec.owner == o,
        None => true,
    }
}

/// The filter a listing applies to each record.
pub open spec fn nft_pred(
    class_filter: Option<Seq<char>>,
    owner_filter: Option<Seq<char>>,
) -> spec_fn(NftRecordV) -> bool {
    |rec: NftRecordV| nft_matches(rec, class_filter, owner_filter)
}

/// The projection from a stored record to its reported view.
pub open spec fn nft_proj() -> spec_fn(NftRecordV) -> NftViewV {
    |rec: NftRecordV| nft_view_of(rec)
}

/// The matching records, in ascending store order, as the listing reports
/// them.
pub open spec fn nft_listing(
    vals: Seq<NftRecordV>,
    class_filter: Option<Seq<char>>,
    owner_filter: Option<Seq<char>>,
) -> Seq<NftViewV> {
    vals.filter(nft_pred(class_filter, owner_filter)).map_values(nft_proj())
}

/// The views are in strictly ascending (class id, token id) order.
pub open spec fn nft_views_ascending(ns: Seq<NftViewV>) -> bool {
    forall|i: int, j: int|
        #![trigger ns[i], ns[j]]
        0 <= i < j < ns.len() ==> pair_lt((ns[i].class_id, ns[i].id), (ns[j].class_id, ns[j].id))
}

/// The owner recorded for a live NFT.
pub open spec fn owner_of(
    nfts: Map<(Seq<char>, Seq<char>), NftRecordV>,
    class_id: Seq<char>,
    id: Seq<char>,
) -> Option<Seq<char>> {
    if nfts.contains_key((class_id, id)) {
        Some(nfts[(class_id, id)].owner)
    } else {
        None
    }
}

/// How a stored class record surfaces in query answers.
pub open spec fn class_view_of(id: Seq<char>, c: IssueClassMsgV) -> ClassViewV {
    ClassViewV {
        id: id,
        issuer: c.issuer,
        name: c.name,
        symbol: c.symbol,
        description: c.description,
        uri: c.uri,
        uri_hash: c.uri_hash,
        data: c.data,
        features: c.features.map_values(|f: i32| f as u32),
        royalty_rate: "0"@,
    }
}

/// Whether a class passes the optional issuer filter (empty means no filter).
pub open spec fn class_matches(c: IssueClassMsgV, issuer: Seq<char>) -> bool {
    issuer.len() == 0 || c.issuer == issuer
}

/// The filter a class listing applies to each keyed record.
pub open spec fn class_pred(issuer: Seq<char>) -> spec_fn((Seq<char>, IssueClassMsgV)) -> bool {
    |p: (Seq<char>, IssueClassMsgV)| class_matches(p.1, issuer)
}

/// The projection from a keyed class record to its reported view.
pub open spec fn class_proj() -> spec_fn((Seq<char>, IssueClassMsgV)) -> ClassViewV {
    |p: (Seq<char>, IssueClassMsgV)| class_view_of(p.0, p.1)
}

/// The matching classes, in ascending class-id order.
pub open spec fn class_listing(
    keys: Seq<Seq<char>>,
    vals: Seq<IssueClassMsgV>,
    issuer: Seq<char>,
) -> Seq<ClassViewV> {
    Seq::new(keys.len(), |i: int| (keys[i], vals[i])).filter(class_pred(issuer)).map_values(
        class_proj(),
    )
}

/// The views are in strictly ascending class-id order.
pub open spec fn class_views_ascending(cs: Seq<ClassViewV>) -> bool {
    forall|i: int, j: int|
        #![trigger cs[i], cs[j]]
        0 <= i < j < cs.len() ==> lex_lt(cs[i].id, cs[j].id)
}

/// How a stored issuance record surfaces in query answers: never frozen, no
/// feature flags, zero burn and commission rates, version zero.
pub open spec fn token_view_of(denom: Seq<char>, t: IssueMsgV) -> TokenViewV {
    TokenViewV {
        denom: denom,
        issuer: t.issuer,
        symbol: t.symbol,
        subunit: t.subunit,
        precision: t.precision,
        description: t.description,
        globally_frozen: false,
        features: Seq::empty(),
        burn_rate: "0"@,
        send_commission_rate: "0"@,
        version: 0,
    }
}

/// The synthetic descriptor for the chain's native fee denom.
pub open spec fn native_token_view(denom: Seq<char>) -> TokenViewV {
    TokenViewV {
        denom: denom,
        issuer: ""@,
        symbol: "CORE"@,
        subunit: denom,
        precision: 6,
        description: "Native Coreum token"@,
        globally_frozen: false,
        features: Seq::empty(),
        burn_rate: "0"@,
        send_commission_rate: "0"@,
        version: 0,
    }
}

/// Whether a token passes the optional issuer filter (empty means no filter).
pub open spec fn token_matches(t: IssueMsgV, issuer: Seq<char>) -> bool {
    issuer.len() == 0 || t.issuer == issuer
}

/// The filter a token listing applies to each keyed record.
pub open spec fn token_pred(issuer: Seq<char>) -> spec_fn((Seq<char>, IssueMsgV)) -> bool {
    |p: (Seq<char>, IssueMsgV)| token_matches(p.1, issuer)
}

/// The projection from a keyed issuance record to its reported view.
pub open spec fn token_proj() -> spec_fn((Seq<char>, IssueMsgV)) -> TokenViewV {
    |p: (Seq<char>, IssueMsgV)| token_view_of(p.0, p.1)
}

/// The matching tokens, in ascending denom order.
pub open spec fn token_listing(
    keys: Seq<Seq<char>>,
    vals: Seq<IssueMsgV>,
    issuer: Seq<char>,
) -> Seq<TokenViewV> {
    Seq::new(keys.len(), |i: int| (keys[i], vals[i])).filter(token_pred(issuer)).map_values(
        token_proj(),
    )
}

/// The views are in strictly ascending denom order.
pub open spec fn token_views_ascending(ts: Seq<TokenViewV>) -> bool {
    forall|i: int, j: int|
        #![trigger ts[i], ts[j]]
        0 <= i < j < ts.len() ==> lex_lt(ts[i].denom, ts[j].denom)
}

/// A filter of a strictly ascending sequence stays strictly ascending, and
/// every kept element comes from the original.
proof fn lemma_filter_sorted<A>(s: Seq<A>, pred: spec_fn(A) -> bool, lt: spec_fn(A, A) -> bool)
    requires
        forall|i: int, j: int| #![trigger s[i], s[j]] 0 <= i < j < s.len() ==> lt(s[i], s[j]),
    ensures
        forall|i: int, j: int|
            #![trigger s.filter(pred)[i], s.filter(pred)[j]]
            0 <= i < j < s.filter(pred).len() ==> lt(s.filter(pred)[i], s.filter(pred)[j]),
        forall|k: int|
            #![trigger s.filter(pred)[k]]
            0 <= k < s.filter(pred).len() ==> exists|i: int|
                0 <= i < s.len() && s.filter(pred)[k] == #[trigger] s[i],
    decreases s.len(),
{
    reveal(Seq::filter);
    if s.len() > 0 {
        let dl = s.drop_last();
        assert forall|i: int, j: int| 0 <= i < j < dl.len() implies lt(dl[i], dl[j]) by {
            assert(dl[i] == s[i]);
            assert(dl[j] == s[j]);
        }
        lemma_filter_sorted(dl, pred, lt);
        let fd = dl.filter(pred);
        let fs = s.filter(pred);
        if pred(s.last()) {
            assert(fs =~= fd.push(s.last()));
        } else {
            assert(fs =~= fd);
        }
        assert forall|k: int| #![trigger fs[k]] 0 <= k < fs.len() implies exists|i: int|
            0 <= i < s.len() && fs[k] == #[trigger] s[i] by {
            if k < fd.len() {
                assert(fs[k] == fd[k]);
                let i = choose|i: int| 0 <= i < dl.len() && fd[k] == #[trigger] dl[i];
                assert(fs[k] == s[i]);
            } else {
                assert(fs[k] == s[s.len() - 1]);
            }
        }
        assert forall|i: int, j: int| 0 <= i < j < fs.len() implies lt(fs[i], fs[j]) by {
            if j < fd.len() {
                assert(fs[i] == fd[i]);
                assert(fs[j] == fd[j]);
            } else {
                assert(fs[j] == s[s.len() - 1]);
                assert(fs[i] == fd[i]);
                let a = choose|a: int| 0 <= a < dl.len() && fd[i] == #[trigger] dl[a];
                assert(fs[i] == s[a]);
                assert(lt(s[a], s[s.len() - 1]));
            }
        }
    }
}

/// NFT listings come back in strictly ascending (class id, token id) order:
/// the store keeps its keys ascending, every record carries its key, and
/// filtering keeps the order.
pub proof fn lemma_nft_listing_ascending(
    storage: &SimStorage,
    class_filter: Option<Seq<char>>,
    owner_filter: Option<Seq<char>>,
)
    requires
        storage.wf(),
    ensures
        nft_views_ascending(nft_listing(storage.nfts.val_seq(), class_filter, owner_filter)),
{
    let keys = storage.nfts.key_seq();
    let vals = storage.nfts.val_seq();
    let lt = |r1: NftRecordV, r2: NftRecordV| pair_lt((r1.class_id, r1.id), (r2.class_id, r2.id));
    assert forall|i: int, j: int|
        #![trigger vals[i], vals[j]]
        0 <= i < j < vals.len() implies lt(vals[i], vals[j]) by {
        storage.nfts.lemma_at(i);
        storage.nfts.lemma_at(j);
        assert(vals[i].class_id == keys[i].0 && vals[i].id == keys[i].1);
        assert(vals[j].class_id == keys[j].0 && vals[j].id == keys[j].1);
        assert(pair_lt(keys[i], keys[j]));
        assert((vals[i].class_id, vals[i].id) == keys[i]);
        assert((vals[j].class_id, vals[j].id) == keys[j]);
    }
    lemma_filter_sorted(vals, nft_pred(class_filter, owner_filter), lt);
    let f = vals.filter(nft_pred(class_filter, owner_filter));
    let listing = nft_listing(vals, class_filter, owner_filter);
    assert forall|i: int, j: int|
        #![trigger listing[i], listing[j]]
        0 <= i < j < listing.len() implies pair_lt(
        (listing[i].class_id, listing[i].id),
        (listing[j].class_id, listing[j].id),
    ) by {
        assert(listing[i] == nft_proj()(f[i]));
        assert(listing[j] == nft_proj()(f[j]));
        assert(lt(f[i], f[j]));
    }
}

/// Class listings come back in strictly ascending class-id order.
pub proof fn lemma_class_listing_ascending(storage: &SimStorage, issuer: Seq<char>)
    requires
        storage.wf(),
    ensures
        class_views_ascending(
            class_listing(storage.classes.key_seq(), storage.classes.val_seq(), issuer),
        ),
{
    let keys = storage.classes.key_seq();
    let vals = storage.classes.val_seq();
    let pairs = Seq::new(keys.len(), |i: int| (keys[i], vals[i]));
    let lt = |p: (Seq<char>, IssueClassMsgV), q: (Seq<char>, IssueClassMsgV)| lex_lt(p.0, q.0);
    assert forall|i: int, j: int|
        #![trigger pairs[i], pairs[j]]
        0 <= i < j < pairs.len() implies lt(pairs[i], pairs[j]) by {
        assert(lex_lt(keys[i], keys[j]));
    }
    lemma_filter_sorted(pairs, class_pred(issuer), lt);
    let f = pairs.filter(class_pred(issuer));
    let listing = class_listing(keys, vals, issuer);
    assert forall|i: int, j: int|
        #![trigger listing[i], listing[j]]
        0 <= i < j < listing.len() implies lex_lt(listing[i].id, listing[j].id) by {
        assert(listing[i] == class_proj()(f[i]));
        assert(listing[j] == class_proj()(f[j]));
        assert(lt(f[i], f[j]));
    }
}

/// Token listings come back in strictly ascending denom order.
pub proof fn lemma_token_listing_ascending(storage: &SimStorage, issuer: Seq<char>)
    requires
        storage.wf(),
    ensures
        token_views_ascending(
            token_listing(storage.tokens.key_seq(), storage.tokens.val_seq(), issuer),
        ),
{
    let keys = storage.tokens.key_seq();
    let vals = storage.tokens.val_seq();
    let pairs = Seq::new(keys.len(), |i: int| (keys[i], vals[i]));
    let lt = |p: (Seq<char>, IssueMsgV), q: (Seq<char>, IssueMsgV)| lex_lt(p.0, q.0);
    assert forall|i: int, j: int|
        #![trigger pairs[i], pairs[j]]
        0 <= i < j < pairs.len() implies lt(pairs[i], pairs[j]) by {
        assert(lex_lt(keys[i], keys[j]));
    }
    lemma_filter_sorted(pairs, token_pred(issuer), lt);
    let f = pairs.filter(token_pred(issuer));
    let listing = token_listing(keys, vals, issuer);
    assert forall|i: int, j: int|
        #![trigger listing[i], listing[j]]
        0 <= i < j < listing.len() implies lex_lt(listing[i].denom, listing[j].denom) by {
        assert(listing[i] == token_proj()(f[i]));
        assert(listing[j] == token_proj()(f[j]));
        assert(lt(f[i], f[j]));
    }
}

/// Answers module-specific typed queries from the persisted records.
#[derive(Clone)]
pub struct CoreumQueryModule;

impl CoreumQueryModule {
    /// A query module instance; it holds no state of its own.
    pub fn new() -> (r: Self) {
        CoreumQueryModule
    }

    /// Answers one typed query from the store, read-only.
    pub fn query(&self, storage: &SimStorage, req: &CoreumQuery) -> (r: Result<
        Vec<u8>,
        ModuleError,
    >)
        requires
            storage.wf(),
        ensures
            match *req {
                CoreumQuery::Nft { ref class_id, ref id } => {
                    let key = (class_id@, id@);
                    match r {
                        Ok(out) => storage.nfts.as_map().contains_key(key) && out@
                            == nft_response_json(nft_view_of(storage.nfts.as_map()[key])),
                        Err(e) => !storage.nfts.as_map().contains_key(key) && (e matches
                            ModuleError::NftNotFoundQuery { class_id: c, id: i } && c@ == class_id@
                            && i@ == id@),
                    }
                },
                CoreumQuery::Nfts { ref class_id, ref owner } => true,
                CoreumQuery::NftOwner { ref class_id, ref id } => {
                    let key = (class_id@, id@);
                    match r {
                        Ok(out) => storage.nfts.as_map().contains_key(key) && out@
                            == owner_response_json(storage.nfts.as_map()[key].owner),
                        Err(e) => !storage.nfts.as_map().contains_key(key) && (e matches
                            ModuleError::NftNotFoundQuery { class_id: c, id: i } && c@ == class_id@
                            && i@ == id@),
                    }
                },
                CoreumQuery::NftOther { ref detail } => r matches Err(e) && (e matches
                    ModuleError::NftQueryNotImplemented { detail: d } && d@ == detail@),
                CoreumQuery::AssetNftClass { ref id } => {
                    match r {
                        Ok(out) => storage.classes.as_map().contains_key(id@) && out@
                            == class_response_json(
                            class_view_of(id@, storage.classes.as_map()[id@]),
                        ),
                        Err(e) => !storage.classes.as_map().contains_key(id@) && (e matches
                            ModuleError::ClassNotFoundQuery { class_id: c } && c@ == id@),
                    }
                },
                CoreumQuery::AssetNftClasses { ref issuer } => r matches Ok(out) && out@
                    == classes_response_json(
                    class_listing(storage.classes.key_seq(), storage.classes.val_seq(), issuer@),
                    None,
                    Some(0),
                ) && class_views_ascending(
                    class_listing(storage.classes.key_seq(), storage.classes.val_seq(), issuer@),
                ),
                CoreumQuery::AssetNftOther { ref detail } => r matches Err(e) && (e matches
                    ModuleError::AssetNftQueryNotImplemented { detail: d } && d@ == detail@),
                CoreumQuery::AssetFtToken { ref denom } => {
                    if storage.tokens.as_map().contains_key(denom@) {
                        r matches Ok(out) && out@ == token_response_json(
                            token_view_of(denom@, storage.tokens.as_map()[denom@]),
                        )
                    } else if denom@ == NATIVE_DENOM@ {
                        r matches Ok(out) && out@ == token_response_json(native_token_view(denom@))
                    } else {
                        r matches Err(e) && (e matches ModuleError::FtNotFoundQuery { denom: d }
                            && d@ == denom@)
                    }
                },
                CoreumQuery::AssetFtTokens { ref issuer } => r matches Ok(out) && out@
                    == tokens_response_json(
                    token_listing(storage.tokens.key_seq(), storage.tokens.val_seq(), issuer@),
                    None,
                    Some(0),
                ) && token_views_ascending(
                    token_listing(storage.tokens.key_seq(), storage.tokens.val_seq(), issuer@),
                ),
                CoreumQuery::AssetFtOther { ref detail } => r matches Err(e) && (e matches
                    ModuleError::AssetFtQueryNotImplemented { detail: d } && d@ == detail@),
                CoreumQuery::Other { ref detail } => r matches Err(e) && (e matches
                    ModuleError::QueryNotImplemented { detail: d } && d@ == detail@),
            },
            ({
                match *req {
                    CoreumQuery::Nfts { ref class_id, ref owner } => {
                        let cf = match *class_id {
                            Some(ref c) => Some(c@),
                            None => None,
                        };
                        let of = match *owner {
                            Some(ref o) => Some(o@),
                            None => None,
                        };
                        r matches Ok(out) && out@ == nfts_response_json(
                            nft_listing(storage.nfts.val_seq(), cf, of),
                            None,
                            Some(0),
                        ) && nft_views_ascending(nft_listing(storage.nfts.val_seq(), cf, of))
                    },
                    _ => true,
                }
            }),
    {
        match req {
            CoreumQuery::Nft { class_id, id } => {
                match storage.nfts.get(class_id.as_str(), id.as_str()) {
                    Some(rec) => {
                        let view = make_nft_view(rec);
                        Ok(nft_response_encode(&view))
                    },
                    None => Err(
                        ModuleError::NftNotFoundQuery {
                            class_id: class_id.clone(),
                            id: id.clone(),
                        },
                    ),
                }
            },
            CoreumQuery::Nfts { class_id, owner } => {
                let views = self.list_nfts(storage, class_id, owner);
                proof {
                    lemma_nft_listing_ascending(
                        storage,
                        match *class_id {
                            Some(ref c) => Some(c@),
                            None => None,
                        },
                        match *owner {
                            Some(ref o) => Some(o@),
                            None => None,
                        },
                    );
                }
                Ok(nfts_response_encode(&views, &None, Some(0)))
            },
            CoreumQuery::NftOwner { class_id, id } => {
                match storage.nfts.get(class_id.as_str(), id.as_str()) {
                    Some(rec) => Ok(owner_response_encode(&rec.owner)),
                    None => Err(
                        ModuleError::NftNotFoundQuery {
                            class_id: class_id.clone(),
                            id: id.clone(),
                        },
                    ),
                }
            },
            CoreumQuery::NftOther { detail } => Err(
                ModuleError::NftQueryNotImplemented { detail: detail.clone() },
            ),
            CoreumQuery::AssetNftClass { id } => {
                match storage.classes.get(id.as_str()) {
                    Some(c) => {
                        let view = make_class_view(id, c);
                        Ok(class_response_encode(&view))
                    },
                    None => Err(ModuleError::ClassNotFoundQuery { class_id: id.clone() }),
                }
            },
            CoreumQuery::AssetNftClasses { issuer } => {
                let views = self.list_classes(storage, issuer);
                proof {
                    lemma_class_listing_ascending(storage, issuer@);
                }
                Ok(classes_response_encode(&views, &None, Some(0)))
            },
            CoreumQuery::AssetNftOther { detail } => Err(
                ModuleError::AssetNftQueryNotImplemented { detail: detail.clone() },
            ),
            CoreumQuery::AssetFtToken { denom } => {
                match storage.tokens.get(denom.as_str()) {
                    Some(t) => {
                        let view = make_token_view(denom, t);
                        Ok(token_response_encode(&view))
                    },
                    None => {
                        if str_eq(denom.as_str(), NATIVE_DENOM) {
                            let view = TokenView {
                                denom: denom.clone(),
                                issuer: String::new(),
                                symbol: String::from_str("CORE"),
                                subunit: denom.clone(),
                                precision: 6,
                                description: String::from_str("Native Coreum token"),
                                globally_frozen: false,
                                features: Vec::new(),
                                burn_rate: String::from_str("0"),
                                send_commission_rate: String::from_str("0"),
                                version: 0,
                            };
                            proof {
                                reveal_strlit("");
                                assert(view@ =~= native_token_view(denom@));
                            }
                            Ok(token_response_encode(&view))
                        } else {
                            Err(ModuleError::FtNotFoundQuery { denom: denom.clone() })
                        }
                    },
                }
            },
            CoreumQuery::AssetFtTokens { issuer } => {
                let views = self.list_tokens(storage, issuer);
                proof {
                    lemma_token_listing_ascending(storage, issuer@);
                }
                Ok(tokens_response_encode(&views, &None, Some(0)))
            },
            CoreumQuery::AssetFtOther { detail } => Err(
                ModuleError::AssetFtQueryNotImplemented { detail: detail.clone() },
            ),
            CoreumQuery::Other { detail } => Err(
                ModuleError::QueryNotImplemented { detail: detail.clone() },
            ),
        }
    }

    /// Linear scan over the minted NFTs with the optional filters.
    fn list_nfts(
        &self,
        storage: &SimStorage,
        class_id: &Option<String>,
        owner: &Option<String>,
    ) -> (r: Vec<NftView>)
        requires
            storage.wf(),
        ensures
            r@.map_values(|v: NftView| v@) == nft_listing(
                storage.nfts.val_seq(),
                match *class_id {
                    Some(ref c) => Some(c@),
                    None => None,
                },
                match *owner {
                    Some(ref o) => Some(o@),
                    None => None,
                },
            ),
    {
        let ghost cf: Option<Seq<char>> = match *class_id {
            Some(ref c) => Some(c@),
            None => None,
        };
        let ghost of: Option<Seq<char>> = match *owner {
            Some(ref o) => Some(o@),
            None => None,
        };
        let ghost pred = nft_pred(cf, of);
        let n = storage.nfts.len();
        let mut out: Vec<NftView> = Vec::new();
        let mut i: usize = 0;
        while i < n
            invariant
                storage.wf(),
                n == storage.nfts.key_seq().len(),
                storage.nfts.key_seq().len() == storage.nfts.val_seq().len(),
                cf == (match *class_id {
                    Some(ref c) => Some(c@),
                    None => None,
                }),
                of == (match *owner {
                    Some(ref o) => Some(o@),
                    None => None,
                }),
                pred == nft_pred(cf, of),
                i <= n,
                out@.map_values(|v: NftView| v@) =~= storage.nfts.val_seq().take(i as int).filter(
                    pred,
                ).map_values(nft_proj()),
            decreases n - i,
        {
            let rec = storage.nfts.val_at(i);
            let ghost recv = storage.nfts.val_seq()[i as int];
            let class_ok = match class_id {
                Some(c) => str_eq(rec.class_id.as_str(), c.as_str()),
                None => true,
            };
            let owner_ok = match owner {
                Some(o) => str_eq(rec.owner.as_str(), o.as_str()),
                None => true,
            };
            let ghost out0 = out@;
            proof {
                reveal(Seq::filter);
                assert(storage.nfts.val_seq().take(i + 1).drop_last() =~= storage.nfts.val_seq()
                    .take(i as int));
                assert(storage.nfts.val_seq().take(i + 1).last() == recv);
            }
            proof {
                assert(rec@ == recv);
                assert(class_ok == (match cf {
                    Some(c) => recv.class_id == c,
                    None => true,
                }));
                assert(owner_ok == (match of {
                    Some(o) => recv.owner == o,
                    None => true,
                }));
                assert((class_ok && owner_ok) == nft_matches(recv, cf, of));
            }
            if class_ok && owner_ok {
                let view = make_nft_view(rec);
                out.push(view);
                proof {
                    assert(pred(recv));
                    assert(out@ =~= out0.push(out@[out@.len() - 1]));
                    assert(out@[out@.len() - 1]@ == nft_view_of(recv));
                    assert(out@.map_values(|v: NftView| v@) =~= out0.map_values(
                        |v: NftView| v@,
                    ).push(nft_proj()(recv)));
                    assert(storage.nfts.val_seq().take(i + 1).filter(pred) =~= storage.nfts
                        .val_seq().take(i as int).filter(pred).push(recv));
                    assert(out@.map_values(|v: NftView| v@) =~= storage.nfts.val_seq().take(i + 1)
                        .filter(pred).map_values(nft_proj()));
                }
            } else {
                proof {
                    assert(!pred(recv));
                    assert(storage.nfts.val_seq().take(i + 1).filter(pred) =~= storage.nfts
                        .val_seq().take(i as int).filter(pred));
                }
            }
            i += 1;
        }
        proof {
            assert(storage.nfts.val_seq().take(n as int) =~= storage.nfts.val_seq());
        }
        out
    }

    /// Linear scan over the issued classes with the optional issuer filter.
    fn list_classes(&self, storage: &SimStorage, issuer: &String) -> (r: Vec<ClassView>)
        requires
            storage.wf(),
        ensures
            r@.map_values(|v: ClassView| v@) == class_listing(
                storage.classes.key_seq(),
                storage.classes.val_seq(),
                issuer@,
            ),
    {
        let ghost keys = storage.classes.key_seq();
        let ghost vals = storage.classes.val_seq();
        let ghost pairs = Seq::new(keys.len(), |i: int| (keys[i], vals[i]));
        let ghost pred = class_pred(issuer@);
        let ghost proj = class_proj();
        let n = storage.classes.len();
        let mut out: Vec<ClassView> = Vec::new();
        let mut i: usize = 0;
        while i < n
            invariant
                storage.wf(),
                n == keys.len(),
                keys == storage.classes.key_seq(),
                vals == storage.classes.val_seq(),
                keys.len() == vals.len(),
                pairs == Seq::new(keys.len(), |i: int| (keys[i], vals[i])),
                pred == class_pred(issuer@),
                proj == class_proj(),
                i <= n,
                out@.map_values(|v: ClassView| v@) =~= pairs.take(i as int).filter(
                    pred,
                ).map_values(proj),
            decreases n - i,
        {
            let key = storage.classes.key_at(i);
            let cls = storage.classes.val_at(i);
            let included = issuer.as_str().is_empty() || str_eq(cls.issuer.as_str(), issuer.as_str());
            let ghost out0 = out@;
            proof {
                reveal(Seq::filter);
                assert(pairs.take(i + 1).drop_last() =~= pairs.take(i as int));
                assert(pairs.take(i + 1).last() == pairs[i as int]);
                assert(pairs[i as int] == (keys[i as int], vals[i as int]));
            }
            if included {
                let view = make_class_view(key, cls);
                out.push(view);
                proof {
                    assert(pred(pairs[i as int]));
                    assert(out@ =~= out0.push(out@[out@.len() - 1]));
                    assert(out@[out@.len() - 1]@ == proj(pairs[i as int]));
                    assert(out@.map_values(|v: ClassView| v@) =~= out0.map_values(
                        |v: ClassView| v@,
                    ).push(proj(pairs[i as int])));
                    assert(pairs.take(i + 1).filter(pred) =~= pairs.take(i as int).filter(
                        pred,
                    ).push(pairs[i as int]));
                    assert(out@.map_values(|v: ClassView| v@) =~= pairs.take(i + 1).filter(
                        pred,
                    ).map_values(proj));
                }
            } else {
                proof {
                    assert(!pred(pairs[i as int]));
                    assert(pairs.take(i + 1).filter(pred) =~= pairs.take(i as int).filter(pred));
                }
            }
            i += 1;
        }
        proof {
            assert(pairs.take(n as int) =~= pairs);
        }
        out
    }

    /// Linear scan over the issued tokens with the optional issuer filter.
    fn list_tokens(&self, storage: &SimStorage, issuer: &String) -> (r: Vec<TokenView>)
        requires
            storage.wf(),
        ensures
            r@.map_values(|v: TokenView| v@) == token_listing(
                storage.tokens.key_seq(),
                storage.tokens.val_seq(),
                issuer@,
            ),
    {
        let ghost keys = storage.tokens.key_seq();
        let ghost vals = storage.tokens.val_seq();
        let ghost pairs = Seq::new(keys.len(), |i: int| (keys[i], vals[i]));
        let ghost pred = token_pred(issuer@);
        let ghost proj = token_proj();
        let n = storage.tokens.len();
        let mut out: Vec<TokenView> = Vec::new();
        let mut i: usize = 0;
        while i < n
            invariant
                storage.wf(),
                n == keys.len(),
                keys == storage.tokens.key_seq(),
                vals == storage.tokens.val_seq(),
                keys.len() == vals.len(),
                pairs == Seq::new(keys.len(), |i: int| (keys[i], vals[i])),
                pred == token_pred(issuer@),
                proj == token_proj(),
                i <= n,
                out@.map_values(|v: TokenView| v@) =~= pairs.take(i as int).filter(
                    pred,
                ).map_values(proj),
            decreases n - i,
        {
            let key = storage.tokens.key_at(i);
            let tok = storage.tokens.val_at(i);
            let included = issuer.as_str().is_empty() || str_eq(tok.issuer.as_str(), issuer.as_str());
            let ghost out0 = out@;
            proof {
                reveal(Seq::filter);
                assert(pairs.take(i + 1).drop_last() =~= pairs.take(i as int));
                assert(pairs.take(i + 1).last() == pairs[i as int]);
                assert(pairs[i as int] == (keys[i as int], vals[i as int]));
            }
            if included {
                let view = make_token_view(key, tok);
                out.push(view);
                proof {
                    assert(pred(pairs[i as int]));
                    assert(out@ =~= out0.push(out@[out@.len() - 1]));
                    assert(out@[out@.len() - 1]@ == proj(pairs[i as int]));
                    assert(out@.map_values(|v: TokenView| v@) =~= out0.map_values(
                        |v: TokenView| v@,
                    ).push(proj(pairs[i as int])));
                    assert(pairs.take(i + 1).filter(pred) =~= pairs.take(i as int).filter(
                        pred,
                    ).push(pairs[i as int]));
                    assert(out@.map_values(|v: TokenView| v@) =~= pairs.take(i + 1).filter(
                        pred,
                    ).map_values(proj));
                }
            } else {
                proof {
                    assert(!pred(pairs[i as int]));
                    assert(pairs.take(i + 1).filter(pred) =~= pairs.take(i as int).filter(pred));
                }
            }
            i += 1;
        }
        proof {
            assert(pairs.take(n as int) =~= pairs);
        }
        out
    }
}

/// Builds the query view of a stored NFT record.
fn make_nft_view(rec: &crate::msgs::NftRecord) -> (r: NftView)
    ensures
        r@ == nft_view_of(rec@),
{
    let uri: Option<String> = if rec.uri.as_str().is_empty() {
        None
    } else {
        Some(rec.uri.clone())
    };
    let data: Option<Vec<u8>> = match &rec.data {
        Some(d) => Some(d.clone()),
        None => None,
    };
    let r = NftView { class_id: rec.class_id.clone(), id: rec.id.clone(), uri, data };
    proof {
        assert(r@ =~= nft_view_of(rec@));
    }
    r
}

/// Builds the query view of a stored class record.
fn make_class_view(id: &String, c: &crate::msgs::IssueClassMsg) -> (r: ClassView)
    ensures
        r@ == class_view_of(id@, c@),
{
    let data: Option<Vec<u8>> = match &c.data {
        Some(d) => Some(d.clone()),
        None => None,
    };
    let n = c.features.len();
    let mut features: Vec<u32> = Vec::new();
    let mut i: usize = 0;
    while i < n
        invariant
            n == c.features@.len(),
            i <= n,
            features@ =~= c.features@.take(i as int).map_values(|f: i32| f as u32),
        decreases n - i,
    {
        proof {
            assert(c.features@.take(i + 1).drop_last() =~= c.features@.take(i as int));
        }
        let f = c.features[i];
        #[verifier::truncate]
        let fu = f as u32;
        features.push(fu);
        proof {
            assert(features@ =~= c.features@.take(i + 1).map_values(|f: i32| f as u32));
        }
        i += 1;
    }
    proof {
        assert(c.features@.take(n as int) =~= c.features@);
    }
    let r = ClassView {
        id: id.clone(),
        issuer: c.issuer.clone(),
        name: c.name.clone(),
        symbol: c.symbol.clone(),
        description: c.description.clone(),
        uri: c.uri.clone(),
        uri_hash: c.uri_hash.clone(),
        data,
        features,
        royalty_rate: String::from_str("0"),
    };
    proof {
        assert(r@ =~= class_view_of(id@, c@));
    }
    r
}

/// Builds the query view of a stored issuance record.
fn make_token_view(denom: &String, t: &crate::msgs::IssueMsg) -> (r: TokenView)
    ensures
        r@ == token_view_of(denom@, t@),
{
    let r = TokenView {
        denom: denom.clone(),
        issuer: t.issuer.clone(),
        symbol: t.symbol.clone(),
        subunit: t.subunit.clone(),
        precision: t.precision,
        description: t.description.clone(),
        globally_frozen: false,
        features: Vec::new(),
        burn_rate: String::from_str("0"),
        send_commission_rate: String::from_str("0"),
        version: 0,
    };
    proof {
        assert(r@ =~= token_view_of(denom@, t@));
    }
    r
}


impl CoreumQueryModule {
    /// The query module performs no state-changing actions.
    pub fn execute(
        &self,
        storage: &mut SimStorage,
        bank: &mut crate::bank::Bank,
        sender: &String,
    ) -> (r: Result<crate::msgs::ModuleResponse, ModuleError>)
        ensures
            *final(storage) == *old(storage),
            *final(bank) == *old(bank),
            r matches Err(e) && e is ExecuteNotImplemented,
    {
        Err(ModuleError::ExecuteNotImplemented)
    }

    /// The query module has no privileged entry point: sudo succeeds and
    /// does nothing.
    pub fn sudo(
        &self,
        storage: &mut SimStorage,
        bank: &mut crate::bank::Bank,
    ) -> (r: Result<crate::msgs::ModuleResponse, ModuleError>)
        ensures
            *final(storage) == *old(storage),
            *final(bank) == *old(bank),
            r matches Ok(resp) && resp@.data is None && resp@.events.len() == 0,
    {
        Ok(crate::msgs::ModuleResponse { data: None, events: Vec::new() })
    }
}

} // verus!
