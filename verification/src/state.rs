//! The record store a simulated session owns: issued fungible tokens, issued
//! NFT classes, and live minted NFTs.
use vstd::prelude::*;

use crate::msgs::{IssueClassMsg, IssueMsg, NftRecord, NftRecordV};
use crate::store::{PairKeyMap, StrKeyMap};

verus! {

/// Every live NFT record carries the class id and token id it is stored
/// under; the mint, transfer and burn handlers all maintain this.
pub open spec fn nfts_keyed(nfts: Map<(Seq<char>, Seq<char>), NftRecordV>) -> bool {
    forall|k: (Seq<char>, Seq<char>)| #[trigger]
        nfts.contains_key(k) ==> nfts[k].class_id == k.0 && nfts[k].id == k.1
}

/// All records the token-factory and query modules persist, passed by
/// mutable reference into every operation.
pub struct SimStorage {
    /// denom -> issuance record
    pub tokens: StrKeyMap<IssueMsg>,
    /// class id -> class record
    pub classes: StrKeyMap<IssueClassMsg>,
    /// (class id, token id) -> live NFT
    pub nfts: PairKeyMap<NftRecord>,
}

impl SimStorage {
    /// Every record map is well formed and every NFT record carries its own
    /// key.
    pub open spec fn wf(&self) -> bool {
        self.tokens.wf() && self.classes.wf() && self.nfts.wf() && nfts_keyed(self.nfts.as_map())
    }

    /// An empty store.
    pub fn new() -> (r: Self)
        ensures
            r.wf(),
            r.tokens.as_map() == Map::<Seq<char>, crate::msgs::IssueMsgV>::empty(),
            r.classes.as_map() == Map::<Seq<char>, crate::msgs::IssueClassMsgV>::empty(),
            r.nfts.as_map() == Map::<(Seq<char>, Seq<char>), crate::msgs::NftRecordV>::empty(),
            r.nfts.key_seq() =~= Seq::<(Seq<char>, Seq<char>)>::empty(),
            r.tokens.key_seq() =~= Seq::<Seq<char>>::empty(),
            r.classes.key_seq() =~= Seq::<Seq<char>>::empty(),
    {
        SimStorage { tokens: StrKeyMap::new(), classes: StrKeyMap::new(), nfts: PairKeyMap::new() }
    }
}

} // verus!
