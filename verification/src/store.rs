//! In-memory keyed record store used by the simulated modules.
//!
//! Records are held in ascending key order with pairwise-distinct keys, as
//! an ordered key-value store scans them; the abstract view of a store is a
//! `Map` from key characters to record views.
use vstd::map::*;
use vstd::prelude::*;

use crate::text::{lemma_lex_irrefl, lemma_lex_total, lemma_lex_trans, lex_lt, str_eq, str_lt};

verus! {

/// Ascending order on composite keys: by the first component, ties by the
/// second.
pub open spec fn pair_lt(a: (Seq<char>, Seq<char>), b: (Seq<char>, Seq<char>)) -> bool {
    lex_lt(a.0, b.0) || (a.0 == b.0 && lex_lt(a.1, b.1))
}

/// No key pair sorts before itself.
pub proof fn lemma_pair_irrefl(a: (Seq<char>, Seq<char>))
    ensures
        !pair_lt(a, a),
{
    lemma_lex_irrefl(a.0);
    lemma_lex_irrefl(a.1);
}

/// The pair order is total.
pub proof fn lemma_pair_total(a: (Seq<char>, Seq<char>), b: (Seq<char>, Seq<char>))
    ensures
        pair_lt(a, b) || pair_lt(b, a) || a == b,
{
    lemma_lex_total(a.0, b.0);
    if a.0 == b.0 {
        lemma_lex_total(a.1, b.1);
    }
}

/// The pair order is transitive.
pub proof fn lemma_pair_trans(
    a: (Seq<char>, Seq<char>),
    b: (Seq<char>, Seq<char>),
    c: (Seq<char>, Seq<char>),
)
    requires
        pair_lt(a, b),
        pair_lt(b, c),
    ensures
        pair_lt(a, c),
{
    if lex_lt(a.0, b.0) && lex_lt(b.0, c.0) {
        lemma_lex_trans(a.0, b.0, c.0);
    } else if a.0 == b.0 && b.0 == c.0 {
        lemma_lex_trans(a.1, b.1, c.1);
    }
}

/// A record store keyed by strings.
pub struct StrKeyMap<V> {
    keys: Vec<String>,
    vals: Vec<V>,
}

impl<V: View> StrKeyMap<V> {
    /// The keys, in insertion order.
    pub closed spec fn key_seq(&self) -> Seq<Seq<char>> {
        self.keys@.map_values(|k: String| k@)
    }

    /// The record views, in insertion order.
    pub closed spec fn val_seq(&self) -> Seq<V::V> {
        self.vals@.map_values(|v: V| v@)
    }

    /// Index of a key among `key_seq`.
    pub open spec fn idx_of(&self, k: Seq<char>) -> int {
        choose|i: int| 0 <= i < self.key_seq().len() && self.key_seq()[i] == k
    }

    /// Keys are in ascending order, pairwise distinct, and aligned with the
    /// records.
    pub open spec fn wf(&self) -> bool {
        &&& self.key_seq().len() == self.val_seq().len()
        &&& forall|i: int, j: int|
            0 <= i < j < self.key_seq().len() ==> self.key_seq()[i] != self.key_seq()[j]
        &&& forall|i: int, j: int|
            0 <= i < j < self.key_seq().len() ==> lex_lt(
                #[trigger] self.key_seq()[i],
                #[trigger] self.key_seq()[j],
            )
    }

    /// The store as a map from key to record view.
    pub closed spec fn as_map(&self) -> Map<Seq<char>, V::V> {
        Map::new(
            |k: Seq<char>| self.key_seq().contains(k),
            |k: Seq<char>| self.val_seq()[self.idx_of(k)],
        )
    }

    /// Membership in the map is membership among the keys.
    pub proof fn lemma_contains(&self, k: Seq<char>)
        ensures
            self.as_map().contains_key(k) <==> self.key_seq().contains(k),
    {
    }

    /// The record stored at position `i` is the map's record for that key.
    pub proof fn lemma_at(&self, i: int)
        requires
            self.wf(),
            0 <= i < self.key_seq().len(),
        ensures
            self.as_map().contains_key(self.key_seq()[i]),
            self.as_map()[self.key_seq()[i]] == self.val_seq()[i],
    {
        let k = self.key_seq()[i];
        assert(self.key_seq().contains(k));
        let j = self.idx_of(k);
        assert(0 <= j < self.key_seq().len() && self.key_seq()[j] == k);
        assert(j == i);
    }

    /// An empty store.
    pub fn new() -> (r: Self)
        ensures
            r.wf(),
            r.as_map() == Map::<Seq<char>, V::V>::empty(),
            r.key_seq() =~= Seq::<Seq<char>>::empty(),
            r.val_seq() =~= Seq::<V::V>::empty(),
    {
        let r = StrKeyMap { keys: Vec::new(), vals: Vec::new() };
        proof {
            assert(r.key_seq() =~= Seq::<Seq<char>>::empty());
            assert(r.val_seq() =~= Seq::<V::V>::empty());
            assert(r.as_map() =~= Map::<Seq<char>, V::V>::empty());
        }
        r
    }

    /// Number of records.
    pub fn len(&self) -> (r: usize)
        requires
            self.wf(),
        ensures
            r == self.key_seq().len(),
    {
        self.keys.len()
    }

    /// The key at a position.
    pub fn key_at(&self, i: usize) -> (r: &String)
        requires
            self.wf(),
            i < self.key_seq().len(),
        ensures
            r@ == self.key_seq()[i as int],
    {
        &self.keys[i]
    }

    /// The record at a position.
    pub fn val_at(&self, i: usize) -> (r: &V)
        requires
            self.wf(),
            i < self.key_seq().len(),
        ensures
            r@ == self.val_seq()[i as int],
            self.as_map().contains_key(self.key_seq()[i as int]),
            self.as_map()[self.key_seq()[i as int]] == r@,
    {
        proof {
            self.lemma_at(i as int);
        }
        &self.vals[i]
    }

    /// Position of a key, when present.
    fn find(&self, k: &str) -> (r: Option<usize>)
        requires
            self.wf(),
        ensures
            match r {
                Some(i) => i < self.key_seq().len() && self.key_seq()[i as int] == k@,
                None => !self.key_seq().contains(k@),
            },
    {
        let n = self.keys.len();
        let mut i: usize = 0;
        while i < n
            invariant
                self.wf(),
                n == self.key_seq().len(),
                i <= n,
                forall|j: int| 0 <= j < i ==> self.key_seq()[j] != k@,
            decreases n - i,
        {
            if str_eq(self.keys[i].as_str(), k) {
                return Some(i);
            }
            i += 1;
        }
        assert(!self.key_seq().contains(k@));
        None
    }

    /// Point lookup.
    pub fn get(&self, k: &str) -> (r: Option<&V>)
        requires
            self.wf(),
        ensures
            match r {
                Some(v) => self.as_map().contains_key(k@) && v@ == self.as_map()[k@],
                None => !self.as_map().contains_key(k@),
            },
    {
        match self.find(k) {
            Some(i) => {
                proof {
                    self.lemma_at(i as int);
                }
                Some(&self.vals[i])
            },
            None => {
                proof {
                    self.lemma_contains(k@);
                }
                None
            },
        }
    }

    /// Whether a key is present.
    pub fn contains(&self, k: &str) -> (r: bool)
        requires
            self.wf(),
        ensures
            r == self.as_map().contains_key(k@),
    {
        match self.get(k) {
            Some(_) => true,
            None => false,
        }
    }

    /// Point write: adds the record or replaces the one under the same key.
    pub fn insert(&mut self, k: String, v: V)
        requires
            old(self).wf(),
        ensures
            final(self).wf(),
            final(self).as_map() == old(self).as_map().insert(k@, v@),
    {
        let found = self.find(k.as_str());
        match found {
            Some(i) => {
                self.vals[i] = v;
                proof {
                    assert(self.key_seq() =~= old(self).key_seq());
                    assert(self.val_seq() =~= old(self).val_seq().update(i as int, v@));
                    assert(self.wf());
                    assert_maps_equal!(self.as_map(), old(self).as_map().insert(k@, v@), x => {
                        if self.key_seq().contains(x) {
                            let j = self.idx_of(x);
                            assert(0 <= j < self.key_seq().len() && self.key_seq()[j] == x);
                            let j0 = old(self).idx_of(x);
                            assert(0 <= j0 < old(self).key_seq().len()
                                && old(self).key_seq()[j0] == x);
                            assert(j == j0);
                            if x == k@ {
                                assert(j == i);
                            } else {
                                assert(j != i);
                            }
                        }
                    });
                }
            },
            None => {
                let pos = self.insert_pos(k.as_str());
                self.keys.insert(pos, k);
                self.vals.insert(pos, v);
                proof {
                    let ks = old(self).key_seq();
                    let vs = old(self).val_seq();
                    assert(self.key_seq() =~= ks.insert(pos as int, k@));
                    assert(self.val_seq() =~= vs.insert(pos as int, v@));
                    assert(forall|a: int|
                        0 <= a < self.key_seq().len() ==> self.key_seq()[a] == (if a < pos {
                            ks[a]
                        } else if a == pos {
                            k@
                        } else {
                            ks[a - 1]
                        }));
                    assert(forall|j: int| 0 <= j < ks.len() ==> ks[j] != k@) by {
                        assert(!ks.contains(k@));
                    }
                    // every key from the position on sorts after the new one
                    assert forall|j: int| pos <= j < ks.len() implies lex_lt(k@, ks[j]) by {
                        lemma_lex_total(k@, ks[pos as int]);
                        if j > pos {
                            lemma_lex_trans(k@, ks[pos as int], ks[j]);
                        }
                    }
                    assert forall|a: int, b: int|
                        0 <= a < b < self.key_seq().len() implies lex_lt(
                        self.key_seq()[a],
                        self.key_seq()[b],
                    ) by {}
                    assert forall|a: int, b: int|
                        0 <= a < b < self.key_seq().len() implies self.key_seq()[a]
                        != self.key_seq()[b] by {
                        if self.key_seq()[a] == self.key_seq()[b] {
                            lemma_lex_irrefl(self.key_seq()[a]);
                        }
                    }
                    assert(self.wf());
                    assert_maps_equal!(self.as_map(), old(self).as_map().insert(k@, v@), x => {
                        if x == k@ {
                            assert(self.key_seq()[pos as int] == k@);
                            assert(self.key_seq().contains(x));
                            let j = self.idx_of(x);
                            assert(0 <= j < self.key_seq().len() && self.key_seq()[j] == x);
                            assert(j == pos) by {
                                if j != pos {
                                    assert(self.key_seq()[j] != self.key_seq()[pos as int]);
                                }
                            }
                            assert(self.val_seq()[pos as int] == v@);
                        } else {
                            if self.key_seq().contains(x) {
                                let j = self.idx_of(x);
                                assert(0 <= j < self.key_seq().len() && self.key_seq()[j] == x);
                                assert(j != pos);
                                let a = if j < pos { j } else { j - 1 };
                                assert(ks[a] == x);
                                assert(ks.contains(x));
                                let j0 = old(self).idx_of(x);
                                assert(0 <= j0 < ks.len() && ks[j0] == x);
                                assert(j0 == a);
                                assert(old(self).as_map()[x] == vs[a]);
                                assert(self.val_seq()[j] == vs[a]);
                            }
                            if old(self).key_seq().contains(x) {
                                let j0 = old(self).idx_of(x);
                                assert(0 <= j0 < ks.len() && ks[j0] == x);
                                let a = if j0 < pos { j0 } else { j0 + 1 };
                                assert(self.key_seq()[a] == x);
                                assert(self.key_seq().contains(x));
                            }
                        }
                    });
                }
            },
        }
    }

    /// Where a fresh key belongs: the first position whose key does not sort
    /// before it.
    fn insert_pos(&self, k: &str) -> (r: usize)
        requires
            self.wf(),
        ensures
            r <= self.key_seq().len(),
            forall|j: int| 0 <= j < r ==> lex_lt(#[trigger] self.key_seq()[j], k@),
            r < self.key_seq().len() ==> !lex_lt(self.key_seq()[r as int], k@),
    {
        let n = self.keys.len();
        let mut pos: usize = 0;
        while pos < n
            invariant
                self.wf(),
                n == self.key_seq().len(),
                pos <= n,
                forall|j: int| 0 <= j < pos ==> lex_lt(#[trigger] self.key_seq()[j], k@),
            decreases n - pos,
        {
            if !str_lt(self.keys[pos].as_str(), k) {
                return pos;
            }
            pos += 1;
        }
        pos
    }

    /// Point delete; no effect when the key is absent.
    pub fn remove(&mut self, k: &str)
        requires
            old(self).wf(),
        ensures
            final(self).wf(),
            final(self).as_map() == old(self).as_map().remove(k@),
    {
        let found = self.find(k);
        match found {
            Some(i) => {
                self.keys.remove(i);
                self.vals.remove(i);
                proof {
                    let ks = old(self).key_seq();
                    let vs = old(self).val_seq();
                    assert(self.key_seq() =~= ks.remove(i as int));
                    assert(self.val_seq() =~= vs.remove(i as int));
                    assert(forall|a: int|
                        0 <= a < self.key_seq().len() ==> self.key_seq()[a] == (if a < i {
                            ks[a]
                        } else {
                            ks[a + 1]
                        }));
                    assert(self.wf());
                    assert_maps_equal!(self.as_map(), old(self).as_map().remove(k@), x => {
                        if self.key_seq().contains(x) {
                            let j = self.idx_of(x);
                            assert(0 <= j < self.key_seq().len() && self.key_seq()[j] == x);
                            let a = if j < i { j } else { j + 1 };
                            assert(ks[a] == x);
                            assert(ks.contains(x));
                            assert(x != k@) by {
                                assert(ks[i as int] == k@);
                            }
                            let j0 = old(self).idx_of(x);
                            assert(0 <= j0 < ks.len() && ks[j0] == x);
                            assert(j0 == a);
                            assert(old(self).as_map()[x] == vs[a]);
                            assert(self.val_seq()[j] == vs[a]);
                        } else {
                            if old(self).key_seq().contains(x) && x != k@ {
                                let j0 = old(self).idx_of(x);
                                assert(0 <= j0 < ks.len() && ks[j0] == x);
                                assert(j0 != i);
                                let a = if j0 < i { j0 } else { j0 - 1 };
                                assert(self.key_seq()[a] == x);
                                assert(self.key_seq().contains(x));
                            }
                        }
                    });
                }
            },
            None => {
                proof {
                    self.lemma_contains(k@);
                    assert(self.as_map() =~= old(self).as_map().remove(k@));
                }
            },
        }
    }
}


/// A record store keyed by a pair of strings, such as `(class id, token id)`.
pub struct PairKeyMap<V> {
    keys: Vec<(String, String)>,
    vals: Vec<V>,
}

impl<V: View> PairKeyMap<V> {
    /// The key pairs, in insertion order.
    pub closed spec fn key_seq(&self) -> Seq<(Seq<char>, Seq<char>)> {
        self.keys@.map_values(|k: (String, String)| (k.0@, k.1@))
    }

    /// The record views, in insertion order.
    pub closed spec fn val_seq(&self) -> Seq<V::V> {
        self.vals@.map_values(|v: V| v@)
    }

    /// Index of a key among `key_seq`.
    pub open spec fn idx_of(&self, k: (Seq<char>, Seq<char>)) -> int {
        choose|i: int| 0 <= i < self.key_seq().len() && self.key_seq()[i] == k
    }

    /// Keys are in ascending order, pairwise distinct, and aligned with the
    /// records.
    pub open spec fn wf(&self) -> bool {
        &&& self.key_seq().len() == self.val_seq().len()
        &&& forall|i: int, j: int|
            0 <= i < j < self.key_seq().len() ==> self.key_seq()[i] != self.key_seq()[j]
        &&& forall|i: int, j: int|
            0 <= i < j < self.key_seq().len() ==> pair_lt(
                #[trigger] self.key_seq()[i],
                #[trigger] self.key_seq()[j],
            )
    }

    /// The store as a map from key pair to record view.
    pub closed spec fn as_map(&self) -> Map<(Seq<char>, Seq<char>), V::V> {
        Map::new(
            |k: (Seq<char>, Seq<char>)| self.key_seq().contains(k),
            |k: (Seq<char>, Seq<char>)| self.val_seq()[self.idx_of(k)],
        )
    }

    /// Membership in the map is membership among the keys.
    pub proof fn lemma_contains(&self, k: (Seq<char>, Seq<char>))
        ensures
            self.as_map().contains_key(k) <==> self.key_seq().contains(k),
    {
    }

    /// The record stored at position `i` is the map's record for that key.
    pub proof fn lemma_at(&self, i: int)
        requires
            self.wf(),
            0 <= i < self.key_seq().len(),
        ensures
            self.as_map().contains_key(self.key_seq()[i]),
            self.as_map()[self.key_seq()[i]] == self.val_seq()[i],
    {
        let k = self.key_seq()[i];
        assert(self.key_seq().contains(k));
        let j = self.idx_of(k);
        assert(0 <= j < self.key_seq().len() && self.key_seq()[j] == k);
        assert(j == i);
    }

    /// An empty store.
    pub fn new() -> (r: Self)
        ensures
            r.wf(),
            r.as_map() == Map::<(Seq<char>, Seq<char>), V::V>::empty(),
            r.key_seq() =~= Seq::<(Seq<char>, Seq<char>)>::empty(),
            r.val_seq() =~= Seq::<V::V>::empty(),
    {
        let r = PairKeyMap { keys: Vec::new(), vals: Vec::new() };
        proof {
            assert(r.key_seq() =~= Seq::<(Seq<char>, Seq<char>)>::empty());
            assert(r.val_seq() =~= Seq::<V::V>::empty());
            assert(r.as_map() =~= Map::<(Seq<char>, Seq<char>), V::V>::empty());
        }
        r
    }

    /// Number of records.
    pub fn len(&self) -> (r: usize)
        requires
            self.wf(),
        ensures
            r == self.key_seq().len(),
    {
        self.keys.len()
    }

    /// The key pair at a position.
    pub fn key_at(&self, i: usize) -> (r: &(String, String))
        requires
            self.wf(),
            i < self.key_seq().len(),
        ensures
            (r.0@, r.1@) == self.key_seq()[i as int],
    {
        &self.keys[i]
    }

    /// The record at a position.
    pub fn val_at(&self, i: usize) -> (r: &V)
        requires
            self.wf(),
            i < self.key_seq().len(),
        ensures
            r@ == self.val_seq()[i as int],
            self.as_map().contains_key(self.key_seq()[i as int]),
            self.as_map()[self.key_seq()[i as int]] == r@,
    {
        proof {
            self.lemma_at(i as int);
        }
        &self.vals[i]
    }

    /// Position of a key pair, when present.
    fn find(&self, k0: &str, k1: &str) -> (r: Option<usize>)
        requires
            self.wf(),
        ensures
            match r {
                Some(i) => i < self.key_seq().len() && self.key_seq()[i as int] == (k0@, k1@),
                None => !self.key_seq().contains((k0@, k1@)),
            },
    {
        let n = self.keys.len();
        let mut i: usize = 0;
        while i < n
            invariant
                self.wf(),
                n == self.key_seq().len(),
                i <= n,
                forall|j: int| 0 <= j < i ==> self.key_seq()[j] != (k0@, k1@),
            decreases n - i,
        {
            if str_eq(self.keys[i].0.as_str(), k0) && str_eq(self.keys[i].1.as_str(), k1) {
                return Some(i);
            }
            i += 1;
        }
        assert(!self.key_seq().contains((k0@, k1@)));
        None
    }

    /// Point lookup.
    pub fn get(&self, k0: &str, k1: &str) -> (r: Option<&V>)
        requires
            self.wf(),
        ensures
            match r {
                Some(v) => self.as_map().contains_key((k0@, k1@)) && v@ == self.as_map()[
                    (k0@, k1@)
                ],
                None => !self.as_map().contains_key((k0@, k1@)),
            },
    {
        match self.find(k0, k1) {
            Some(i) => {
                proof {
                    self.lemma_at(i as int);
                }
                Some(&self.vals[i])
            },
            None => {
                proof {
                    self.lemma_contains((k0@, k1@));
                }
                None
            },
        }
    }

    /// Whether a key pair is present.
    pub fn contains(&self, k0: &str, k1: &str) -> (r: bool)
        requires
            self.wf(),
        ensures
            r == self.as_map().contains_key((k0@, k1@)),
    {
        match self.get(k0, k1) {
            Some(_) => true,
            None => false,
        }
    }

    /// Point write: adds the record or replaces the one under the same key.
    pub fn insert(&mut self, k0: String, k1: String, v: V)
        requires
            old(self).wf(),
        ensures
            final(self).wf(),
            final(self).as_map() == old(self).as_map().insert((k0@, k1@), v@),
    {
        let found = self.find(k0.as_str(), k1.as_str());
        let ghost kk = (k0@, k1@);
        match found {
            Some(i) => {
                self.vals[i] = v;
                proof {
                    assert(self.key_seq() =~= old(self).key_seq());
                    assert(self.val_seq() =~= old(self).val_seq().update(i as int, v@));
                    assert(self.wf());
                    assert_maps_equal!(self.as_map(), old(self).as_map().insert(kk, v@), x => {
                        if self.key_seq().contains(x) {
                            let j = self.idx_of(x);
                            assert(0 <= j < self.key_seq().len() && self.key_seq()[j] == x);
                            let j0 = old(self).idx_of(x);
                            assert(0 <= j0 < old(self).key_seq().len()
                                && old(self).key_seq()[j0] == x);
                            assert(j == j0);
                            if x == kk {
                                assert(j == i);
                            } else {
                                assert(j != i);
                            }
                        }
                    });
                }
            },
            None => {
                let pos = self.insert_pos(k0.as_str(), k1.as_str());
                self.keys.insert(pos, (k0, k1));
                self.vals.insert(pos, v);
                proof {
                    let ks = old(self).key_seq();
                    let vs = old(self).val_seq();
                    assert(self.key_seq() =~= ks.insert(pos as int, kk));
                    assert(self.val_seq() =~= vs.insert(pos as int, v@));
                    assert(forall|a: int|
                        0 <= a < self.key_seq().len() ==> self.key_seq()[a] == (if a < pos {
                            ks[a]
                        } else if a == pos {
                            kk
                        } else {
                            ks[a - 1]
                        }));
                    assert(forall|j: int| 0 <= j < ks.len() ==> ks[j] != kk) by {
                        assert(!ks.contains(kk));
                    }
                    // every key from the position on sorts after the new one
                    assert forall|j: int| pos <= j < ks.len() implies pair_lt(kk, ks[j]) by {
                        lemma_pair_total(kk, ks[pos as int]);
                        if j > pos {
                            lemma_pair_trans(kk, ks[pos as int], ks[j]);
                        }
                    }
                    assert forall|a: int, b: int|
                        0 <= a < b < self.key_seq().len() implies pair_lt(
                        self.key_seq()[a],
                        self.key_seq()[b],
                    ) by {}
                    assert forall|a: int, b: int|
                        0 <= a < b < self.key_seq().len() implies self.key_seq()[a]
                        != self.key_seq()[b] by {
                        if self.key_seq()[a] == self.key_seq()[b] {
                            lemma_pair_irrefl(self.key_seq()[a]);
                        }
                    }
                    assert(self.wf());
                    assert_maps_equal!(self.as_map(), old(self).as_map().insert(kk, v@), x => {
                        if x == kk {
                            assert(self.key_seq()[pos as int] == kk);
                            assert(self.key_seq().contains(x));
                            let j = self.idx_of(x);
                            assert(0 <= j < self.key_seq().len() && self.key_seq()[j] == x);
                            assert(j == pos) by {
                                if j != pos {
                                    assert(self.key_seq()[j] != self.key_seq()[pos as int]);
                                }
                            }
                            assert(self.val_seq()[pos as int] == v@);
                        } else {
                            if self.key_seq().contains(x) {
                                let j = self.idx_of(x);
                                assert(0 <= j < self.key_seq().len() && self.key_seq()[j] == x);
                                assert(j != pos);
                                let a = if j < pos { j } else { j - 1 };
                                assert(ks[a] == x);
                                assert(ks.contains(x));
                                let j0 = old(self).idx_of(x);
                                assert(0 <= j0 < ks.len() && ks[j0] == x);
                                assert(j0 == a);
                                assert(old(self).as_map()[x] == vs[a]);
                                assert(self.val_seq()[j] == vs[a]);
                            }
                            if old(self).key_seq().contains(x) {
                                let j0 = old(self).idx_of(x);
                                assert(0 <= j0 < ks.len() && ks[j0] == x);
                                let a = if j0 < pos { j0 } else { j0 + 1 };
                                assert(self.key_seq()[a] == x);
                                assert(self.key_seq().contains(x));
                            }
                        }
                    });
                }
            },
        }
    }

    /// Where a fresh key pair belongs: the first position whose key does not
    /// sort before it.
    fn insert_pos(&self, k0: &str, k1: &str) -> (r: usize)
        requires
            self.wf(),
        ensures
            r <= self.key_seq().len(),
            forall|j: int| 0 <= j < r ==> pair_lt(#[trigger] self.key_seq()[j], (k0@, k1@)),
            r < self.key_seq().len() ==> !pair_lt(self.key_seq()[r as int], (k0@, k1@)),
    {
        let n = self.keys.len();
        let mut pos: usize = 0;
        while pos < n
            invariant
                self.wf(),
                n == self.key_seq().len(),
                pos <= n,
                forall|j: int| 0 <= j < pos ==> pair_lt(#[trigger] self.key_seq()[j], (k0@, k1@)),
            decreases n - pos,
        {
            let before = str_lt(self.keys[pos].0.as_str(), k0) || (str_eq(
                self.keys[pos].0.as_str(),
                k0,
            ) && str_lt(self.keys[pos].1.as_str(), k1));
            if !before {
                return pos;
            }
            pos += 1;
        }
        pos
    }

    /// Point delete; no effect when the key is absent.
    pub fn remove(&mut self, k0: &str, k1: &str)
        requires
            old(self).wf(),
        ensures
            final(self).wf(),
            final(self).as_map() == old(self).as_map().remove((k0@, k1@)),
    {
        let found = self.find(k0, k1);
        let ghost kk = (k0@, k1@);
        match found {
            Some(i) => {
                self.keys.remove(i);
                self.vals.remove(i);
                proof {
                    let ks = old(self).key_seq();
                    let vs = old(self).val_seq();
                    assert(self.key_seq() =~= ks.remove(i as int));
                    assert(self.val_seq() =~= vs.remove(i as int));
                    assert(forall|a: int|
                        0 <= a < self.key_seq().len() ==> self.key_seq()[a] == (if a < i {
                            ks[a]
                        } else {
                            ks[a + 1]
                        }));
                    assert(self.wf());
                    assert_maps_equal!(self.as_map(), old(self).as_map().remove(kk), x => {
                        if self.key_seq().contains(x) {
                            let j = self.idx_of(x);
                            assert(0 <= j < self.key_seq().len() && self.key_seq()[j] == x);
                            let a = if j < i { j } else { j + 1 };
                            assert(ks[a] == x);
                            assert(ks.contains(x));
                            assert(x != kk) by {
                                assert(ks[i as int] == kk);
                            }
                            let j0 = old(self).idx_of(x);
                            assert(0 <= j0 < ks.len() && ks[j0] == x);
                            assert(j0 == a);
                            assert(old(self).as_map()[x] == vs[a]);
                            assert(self.val_seq()[j] == vs[a]);
                        } else {
                            if old(self).key_seq().contains(x) && x != kk {
                                let j0 = old(self).idx_of(x);
                                assert(0 <= j0 < ks.len() && ks[j0] == x);
                                assert(j0 != i);
                                let a = if j0 < i { j0 } else { j0 - 1 };
                                assert(self.key_seq()[a] == x);
                                assert(self.key_seq().contains(x));
                            }
                        }
                    });
                }
            },
            None => {
                proof {
                    self.lemma_contains(kk);
                    assert(self.as_map() =~= old(self).as_map().remove(kk));
                }
            },
        }
    }
}

} // verus!
