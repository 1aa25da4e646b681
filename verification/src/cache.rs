use vstd::prelude::*;

use crate::token::Token;
use crate::token::TokenView;

verus! {

/// One cache slot: the fingerprint of a scope set paired with the most
/// recent token obtained for it.
pub struct Entry {
    pub hash: u64,
    pub token: Token,
}

/// The entries are kept in strictly ascending fingerprint order, so binary
/// search applies and each fingerprint appears at most once.
pub open spec fn entries_sorted(s: Seq<Entry>) -> bool {
    forall|i: int, j: int| 0 <= i < j < s.len() ==> s[i].hash < s[j].hash
}

/// The abstract contents of an entry sequence: the finite map from
/// fingerprint to the token stored under it.
pub open spec fn entries_map(s: Seq<Entry>) -> Map<u64, TokenView>
    decreases s.len(),
{
    if s.len() == 0 {
        Map::empty()
    } else {
        entries_map(s.drop_last()).insert(s.last().hash, s.last().token@)
    }
}

proof fn lemma_map_contains(s: Seq<Entry>, hash: u64)
    ensures
        entries_map(s).contains_key(hash) <==> exists|i: int|
            0 <= i < s.len() && s[i].hash == hash,
    decreases s.len(),
{
    if s.len() == 0 {
    } else {
        lemma_map_contains(s.drop_last(), hash);
        if s.last().hash == hash {
            assert(s[s.len() - 1].hash == hash);
        } else if entries_map(s).contains_key(hash) {
            let i = choose|i: int| 0 <= i < s.drop_last().len() && s.drop_last()[i].hash == hash;
            assert(s[i].hash == hash);
        } else if exists|i: int| 0 <= i < s.len() && s[i].hash == hash {
            let i = choose|i: int| 0 <= i < s.len() && s[i].hash == hash;
            assert(s.drop_last()[i].hash == hash);
        }
    }
}

proof fn lemma_map_index(s: Seq<Entry>, hash: u64, i: int)
    requires
        entries_sorted(s),
        0 <= i < s.len(),
        s[i].hash == hash,
    ensures
        entries_map(s).contains_key(hash),
        entries_map(s)[hash] == s[i].token@,
    decreases s.len(),
{
    if i == s.len() - 1 {
    } else {
        assert(s[i].hash < s.last().hash);
        assert(s.drop_last()[i].hash == hash);
        lemma_map_index(s.drop_last(), hash, i);
    }
}

proof fn lemma_map_insert_at(s: Seq<Entry>, i: int, e: Entry)
    requires
        entries_sorted(s),
        0 <= i <= s.len(),
        forall|j: int| 0 <= j < i ==> s[j].hash < e.hash,
        forall|j: int| i <= j < s.len() ==> s[j].hash > e.hash,
    ensures
        entries_sorted(s.insert(i, e)),
        entries_map(s.insert(i, e)) == entries_map(s).insert(e.hash, e.token@),
    decreases s.len(),
{
    let s2 = s.insert(i, e);
    assert forall|p: int, q: int| 0 <= p < q < s2.len() implies s2[p].hash < s2[q].hash by {
        if p < i && q < i {
            assert(s2[p] == s[p] && s2[q] == s[q]);
        } else if p < i && q == i {
            assert(s2[p] == s[p]);
        } else if p < i && q > i {
            assert(s2[p] == s[p] && s2[q] == s[q - 1]);
        } else if p == i {
            assert(s2[q] == s[q - 1]);
        } else {
            assert(s2[p] == s[p - 1] && s2[q] == s[q - 1]);
        }
    }
    if i == s.len() {
        assert(s2.drop_last() =~= s);
        assert(s2.last() == e);
        assert(entries_map(s2) == entries_map(s).insert(e.hash, e.token@));
    } else {
        assert(s2.last() == s.last());
        assert(s2.drop_last() =~= s.drop_last().insert(i, e));
        lemma_map_insert_at(s.drop_last(), i, e);
        assert(entries_map(s2) == entries_map(s.drop_last()).insert(e.hash, e.token@).insert(
            s.last().hash,
            s.last().token@,
        ));
        assert(s.last().hash != e.hash);
        assert(entries_map(s.drop_last()).insert(e.hash, e.token@).insert(
            s.last().hash,
            s.last().token@,
        ) =~= entries_map(s).insert(e.hash, e.token@));
    }
}

proof fn lemma_map_update_at(s: Seq<Entry>, i: int, e: Entry)
    requires
        entries_sorted(s),
        0 <= i < s.len(),
        s[i].hash == e.hash,
    ensures
        entries_sorted(s.update(i, e)),
        entries_map(s.update(i, e)) == entries_map(s).insert(e.hash, e.token@),
    decreases s.len(),
{
    let s2 = s.update(i, e);
    assert forall|p: int, q: int| 0 <= p < q < s2.len() implies s2[p].hash < s2[q].hash by {
        assert(s[p].hash < s[q].hash);
    }
    if i == s.len() - 1 {
        assert(s2.drop_last() =~= s.drop_last());
        assert(s2.last() == e);
        assert(entries_map(s.drop_last()).insert(s.last().hash, s.last().token@).insert(
            e.hash,
            e.token@,
        ) =~= entries_map(s.drop_last()).insert(e.hash, e.token@));
    } else {
        assert(s2.last() == s.last());
        assert(s2.drop_last() =~= s.drop_last().update(i, e));
        lemma_map_update_at(s.drop_last(), i, e);
        assert(s[i].hash < s.last().hash);
        assert(entries_map(s.drop_last()).insert(e.hash, e.token@).insert(
            s.last().hash,
            s.last().token@,
        ) =~= entries_map(s).insert(e.hash, e.token@));
    }
}

/// An ordered collection of tokens keyed by scope-set fingerprint. Entries
/// are only ever added or replaced, never removed; insertion keeps the
/// sequence sorted by fingerprint at all times.
pub struct TokenCache {
    entries: Vec<Entry>,
}

impl TokenCache {
    /// Well-formedness: the entries stand in strictly ascending fingerprint
    /// order. Constructors establish it and every method preserves it.
    pub closed spec fn wf(&self) -> bool {
        entries_sorted(self.entries@)
    }

    /// The abstract contents: a map from fingerprint to stored token.
    pub closed spec fn view(&self) -> Map<u64, TokenView> {
        entries_map(self.entries@)
    }

    /// An empty cache.
    pub fn new() -> (r: TokenCache)
        ensures
            r.wf(),
            r@ == Map::<u64, TokenView>::empty(),
    {
        TokenCache { entries: Vec::new() }
    }

    /// Binary search by fingerprint: the index holding `hash`, or the
    /// position where an entry with `hash` would have to be inserted to keep
    /// the order.
    fn find(&self, hash: u64) -> (r: Result<usize, usize>)
        requires
            self.wf(),
        ensures
            match r {
                Ok(i) => 0 <= i < self.entries@.len() && self.entries@[i as int].hash == hash,
                Err(i) => {
                    &&& 0 <= i <= self.entries@.len()
                    &&& forall|j: int| 0 <= j < i ==> self.entries@[j].hash < hash
                    &&& forall|j: int|
                        i <= j < self.entries@.len() ==> self.entries@[j].hash > hash
                },
            },
    {
        let mut lo: usize = 0;
        let mut hi: usize = self.entries.len();
        while lo < hi
            invariant
                self.wf(),
                0 <= lo <= hi <= self.entries@.len(),
                forall|j: int| 0 <= j < lo ==> self.entries@[j].hash < hash,
                forall|j: int| hi <= j < self.entries@.len() ==> self.entries@[j].hash > hash,
            decreases hi - lo,
        {
            let mid = lo + (hi - lo) / 2;
            let h = self.entries[mid].hash;
            if h == hash {
                return Ok(mid);
            } else if h < hash {
                assert forall|j: int| 0 <= j < mid + 1 implies self.entries@[j].hash < hash by {
                    if j < mid {
                        assert(self.entries@[j].hash < self.entries@[mid as int].hash);
                    }
                }
                lo = mid + 1;
            } else {
                assert forall|j: int|
                    mid <= j < self.entries@.len() implies self.entries@[j].hash > hash by {
                    if j > mid {
                        assert(self.entries@[mid as int].hash < self.entries@[j].hash);
                    }
                }
                hi = mid;
            }
        }
        Err(lo)
    }

    /// The token stored under `hash`, if any.
    pub fn lookup(&self, hash: u64) -> (r: Option<&Token>)
        requires
            self.wf(),
        ensures
            match r {
                Some(t) => self@.contains_key(hash) && t@ == self@[hash],
                None => !self@.contains_key(hash),
            },
    {
        proof {
            lemma_map_contains(self.entries@, hash);
        }
        match self.find(hash) {
            Ok(i) => {
                proof {
                    lemma_map_index(self.entries@, hash, i as int);
                }
                Some(&self.entries[i].token)
            },
            Err(_) => None,
        }
    }

    /// Store `token` under `hash`, replacing any earlier entry for `hash`.
    /// The order of the entries is preserved and the abstract contents are
    /// exactly the old contents with `hash` now bound to the new token.
    pub fn insert_or_replace(&mut self, hash: u64, token: Token)
        requires
            old(self).wf(),
        ensures
            final(self).wf(),
            final(self)@ == old(self)@.insert(hash, token@),
    {
        let entry = Entry { hash, token };
        match self.find(hash) {
            Ok(i) => {
                proof {
                    lemma_map_update_at(self.entries@, i as int, entry);
                    assert(self.entries@.remove(i as int).insert(i as int, entry) =~= self
                        .entries@.update(i as int, entry));
                }
                self.entries.remove(i);
                self.entries.insert(i, entry);
            },
            Err(i) => {
                proof {
                    lemma_map_insert_at(self.entries@, i as int, entry);
                }
                self.entries.insert(i, entry);
            },
        }
    }

    /// The fingerprints currently cached, in the order they are stored:
    /// strictly ascending, one for each key of the abstract contents.
    pub fn hashes(&self) -> (r: Vec<u64>)
        requires
            self.wf(),
        ensures
            forall|i: int, j: int| 0 <= i < j < r@.len() ==> r@[i] < r@[j],
            forall|h: u64| self@.contains_key(h) <==> r@.contains(h),
    {
        let mut r: Vec<u64> = Vec::new();
        let mut k: usize = 0;
        while k < self.entries.len()
            invariant
                self.wf(),
                0 <= k <= self.entries@.len(),
                r@.len() == k,
                forall|i: int| 0 <= i < k ==> r@[i] == self.entries@[i].hash,
            decreases self.entries@.len() - k,
        {
            r.push(self.entries[k].hash);
            k = k + 1;
        }
        proof {
            assert forall|h: u64| self@.contains_key(h) <==> r@.contains(h) by {
                lemma_map_contains(self.entries@, h);
                if exists|i: int| 0 <= i < self.entries@.len() && self.entries@[i].hash == h {
                    let i = choose|i: int|
                        0 <= i < self.entries@.len() && self.entries@[i].hash == h;
                    assert(r@[i] == h);
                }
                if r@.contains(h) {
                    let i = choose|i: int| 0 <= i < r@.len() && r@[i] == h;
                    assert(self.entries@[i].hash == h);
                }
            }
        }
        r
    }
}

} // verus!
