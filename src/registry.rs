use vstd::prelude::*;
use crate::model::PriceUpdateV3;

verus! {

/// Who holds write custody of a record.
#[derive(Clone, Copy, Debug, PartialEq, Eq)]
pub enum Custody {
    /// Held here: local operations apply.
    Local,
    /// Handed to the external execution venue.
    Delegated,
    /// A commit-and-release was requested and has not been observed yet.
    Undelegating,
}

/// A record together with its custody state.
#[derive(Clone, Copy, Debug, PartialEq, Eq)]
pub struct Feed {
    pub record: PriceUpdateV3,
    pub custody: Custody,
}

/// The key of a record: the bytes of its provider and of its symbol.
pub type FeedKey = (Seq<u8>, Seq<u8>);

struct Entry {
    provider: Vec<u8>,
    symbol: Vec<u8>,
    feed: Feed,
}

spec fn key_of(e: Entry) -> FeedKey {
    (e.provider@, e.symbol@)
}

spec fn unique_keys(s: Seq<Entry>) -> bool {
    forall|i: int, j: int|
        0 <= i < s.len() && 0 <= j < s.len() && i != j ==> key_of(#[trigger] s[i]) != key_of(
            #[trigger] s[j],
        )
}

spec fn holds_key(s: Seq<Entry>, k: FeedKey) -> bool {
    exists|i: int| 0 <= i < s.len() && key_of(#[trigger] s[i]) == k
}

spec fn map_of(s: Seq<Entry>) -> Map<FeedKey, Feed> {
    Map::new(
        |k: FeedKey| holds_key(s, k),
        |k: FeedKey| s[choose|i: int| 0 <= i < s.len() && key_of(#[trigger] s[i]) == k].feed,
    )
}

proof fn lemma_lookup(s: Seq<Entry>, i: int)
    requires
        unique_keys(s),
        0 <= i < s.len(),
    ensures
        map_of(s).contains_key(key_of(s[i])),
        map_of(s)[key_of(s[i])] == s[i].feed,
{
    let k = key_of(s[i]);
    assert(holds_key(s, k));
    let j = choose|j: int| 0 <= j < s.len() && key_of(#[trigger] s[j]) == k;
    assert(j == i);
}

proof fn lemma_replace(s: Seq<Entry>, i: int, e: Entry)
    requires
        unique_keys(s),
        0 <= i < s.len(),
        key_of(e) == key_of(s[i]),
    ensures
        unique_keys(s.update(i, e)),
        map_of(s.update(i, e)) == map_of(s).insert(key_of(e), e.feed),
{
    let t = s.update(i, e);
    assert(unique_keys(t)) by {
        assert forall|a: int, b: int|
            0 <= a < t.len() && 0 <= b < t.len() && a != b implies key_of(#[trigger] t[a])
            != key_of(#[trigger] t[b]) by {
            assert(key_of(t[a]) == key_of(s[a]));
            assert(key_of(t[b]) == key_of(s[b]));
        }
    }
    let m = map_of(s).insert(key_of(e), e.feed);
    assert forall|k: FeedKey| #[trigger] map_of(t).contains_key(k) == m.contains_key(k) by {
        if holds_key(t, k) {
            let j = choose|j: int| 0 <= j < t.len() && key_of(#[trigger] t[j]) == k;
            assert(key_of(s[j]) == k);
        }
        if holds_key(s, k) {
            let j = choose|j: int| 0 <= j < s.len() && key_of(#[trigger] s[j]) == k;
            assert(key_of(t[j]) == k);
        }
        if k == key_of(e) {
            assert(key_of(t[i]) == k);
        }
    }
    assert forall|k: FeedKey| #[trigger] map_of(t).contains_key(k) implies map_of(t)[k] == m[k] by {
        let j = choose|j: int| 0 <= j < t.len() && key_of(#[trigger] t[j]) == k;
        lemma_lookup(t, j);
        if j != i {
            assert(t[j] == s[j]);
            lemma_lookup(s, j);
        }
    }
    assert(map_of(t) =~= m);
}

proof fn lemma_append(s: Seq<Entry>, e: Entry)
    requires
        unique_keys(s),
        !map_of(s).contains_key(key_of(e)),
    ensures
        unique_keys(s.push(e)),
        map_of(s.push(e)) == map_of(s).insert(key_of(e), e.feed),
{
    let t = s.push(e);
    let n = s.len() as int;
    assert(unique_keys(t)) by {
        assert forall|a: int, b: int|
            0 <= a < t.len() && 0 <= b < t.len() && a != b implies key_of(#[trigger] t[a])
            != key_of(#[trigger] t[b]) by {
            if a < n && b < n {
                assert(t[a] == s[a] && t[b] == s[b]);
            } else if a < n {
                assert(t[a] == s[a]);
                assert(!holds_key(s, key_of(e)));
            } else {
                assert(t[b] == s[b]);
                assert(!holds_key(s, key_of(e)));
            }
        }
    }
    let m = map_of(s).insert(key_of(e), e.feed);
    assert forall|k: FeedKey| #[trigger] map_of(t).contains_key(k) == m.contains_key(k) by {
        if holds_key(t, k) {
            let j = choose|j: int| 0 <= j < t.len() && key_of(#[trigger] t[j]) == k;
            if j < n {
                assert(t[j] == s[j]);
            }
        }
        if holds_key(s, k) {
            let j = choose|j: int| 0 <= j < s.len() && key_of(#[trigger] s[j]) == k;
            assert(t[j] == s[j]);
        }
        if k == key_of(e) {
            assert(key_of(t[n]) == k);
        }
    }
    assert forall|k: FeedKey| #[trigger] map_of(t).contains_key(k) implies map_of(t)[k] == m[k] by {
        let j = choose|j: int| 0 <= j < t.len() && key_of(#[trigger] t[j]) == k;
        lemma_lookup(t, j);
        if j < n {
            assert(t[j] == s[j]);
            lemma_lookup(s, j);
        }
    }
    assert(map_of(t) =~= m);
}

proof fn lemma_delete(s: Seq<Entry>, i: int)
    requires
        unique_keys(s),
        0 <= i < s.len(),
    ensures
        unique_keys(s.remove(i)),
        map_of(s.remove(i)) == map_of(s).remove(key_of(s[i])),
{
    let t = s.remove(i);
    let gone = key_of(s[i]);
    assert forall|j: int| 0 <= j < t.len() implies #[trigger] t[j] == s[if j < i { j } else { j + 1 }] by {}
    assert(unique_keys(t)) by {
        assert forall|a: int, b: int|
            0 <= a < t.len() && 0 <= b < t.len() && a != b implies key_of(#[trigger] t[a])
            != key_of(#[trigger] t[b]) by {
            let a2 = if a < i { a } else { a + 1 };
            let b2 = if b < i { b } else { b + 1 };
            assert(t[a] == s[a2] && t[b] == s[b2]);
        }
    }
    let m = map_of(s).remove(gone);
    assert forall|k: FeedKey| #[trigger] map_of(t).contains_key(k) == m.contains_key(k) by {
        if holds_key(t, k) {
            let j = choose|j: int| 0 <= j < t.len() && key_of(#[trigger] t[j]) == k;
            let j2 = if j < i { j } else { j + 1 };
            assert(t[j] == s[j2]);
        }
        if holds_key(s, k) && k != gone {
            let j = choose|j: int| 0 <= j < s.len() && key_of(#[trigger] s[j]) == k;
            if j < i {
                assert(t[j] == s[j]);
            } else {
                assert(t[j - 1] == s[j]);
            }
        }
    }
    assert forall|k: FeedKey| #[trigger] map_of(t).contains_key(k) implies map_of(t)[k] == m[k] by {
        let j = choose|j: int| 0 <= j < t.len() && key_of(#[trigger] t[j]) == k;
        let j2 = if j < i { j } else { j + 1 };
        assert(t[j] == s[j2]);
        lemma_lookup(t, j);
        lemma_lookup(s, j2);
    }
    assert(map_of(t) =~= m);
}

fn same_bytes(a: &Vec<u8>, b: &[u8]) -> (r: bool)
    ensures
        r == (a@ == b@),
{
    if a.len() != b.len() {
        return false;
    }
    let mut i: usize = 0;
    while i < a.len()
        invariant
            a@.len() == b@.len(),
            0 <= i <= a@.len(),
            forall|j: int| 0 <= j < i ==> a@[j] == b@[j],
        decreases a@.len() - i,
    {
        if a[i] != b[i] {
            return false;
        }
        i = i + 1;
    }
    assert(a@ =~= b@);
    true
}

/// Every price-feed record, addressed by the bytes of its (provider, symbol) pair.
pub struct FeedRegistry {
    entries: Vec<Entry>,
}

impl FeedRegistry {
    /// The records, by key.
    pub closed spec fn view(&self) -> Map<FeedKey, Feed> {
        map_of(self.entries@)
    }

    /// No two stored records share a key.
    pub closed spec fn wf(&self) -> bool {
        unique_keys(self.entries@)
    }

    /// A registry that holds no record.
    pub fn new() -> (r: FeedRegistry)
        ensures
            r.wf(),
            r@ == Map::<FeedKey, Feed>::empty(),
    {
        let r = FeedRegistry { entries: Vec::new() };
        assert(map_of(r.entries@) =~= Map::<FeedKey, Feed>::empty());
        r
    }

    fn position(&self, provider: &[u8], symbol: &[u8]) -> (r: Option<usize>)
        requires
            self.wf(),
        ensures
            match r {
                Some(i) => i < self.entries@.len() && key_of(self.entries@[i as int]) == (
                provider@,
                symbol@,
                ),
                None => !self@.contains_key((provider@, symbol@)),
            },
    {
        let mut i: usize = 0;
        while i < self.entries.len()
            invariant
                0 <= i <= self.entries@.len(),
                forall|j: int|
                    0 <= j < i ==> key_of(#[trigger] self.entries@[j]) != (provider@, symbol@),
            decreases self.entries@.len() - i,
        {
            let e = &self.entries[i];
            if same_bytes(&e.provider, provider) && same_bytes(&e.symbol, symbol) {
                return Some(i);
            }
            i = i + 1;
        }
        None
    }

    /// The record stored under (`provider`, `symbol`), if any.
    pub fn lookup(&self, provider: &[u8], symbol: &[u8]) -> (r: Option<Feed>)
        requires
            self.wf(),
        ensures
            r == (if self@.contains_key((provider@, symbol@)) {
                Some(self@[(provider@, symbol@)])
            } else {
                None
            }),
    {
        match self.position(provider, symbol) {
            Some(i) => {
                proof {
                    lemma_lookup(self.entries@, i as int);
                }
                Some(self.entries[i].feed)
            },
            None => None,
        }
    }

    /// Stores `feed` under (`provider`, `symbol`), replacing what was there.
    pub fn store(&mut self, provider: &[u8], symbol: &[u8], feed: Feed)
        requires
            old(self).wf(),
        ensures
            final(self).wf(),
            final(self)@ == old(self)@.insert((provider@, symbol@), feed),
    {
        match self.position(provider, symbol) {
            Some(i) => {
                let ghost s = self.entries@;
                let e = Entry {
                    provider: vstd::slice::slice_to_vec(provider),
                    symbol: vstd::slice::slice_to_vec(symbol),
                    feed,
                };
                proof {
                    lemma_replace(s, i as int, e);
                }
                self.entries.set(i, e);
                assert(self.entries@ == s.update(i as int, e));
            },
            None => {
                let ghost s = self.entries@;
                let e = Entry {
                    provider: vstd::slice::slice_to_vec(provider),
                    symbol: vstd::slice::slice_to_vec(symbol),
                    feed,
                };
                proof {
                    lemma_append(s, e);
                }
                self.entries.push(e);
            },
        }
    }

    /// Removes the record stored under (`provider`, `symbol`), if any.
    pub fn discard(&mut self, provider: &[u8], symbol: &[u8])
        requires
            old(self).wf(),
        ensures
            final(self).wf(),
            final(self)@ == old(self)@.remove((provider@, symbol@)),
    {
        match self.position(provider, symbol) {
            Some(i) => {
                let ghost s = self.entries@;
                proof {
                    lemma_delete(s, i as int);
                }
                self.entries.remove(i);
            },
            None => {
                assert(self@ =~= self@.remove((provider@, symbol@)));
            },
        }
    }
}

} // verus!
